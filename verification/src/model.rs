//! The rules of the sale, stated over plain mathematical values.
//!
//! Everything the executable code promises is phrased in terms of the
//! functions of this module.

use crate::address::Address;
use crate::error::{HostError, SaleError, TransferTarget};
use vstd::prelude::*;

verus! {

/// What the host is asked to do next.
#[derive(Debug, PartialEq, Eq)]
pub enum Action {
    /// Have the token registry mint the token `id` to `to`.
    Mint { to: Address, id: u128 },
    /// Move `value` out of the sale's balance to `to`.
    Transfer { to: Address, value: u128 },
    /// Nothing more: the call has ended with this result.
    Finish(Result<(), SaleError>),
}

/// How far a call has come.
#[derive(Debug, PartialEq, Eq)]
pub enum Stage {
    /// A single token is being minted to `to`; a refusal ends the call.
    MintOne { to: Address },
    /// One unit of a batch is being minted to `to`. `left` counts the units
    /// still to be attempted, this one included; `pay_for` is the number of
    /// units whose payment is split once the batch is through.
    MintBatch { to: Address, left: u128, pay_for: Option<u128> },
    /// The price is being moved to the withdraw wallet `to`; `fee` is owed
    /// to the developer afterwards.
    PayWithdraw { to: Address, value: u128, fee: u128 },
    /// The fee is being moved to the developer wallet `to`.
    PayDev { to: Address, value: u128 },
    /// The whole balance is being moved to the administrator `to`.
    Withdraw { to: Address, value: u128 },
    /// The call has ended.
    Done(Result<(), SaleError>),
}

/// A call that needs the host.
pub enum Request {
    /// A purchase of `amount` units by `caller`, who pays `value`, at `now`.
    Buy { caller: Address, now: u64, value: u128, amount: u128 },
    /// A free mint of `amount` units to `caller`.
    Reserve { caller: Address, amount: u128 },
    /// The mint of a single token to `caller`.
    MintToken { caller: Address },
    /// The withdrawal of the balance `balance` by `caller`.
    Withdraw { caller: Address, balance: u128 },
}

/// The least of `x` and the greatest amount that can be represented: what
/// saturating arithmetic makes of the exact value `x`.
pub open spec fn capped(x: int) -> u128 {
    if x >= u128::MAX {
        u128::MAX
    } else if x <= 0 {
        0
    } else {
        x as u128
    }
}

/// The configuration of a sale together with its issuance counter.
pub struct SaleState {
    pub name: Seq<char>,
    pub symbol: Seq<char>,
    pub base_uri: Seq<char>,
    pub supply_limit: u128,
    pub mint_per_tx: u128,
    pub mint_price: u128,
    pub mint_fee: u128,
    pub withdraw_wallet: Option<Address>,
    pub dev_wallet: Option<Address>,
    pub sale_time: u64,
    pub administrator: Address,
    pub total_issued: u128,
}

impl SaleState {
    /// No more was ever issued than the supply limit allows.
    pub open spec fn valid(self) -> bool {
        self.total_issued <= self.supply_limit
    }

    /// `Ok` for the administrator, `Unauthorized` for everybody else.
    pub open spec fn gate(self, caller: Address) -> Result<(), SaleError> {
        if caller == self.administrator {
            Ok(())
        } else {
            Err(SaleError::Unauthorized)
        }
    }

    /// What the sale answers when `caller` asks for the supply limit `n`:
    /// only the administrator may ask, and not for less than was issued.
    pub open spec fn supply_limit_change(self, caller: Address, n: u128) -> Result<(), SaleError> {
        if caller != self.administrator {
            Err(SaleError::Unauthorized)
        } else if n < self.total_issued {
            Err(SaleError::SupplyBelowIssued)
        } else {
            Ok(())
        }
    }

    /// The sale is open from `sale_time` on.
    pub open spec fn sale_active(self, now: u64) -> bool {
        self.sale_time <= now
    }

    /// What `amount` units cost, price and fee together.
    pub open spec fn total_price(self, amount: u128) -> u128 {
        capped(amount * (self.mint_price + self.mint_fee))
    }

    /// The part of the payment for `amount` units that is the price.
    pub open spec fn price_share(self, amount: u128) -> u128 {
        capped(amount * self.mint_price)
    }

    /// The part of the payment for `amount` units that is the fee.
    pub open spec fn fee_share(self, amount: u128) -> u128 {
        capped(amount * self.mint_fee)
    }

    /// The identifier of the token that is minted next: tokens are numbered
    /// from one in the order of their issue.
    pub open spec fn next_id(self) -> u128 {
        capped(self.total_issued + 1)
    }

    /// The state after `n` more units were issued.
    pub open spec fn issued(self, n: nat) -> SaleState {
        SaleState { total_issued: capped(self.total_issued + n), ..self }
    }

    /// The sale after the administrator's switch was thrown: any sale time
    /// but zero becomes zero, zero becomes the greatest time there is.
    pub open spec fn toggle(self) -> SaleState {
        SaleState {
            sale_time: if self.sale_time != 0 {
                0
            } else {
                u64::MAX
            },
            ..self
        }
    }

    /// Why a purchase of `amount` units, paid with `value` at time `now`, is
    /// turned down, if it is. The four tests are made in this order, and the
    /// first that fails decides.
    pub open spec fn buy_rejection(self, now: u64, value: u128, amount: u128) -> Option<
        SaleError,
    > {
        if now < self.sale_time {
            Some(SaleError::SaleNotStarted)
        } else if capped(self.total_issued + amount) > self.supply_limit {
            Some(SaleError::SupplyLimitReached)
        } else if amount > self.mint_per_tx {
            Some(SaleError::PerTxLimitExceeded)
        } else if value < self.total_price(amount) {
            Some(SaleError::InsufficientPayment)
        } else {
            None
        }
    }

    /// Why a free mint of `amount` units by `caller` is turned down, if it is.
    pub open spec fn reserve_rejection(self, caller: Address, amount: u128) -> Option<SaleError> {
        if caller != self.administrator {
            Some(SaleError::Unauthorized)
        } else if capped(self.total_issued + amount) > self.supply_limit {
            Some(SaleError::SupplyLimitReached)
        } else {
            None
        }
    }

    /// Why a withdrawal by `caller` from a balance of `balance` is turned
    /// down, if it is.
    pub open spec fn withdraw_rejection(self, caller: Address, balance: u128) -> Option<
        SaleError,
    > {
        if caller != self.administrator {
            Some(SaleError::Unauthorized)
        } else if balance == 0 {
            Some(SaleError::NoFunds)
        } else {
            None
        }
    }

    /// A call that ends at once with `result`.
    pub open spec fn done(self, result: Result<(), SaleError>) -> SessionState {
        SessionState { sale: self, stage: Stage::Done(result) }
    }

    /// The payment for `amount` units starts on its way: first the price,
    /// to the withdraw wallet, which must be set whatever is owed.
    pub open spec fn split(self, amount: u128) -> SessionState {
        match self.withdraw_wallet {
            None => self.done(Err(SaleError::WithdrawWalletUnset)),
            Some(to) => SessionState {
                sale: self,
                stage: Stage::PayWithdraw {
                    to,
                    value: self.price_share(amount),
                    fee: self.fee_share(amount),
                },
            },
        }
    }

    /// The price has arrived: a fee of nothing ends the call, any other fee
    /// goes to the developer wallet, which must then be set.
    pub open spec fn settle_fee(self, fee: u128) -> SessionState {
        if fee == 0 {
            self.done(Ok(()))
        } else {
            match self.dev_wallet {
                None => self.done(Err(SaleError::DevWalletUnset)),
                Some(to) => SessionState { sale: self, stage: Stage::PayDev { to, value: fee } },
            }
        }
    }

    /// A batch with `left` units still to attempt goes on: with the next
    /// unit while the supply limit leaves room for one, else with what
    /// follows the batch.
    pub open spec fn batch(self, to: Address, left: u128, pay_for: Option<u128>) -> SessionState {
        if left > 0 && self.total_issued < self.supply_limit {
            SessionState { sale: self, stage: Stage::MintBatch { to, left, pay_for } }
        } else {
            match pay_for {
                None => self.done(Ok(())),
                Some(amount) => self.split(amount),
            }
        }
    }

    /// The call that `buy` opens.
    pub open spec fn buy(self, caller: Address, now: u64, value: u128, amount: u128)
        -> SessionState {
        match self.buy_rejection(now, value, amount) {
            Some(e) => self.done(Err(e)),
            None => self.batch(caller, amount, Some(amount)),
        }
    }

    /// The call that `reserve` opens.
    pub open spec fn reserve(self, caller: Address, amount: u128) -> SessionState {
        match self.reserve_rejection(caller, amount) {
            Some(e) => self.done(Err(e)),
            None => self.batch(caller, amount, None),
        }
    }

    /// The call that `mint_token` opens.
    pub open spec fn mint_token(self, caller: Address) -> SessionState {
        if self.total_issued >= self.supply_limit {
            self.done(Err(SaleError::SupplyLimitReached))
        } else {
            SessionState { sale: self, stage: Stage::MintOne { to: caller } }
        }
    }

    /// The call that `request` opens.
    pub open spec fn open(self, request: Request) -> SessionState {
        match request {
            Request::Buy { caller, now, value, amount } => self.buy(caller, now, value, amount),
            Request::Reserve { caller, amount } => self.reserve(caller, amount),
            Request::MintToken { caller } => self.mint_token(caller),
            Request::Withdraw { caller, balance } => self.withdraw(caller, balance),
        }
    }

    /// The sale after `request` was served, the host having reported
    /// `outcomes` on the way.
    pub open spec fn serve(self, request: Request, outcomes: Seq<Result<(), HostError>>)
        -> SaleState {
        self.open(request).run(outcomes).sale
    }

    /// The sale after every call of `calls` was served, one after the other.
    pub open spec fn serve_all(self, calls: Seq<(Request, Seq<Result<(), HostError>>)>)
        -> SaleState
        decreases calls.len(),
    {
        if calls.len() == 0 {
            self
        } else {
            self.serve(calls[0].0, calls[0].1).serve_all(calls.skip(1))
        }
    }

    /// The call that `withdraw` opens.
    pub open spec fn withdraw(self, caller: Address, balance: u128) -> SessionState {
        match self.withdraw_rejection(caller, balance) {
            Some(e) => self.done(Err(e)),
            None => SessionState { sale: self, stage: Stage::Withdraw { to: caller, value: balance } },
        }
    }
}

/// How many of `outcomes` are successes.
pub open spec fn accepted(outcomes: Seq<Result<(), HostError>>) -> nat
    decreases outcomes.len(),
{
    if outcomes.len() == 0 {
        0
    } else if outcomes[0] is Ok {
        1 + accepted(outcomes.skip(1))
    } else {
        accepted(outcomes.skip(1))
    }
}

/// A call in progress: the sale it runs on and how far it has come.
pub struct SessionState {
    pub sale: SaleState,
    pub stage: Stage,
}

impl SessionState {
    /// The sale is valid, and a mint is only ever asked for while the supply
    /// limit leaves room for the unit.
    pub open spec fn valid(self) -> bool {
        &&& self.sale.valid()
        &&& match self.stage {
            Stage::MintOne { .. } => self.sale.total_issued < self.sale.supply_limit,
            Stage::MintBatch { left, .. } => left > 0 && self.sale.total_issued
                < self.sale.supply_limit,
            _ => true,
        }
    }

    /// Whether the call has ended.
    pub open spec fn finished(self) -> bool {
        self.stage is Done
    }

    /// What the host is to do at this stage.
    pub open spec fn action(self) -> Action {
        match self.stage {
            Stage::MintOne { to } => Action::Mint { to, id: self.sale.next_id() },
            Stage::MintBatch { to, .. } => Action::Mint { to, id: self.sale.next_id() },
            Stage::PayWithdraw { to, value, .. } => Action::Transfer { to, value },
            Stage::PayDev { to, value } => Action::Transfer { to, value },
            Stage::Withdraw { to, value } => Action::Transfer { to, value },
            Stage::Done(result) => Action::Finish(result),
        }
    }

    /// The call after the host has reported how the action of this stage
    /// went. A unit of a batch that the registry refuses is passed over;
    /// every other failure ends the call with its error. A call that has
    /// ended stays as it is.
    pub open spec fn resume(self, outcome: Result<(), HostError>) -> SessionState {
        match self.stage {
            Stage::MintOne { .. } => match outcome {
                Ok(_) => self.sale.issued(1).done(Ok(())),
                Err(e) => self.sale.done(Err(SaleError::Registry(e))),
            },
            Stage::MintBatch { to, left, pay_for } => {
                let sale = if outcome is Ok {
                    self.sale.issued(1)
                } else {
                    self.sale
                };
                sale.batch(to, capped(left - 1), pay_for)
            },
            Stage::PayWithdraw { fee, .. } => if outcome is Ok {
                self.sale.settle_fee(fee)
            } else {
                self.sale.done(Err(SaleError::TransferFailed(TransferTarget::Withdraw)))
            },
            Stage::PayDev { .. } => if outcome is Ok {
                self.sale.done(Ok(()))
            } else {
                self.sale.done(Err(SaleError::TransferFailed(TransferTarget::Dev)))
            },
            Stage::Withdraw { .. } => if outcome is Ok {
                self.sale.done(Ok(()))
            } else {
                self.sale.done(Err(SaleError::WithdrawalFailed))
            },
            Stage::Done(_) => self,
        }
    }

    /// The call after the host has reported the outcomes of `outcomes`, one
    /// action after the other.
    pub open spec fn run(self, outcomes: Seq<Result<(), HostError>>) -> SessionState
        decreases outcomes.len(),
    {
        if outcomes.len() == 0 {
            self
        } else {
            self.resume(outcomes[0]).run(outcomes.skip(1))
        }
    }
}

} // verus!
