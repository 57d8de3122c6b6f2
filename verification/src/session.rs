//! Calls that need outside work: minting and moving value.
//!
//! Such a call is opened on the sale, which it takes over for as long as it
//! runs. It then tells the host what to do, one action at a time, and is
//! resumed with the outcome of each, until nothing is left to do. The sale
//! is handed back at the end.

use crate::address::Address;
use crate::contract::Contract;
use crate::error::{HostError, SaleError, TransferTarget};
use crate::model::{Action, SessionState, Stage};
use vstd::prelude::*;

verus! {

/// A call in progress on a sale.
#[derive(Debug)]
pub struct Session {
    contract: Contract,
    stage: Stage,
}

impl View for Session {
    type V = SessionState;

    closed spec fn view(&self) -> SessionState {
        SessionState { sale: self.contract@, stage: self.stage }
    }
}

impl Contract {
    /// Opens a purchase of `amount` units by `caller`, who has paid `value`,
    /// at the time `now`. A purchase that is turned down ends at once and
    /// leaves the sale as it was.
    pub fn buy(self, caller: Address, now: u64, value: u128, amount: u128) -> (s: Session)
        ensures
            s@ == self@.buy(caller, now, value, amount),
            s@.valid(),
    {
        if now < self.sale_time() {
            return self.done(Err(SaleError::SaleNotStarted));
        }
        if self.total_issued().saturating_add(amount) > self.supply_limit() {
            return self.done(Err(SaleError::SupplyLimitReached));
        }
        if amount > self.mint_per_tx() {
            return self.done(Err(SaleError::PerTxLimitExceeded));
        }
        if value < self.total_price(amount) {
            return self.done(Err(SaleError::InsufficientPayment));
        }
        self.batch(caller, amount, Some(amount))
    }

    /// Opens a free mint of `amount` units to `caller`, who must be the
    /// administrator. Neither time nor payment is looked at.
    pub fn reserve(self, caller: Address, amount: u128) -> (s: Session)
        ensures
            s@ == self@.reserve(caller, amount),
            s@.valid(),
    {
        if caller != self.administrator() {
            return self.done(Err(SaleError::Unauthorized));
        }
        if self.total_issued().saturating_add(amount) > self.supply_limit() {
            return self.done(Err(SaleError::SupplyLimitReached));
        }
        self.batch(caller, amount, None)
    }

    /// Opens the mint of a single token to `caller`. Unlike the units of a
    /// batch, this one is not passed over when the registry refuses it: the
    /// call then ends with the registry's error.
    pub fn mint_token(self, caller: Address) -> (s: Session)
        ensures
            s@ == self@.mint_token(caller),
            s@.valid(),
    {
        if self.total_issued() >= self.supply_limit() {
            return self.done(Err(SaleError::SupplyLimitReached));
        }
        Session::at(self, Stage::MintOne { to: caller })
    }

    /// Opens the withdrawal of the sale's whole balance, which the host
    /// gives as `balance`, to `caller`, who must be the administrator.
    pub fn withdraw(self, caller: Address, balance: u128) -> (s: Session)
        ensures
            s@ == self@.withdraw(caller, balance),
            s@.valid(),
    {
        if caller != self.administrator() {
            return self.done(Err(SaleError::Unauthorized));
        }
        if balance == 0 {
            return self.done(Err(SaleError::NoFunds));
        }
        Session::at(self, Stage::Withdraw { to: caller, value: balance })
    }

    /// A call on this sale that has ended with `result`.
    fn done(self, result: Result<(), SaleError>) -> (s: Session)
        ensures
            s@ == self@.done(result),
            s@.valid(),
    {
        Session::at(self, Stage::Done(result))
    }

    /// A batch with `left` units still to attempt, at its next step.
    fn batch(self, to: Address, left: u128, pay_for: Option<u128>) -> (s: Session)
        ensures
            s@ == self@.batch(to, left, pay_for),
            s@.valid(),
    {
        if left > 0 && self.total_issued() < self.supply_limit() {
            return Session::at(self, Stage::MintBatch { to, left, pay_for });
        }
        match pay_for {
            None => self.done(Ok(())),
            Some(amount) => self.split(amount),
        }
    }

    /// The payment for `amount` units, at its first step.
    fn split(self, amount: u128) -> (s: Session)
        ensures
            s@ == self@.split(amount),
            s@.valid(),
    {
        match self.withdraw_wallet() {
            None => self.done(Err(SaleError::WithdrawWalletUnset)),
            Some(to) => {
                let value: u128 = self.price_share(amount);
                let fee: u128 = self.fee_share(amount);
                Session::at(self, Stage::PayWithdraw { to, value, fee })
            },
        }
    }

    /// The payment of a fee of `fee`, once the price has arrived.
    fn settle_fee(self, fee: u128) -> (s: Session)
        ensures
            s@ == self@.settle_fee(fee),
            s@.valid(),
    {
        if fee == 0 {
            return self.done(Ok(()));
        }
        match self.dev_wallet() {
            None => self.done(Err(SaleError::DevWalletUnset)),
            Some(to) => {
                Session::at(self, Stage::PayDev { to, value: fee })
            },
        }
    }
}

impl Session {
    #[verifier::type_invariant]
    spec fn sound(self) -> bool {
        self@.valid()
    }

    /// A call on `contract` that stands at `stage`.
    fn at(contract: Contract, stage: Stage) -> (s: Session)
        requires
            stage is MintOne || stage is MintBatch ==> contract@.total_issued
                < contract@.supply_limit,
            stage matches Stage::MintBatch { left, .. } ==> left > 0,
        ensures
            s@ == (SessionState { sale: contract@, stage }),
            s@.valid(),
    {
        // Reading the counter brings the sale's own bound into view.
        let _issued: u128 = contract.total_issued();
        Session { contract, stage }
    }

    /// What the host is to do now.
    pub fn action(&self) -> (a: Action)
        ensures
            a == self@.action(),
            self@.valid(),
    {
        proof {
            use_type_invariant(self);
        }
        match &self.stage {
            Stage::MintOne { to } => Action::Mint { to: *to, id: self.contract.total_issued() + 1 },
            Stage::MintBatch { to, .. } => Action::Mint {
                to: *to,
                id: self.contract.total_issued() + 1,
            },
            Stage::PayWithdraw { to, value, .. } => Action::Transfer { to: *to, value: *value },
            Stage::PayDev { to, value } => Action::Transfer { to: *to, value: *value },
            Stage::Withdraw { to, value } => Action::Transfer { to: *to, value: *value },
            Stage::Done(result) => match result {
                Ok(unit) => Action::Finish(Ok(*unit)),
                Err(e) => Action::Finish(Err(e.clone())),
            },
        }
    }

    /// Whether the call has ended.
    pub fn finished(&self) -> (r: bool)
        ensures
            r == self@.finished(),
    {
        match &self.stage {
            Stage::Done(_) => true,
            _ => false,
        }
    }

    /// The call after the host has performed the action, or failed to.
    pub fn resume(self, outcome: Result<(), HostError>) -> (s: Session)
        ensures
            s@ == self@.resume(outcome),
            s@.valid(),
    {
        proof {
            use_type_invariant(&self);
        }
        let Session { contract, stage } = self;
        let mut contract = contract;
        match stage {
            Stage::MintOne { .. } => match outcome {
                Ok(_) => {
                    contract.issue_one();
                    contract.done(Ok(()))
                },
                Err(e) => contract.done(Err(SaleError::Registry(e))),
            },
            Stage::MintBatch { to, left, pay_for } => {
                if outcome.is_ok() {
                    contract.issue_one();
                }
                contract.batch(to, left - 1, pay_for)
            },
            Stage::PayWithdraw { fee, .. } => {
                if outcome.is_ok() {
                    contract.settle_fee(fee)
                } else {
                    contract.done(Err(SaleError::TransferFailed(TransferTarget::Withdraw)))
                }
            },
            Stage::PayDev { .. } => {
                if outcome.is_ok() {
                    contract.done(Ok(()))
                } else {
                    contract.done(Err(SaleError::TransferFailed(TransferTarget::Dev)))
                }
            },
            Stage::Withdraw { .. } => {
                if outcome.is_ok() {
                    contract.done(Ok(()))
                } else {
                    contract.done(Err(SaleError::WithdrawalFailed))
                }
            },
            Stage::Done(result) => contract.done(result),
        }
    }

    /// Ends the call where it stands and hands the sale back.
    pub fn into_contract(self) -> (c: Contract)
        ensures
            c@ == self@.sale,
            c@.valid(),
    {
        proof {
            use_type_invariant(&self);
        }
        self.contract
    }
}

} // verus!
