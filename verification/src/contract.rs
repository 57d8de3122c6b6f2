//! The sale itself: its configuration, its issuance counter, and the calls
//! that read and change them without any outside work.

use crate::address::Address;
use crate::error::SaleError;
use crate::model::{capped, SaleState};
use vstd::prelude::*;

verus! {

/// `x * y`, or the greatest amount there is where the product exceeds it.
pub(crate) fn saturating_product(x: u128, y: u128) -> (r: u128)
    ensures
        r == capped(x * y),
{
    assert(x * y >= 0) by (nonlinear_arith)
        requires
            x >= 0,
            y >= 0,
    ;
    match x.checked_mul(y) {
        Some(p) => p,
        None => u128::MAX,
    }
}

/// A sale of a fixed supply of tokens.
///
/// Every call that changes the configuration names its caller, and only the
/// administrator's calls are let through.
#[derive(Debug)]
pub struct Contract {
    name: String,
    symbol: String,
    base_uri: String,
    supply_limit: u128,
    mint_per_tx: u128,
    mint_price: u128,
    mint_fee: u128,
    withdraw_wallet: Option<Address>,
    dev_wallet: Option<Address>,
    sale_time: u64,
    administrator: Address,
    total_issued: u128,
}

impl View for Contract {
    type V = SaleState;

    closed spec fn view(&self) -> SaleState {
        SaleState {
            name: self.name@,
            symbol: self.symbol@,
            base_uri: self.base_uri@,
            supply_limit: self.supply_limit,
            mint_per_tx: self.mint_per_tx,
            mint_price: self.mint_price,
            mint_fee: self.mint_fee,
            withdraw_wallet: self.withdraw_wallet,
            dev_wallet: self.dev_wallet,
            sale_time: self.sale_time,
            administrator: self.administrator,
            total_issued: self.total_issued,
        }
    }
}

impl Contract {
    #[verifier::type_invariant]
    spec fn bounded(self) -> bool {
        self.total_issued <= self.supply_limit
    }

    /// A new sale, administered by `administrator`, with nothing issued yet.
    pub fn new(
        administrator: Address,
        name: String,
        symbol: String,
        base_uri: String,
        mint_per_tx: u128,
        mint_price: u128,
        mint_fee: u128,
        supply_limit: u128,
        withdraw_wallet: Option<Address>,
        dev_wallet: Option<Address>,
        sale_time: u64,
    ) -> (c: Contract)
        ensures
            c@ == (SaleState {
                name: name@,
                symbol: symbol@,
                base_uri: base_uri@,
                supply_limit,
                mint_per_tx,
                mint_price,
                mint_fee,
                withdraw_wallet,
                dev_wallet,
                sale_time,
                administrator,
                total_issued: 0,
            }),
            c@.valid(),
    {
        Contract {
            name,
            symbol,
            base_uri,
            supply_limit,
            mint_per_tx,
            mint_price,
            mint_fee,
            withdraw_wallet,
            dev_wallet,
            sale_time,
            administrator,
            total_issued: 0,
        }
    }

    /// The sale with its counter set to `total_issued`, as a stored state
    /// recorded it; `None` where that is more than the supply limit allows.
    pub fn with_total_issued(self, total_issued: u128) -> (r: Option<Contract>)
        ensures
            r is Some <==> total_issued <= self@.supply_limit,
            r is Some ==> r->Some_0@ == (SaleState { total_issued, ..self@ }) && r->Some_0@.valid(),
    {
        if total_issued > self.supply_limit {
            return None;
        }
        let mut c = self;
        c.total_issued = total_issued;
        Some(c)
    }

    /// Lets the administrator through and nobody else.
    pub fn gate(&self, caller: Address) -> (r: Result<(), SaleError>)
        ensures
            r == self@.gate(caller),
    {
        if caller == self.administrator {
            Ok(())
        } else {
            Err(SaleError::Unauthorized)
        }
    }

    /// Sets the prefix of the token addresses.
    pub fn set_base_uri(&mut self, caller: Address, uri: String) -> (r: Result<(), SaleError>)
        ensures
            r == old(self)@.gate(caller),
            r is Ok ==> final(self)@ == (SaleState { base_uri: uri@, ..old(self)@ }),
            r is Err ==> final(self)@ == old(self)@,
            final(self)@.valid(),
    {
        proof {
            use_type_invariant(&*self);
        }
        if caller != self.administrator {
            return Err(SaleError::Unauthorized);
        }
        self.base_uri = uri;
        Ok(())
    }

    /// Sets how many units one purchase may mint.
    pub fn set_mint_per_tx(&mut self, caller: Address, mint_per_tx: u128) -> (r: Result<
        (),
        SaleError,
    >)
        ensures
            r == old(self)@.gate(caller),
            r is Ok ==> final(self)@ == (SaleState { mint_per_tx, ..old(self)@ }),
            r is Err ==> final(self)@ == old(self)@,
            final(self)@.valid(),
    {
        proof {
            use_type_invariant(&*self);
        }
        if caller != self.administrator {
            return Err(SaleError::Unauthorized);
        }
        self.mint_per_tx = mint_per_tx;
        Ok(())
    }

    /// Sets the price of one unit.
    pub fn set_mint_price(&mut self, caller: Address, mint_price: u128) -> (r: Result<
        (),
        SaleError,
    >)
        ensures
            r == old(self)@.gate(caller),
            r is Ok ==> final(self)@ == (SaleState { mint_price, ..old(self)@ }),
            r is Err ==> final(self)@ == old(self)@,
            final(self)@.valid(),
    {
        proof {
            use_type_invariant(&*self);
        }
        if caller != self.administrator {
            return Err(SaleError::Unauthorized);
        }
        self.mint_price = mint_price;
        Ok(())
    }

    /// Sets the time from which the sale is open.
    pub fn set_sale_time(&mut self, caller: Address, sale_time: u64) -> (r: Result<(), SaleError>)
        ensures
            r == old(self)@.gate(caller),
            r is Ok ==> final(self)@ == (SaleState { sale_time, ..old(self)@ }),
            r is Err ==> final(self)@ == old(self)@,
            final(self)@.valid(),
    {
        proof {
            use_type_invariant(&*self);
        }
        if caller != self.administrator {
            return Err(SaleError::Unauthorized);
        }
        self.sale_time = sale_time;
        Ok(())
    }

    /// Sets the supply limit, which may not fall below what was issued.
    pub fn set_supply_limit(&mut self, caller: Address, supply_limit: u128) -> (r: Result<
        (),
        SaleError,
    >)
        ensures
            r == old(self)@.supply_limit_change(caller, supply_limit),
            r is Ok ==> final(self)@ == (SaleState { supply_limit, ..old(self)@ }),
            r is Err ==> final(self)@ == old(self)@,
            final(self)@.valid(),
    {
        proof {
            use_type_invariant(&*self);
        }
        if caller != self.administrator {
            return Err(SaleError::Unauthorized);
        }
        if supply_limit < self.total_issued {
            return Err(SaleError::SupplyBelowIssued);
        }
        self.supply_limit = supply_limit;
        Ok(())
    }

    /// Sets the wallet that receives the price, or leaves the sale without
    /// one.
    pub fn set_withdraw_wallet(&mut self, caller: Address, withdraw_wallet: Option<Address>) -> (r:
        Result<(), SaleError>)
        ensures
            r == old(self)@.gate(caller),
            r is Ok ==> final(self)@ == (SaleState { withdraw_wallet, ..old(self)@ }),
            r is Err ==> final(self)@ == old(self)@,
            final(self)@.valid(),
    {
        proof {
            use_type_invariant(&*self);
        }
        if caller != self.administrator {
            return Err(SaleError::Unauthorized);
        }
        self.withdraw_wallet = withdraw_wallet;
        Ok(())
    }

    /// Hands the administration of the sale to `administrator`.
    pub fn set_administrator(&mut self, caller: Address, administrator: Address) -> (r: Result<
        (),
        SaleError,
    >)
        ensures
            r == old(self)@.gate(caller),
            r is Ok ==> final(self)@ == (SaleState { administrator, ..old(self)@ }),
            r is Err ==> final(self)@ == old(self)@,
            final(self)@.valid(),
    {
        proof {
            use_type_invariant(&*self);
        }
        if caller != self.administrator {
            return Err(SaleError::Unauthorized);
        }
        self.administrator = administrator;
        Ok(())
    }

    /// Throws the administrator's switch: a sale with any sale time but zero
    /// is opened for good, one with the sale time zero is closed for good.
    /// The sale time that stood before is not kept.
    pub fn toggle_sale_active(&mut self, caller: Address) -> (r: Result<(), SaleError>)
        ensures
            r == old(self)@.gate(caller),
            r is Ok ==> final(self)@ == old(self)@.toggle(),
            r is Err ==> final(self)@ == old(self)@,
            final(self)@.valid(),
    {
        proof {
            use_type_invariant(&*self);
        }
        if caller != self.administrator {
            return Err(SaleError::Unauthorized);
        }
        if self.sale_time != 0 {
            self.sale_time = 0;
        } else {
            self.sale_time = u64::MAX;
        }
        Ok(())
    }

    /// Counts one more unit as issued.
    pub(crate) fn issue_one(&mut self)
        requires
            old(self)@.total_issued < old(self)@.supply_limit,
        ensures
            final(self)@ == old(self)@.issued(1),
            final(self)@.valid(),
    {
        self.total_issued = self.total_issued + 1;
    }

    /// The name of the collection.
    pub fn name(&self) -> (r: String)
        ensures
            r@ == self@.name,
    {
        self.name.clone()
    }

    /// The symbol of the collection.
    pub fn symbol(&self) -> (r: String)
        ensures
            r@ == self@.symbol,
    {
        self.symbol.clone()
    }

    /// The prefix of the token addresses.
    pub fn base_uri(&self) -> (r: String)
        ensures
            r@ == self@.base_uri,
    {
        self.base_uri.clone()
    }

    /// The greatest number of units that may ever be issued.
    pub fn supply_limit(&self) -> (r: u128)
        ensures
            r == self@.supply_limit,
    {
        self.supply_limit
    }

    /// The greatest number of units that one purchase may mint.
    pub fn mint_per_tx(&self) -> (r: u128)
        ensures
            r == self@.mint_per_tx,
    {
        self.mint_per_tx
    }

    /// The price of one unit.
    pub fn mint_price(&self) -> (r: u128)
        ensures
            r == self@.mint_price,
    {
        self.mint_price
    }

    /// The fee on one unit.
    pub fn mint_fee(&self) -> (r: u128)
        ensures
            r == self@.mint_fee,
    {
        self.mint_fee
    }

    /// The wallet that receives the fee, if one is set.
    pub fn dev_wallet(&self) -> (r: Option<Address>)
        ensures
            r == self@.dev_wallet,
    {
        self.dev_wallet
    }

    /// The wallet that receives the price, if one is set.
    pub fn withdraw_wallet(&self) -> (r: Option<Address>)
        ensures
            r == self@.withdraw_wallet,
    {
        self.withdraw_wallet
    }

    /// The time from which the sale is open.
    pub fn sale_time(&self) -> (r: u64)
        ensures
            r == self@.sale_time,
    {
        self.sale_time
    }

    /// The account that administers the sale.
    pub fn administrator(&self) -> (r: Address)
        ensures
            r == self@.administrator,
    {
        self.administrator
    }

    /// The number of units issued so far, which the supply limit bounds.
    pub fn total_issued(&self) -> (r: u128)
        ensures
            r == self@.total_issued,
            self@.valid(),
    {
        proof {
            use_type_invariant(self);
        }
        self.total_issued
    }

    /// Whether the sale is open at the time `now`.
    pub fn sale_active(&self, now: u64) -> (r: bool)
        ensures
            r == self@.sale_active(now),
    {
        self.sale_time <= now
    }

    /// What `amount` units cost, price and fee together.
    pub fn total_price(&self, amount: u128) -> (r: u128)
        ensures
            r == self@.total_price(amount),
    {
        let unit: u128 = self.mint_price.saturating_add(self.mint_fee);
        let total: u128 = saturating_product(amount, unit);
        proof {
            let exact: int = self.mint_price + self.mint_fee;
            if exact > u128::MAX && amount > 0 {
                assert(amount * unit >= u128::MAX && amount * exact >= u128::MAX)
                    by (nonlinear_arith)
                    requires
                        amount >= 1,
                        unit == u128::MAX,
                        exact > u128::MAX,
                ;
            }
            if amount == 0 {
                assert(amount * unit == 0 && amount * exact == 0) by (nonlinear_arith)
                    requires
                        amount == 0,
                ;
            }
        }
        total
    }

    /// The part of the payment for `amount` units that is the price.
    pub fn price_share(&self, amount: u128) -> (r: u128)
        ensures
            r == self@.price_share(amount),
    {
        saturating_product(amount, self.mint_price)
    }

    /// The part of the payment for `amount` units that is the fee.
    pub fn fee_share(&self, amount: u128) -> (r: u128)
        ensures
            r == self@.fee_share(amount),
    {
        saturating_product(amount, self.mint_fee)
    }
}

} // verus!
