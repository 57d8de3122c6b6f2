//! What holds of the sale whatever is asked of it.

use crate::address::Address;
use crate::error::{HostError, SaleError};
use crate::model::{accepted, capped, Action, Request, SaleState, SessionState};
use vstd::prelude::*;

verus! {

/// One step of a call keeps the sale within its supply limit, never takes
/// an issued unit back, issues at most one, and leaves the configuration as
/// it was.
pub proof fn law_step_keeps_limit(s: SessionState, outcome: Result<(), HostError>)
    requires
        s.valid(),
    ensures
        s.resume(outcome).valid(),
        s.sale.total_issued <= s.resume(outcome).sale.total_issued <= s.sale.total_issued + 1,
        s.resume(outcome).sale == (SaleState {
            total_issued: s.resume(outcome).sale.total_issued,
            ..s.sale
        }),
{
}

/// Nothing but a mint that the registry has accepted changes the sale, and
/// such a mint issues one unit.
pub proof fn law_only_accepted_mints_issue(s: SessionState, outcome: Result<(), HostError>)
    requires
        s.valid(),
    ensures
        (s.stage is MintOne || s.stage is MintBatch) && outcome is Ok ==> s.resume(outcome).sale
            == s.sale.issued(1) && s.resume(outcome).sale.total_issued == s.sale.total_issued + 1,
        !((s.stage is MintOne || s.stage is MintBatch) && outcome is Ok) ==> s.resume(
            outcome,
        ).sale == s.sale,
{
}

/// However many steps a call takes and however they go, the sale stays
/// within its supply limit, no issued unit is taken back, and the
/// configuration stays as it was.
pub proof fn law_call_keeps_limit(s: SessionState, outcomes: Seq<Result<(), HostError>>)
    requires
        s.valid(),
    ensures
        s.run(outcomes).valid(),
        s.sale.total_issued <= s.run(outcomes).sale.total_issued,
        s.run(outcomes).sale == (SaleState {
            total_issued: s.run(outcomes).sale.total_issued,
            ..s.sale
        }),
    decreases outcomes.len(),
{
    if outcomes.len() > 0 {
        law_step_keeps_limit(s, outcomes[0]);
        law_call_keeps_limit(s.resume(outcomes[0]), outcomes.skip(1));
    }
}

/// Opening a call changes nothing on the sale, and the call it opens is
/// sound.
pub proof fn law_opening_changes_nothing(s: SaleState, request: Request)
    requires
        s.valid(),
    ensures
        s.open(request).valid(),
        s.open(request).sale == s,
{
}

/// Over any sequence of purchases, free mints, single mints and
/// withdrawals, each with any outcomes of its actions, the number of units
/// issued never exceeds the supply limit, and never falls.
pub proof fn law_issue_never_exceeds_limit(
    s: SaleState,
    calls: Seq<(Request, Seq<Result<(), HostError>>)>,
)
    requires
        s.valid(),
    ensures
        s.serve_all(calls).valid(),
        s.serve_all(calls).total_issued <= s.serve_all(calls).supply_limit,
        s.serve_all(calls).supply_limit == s.supply_limit,
        s.total_issued <= s.serve_all(calls).total_issued,
    decreases calls.len(),
{
    if calls.len() > 0 {
        law_opening_changes_nothing(s, calls[0].0);
        law_call_keeps_limit(s.open(calls[0].0), calls[0].1);
        law_issue_never_exceeds_limit(s.serve(calls[0].0, calls[0].1), calls.skip(1));
    }
}

/// A batch that the supply limit has room for attempts every one of its
/// units: the sale issues as many as the registry accepts, passes the others
/// over, and goes on to what follows the batch.
pub proof fn law_batch_issues_what_is_accepted(
    s: SaleState,
    to: Address,
    left: u128,
    pay_for: Option<u128>,
    outcomes: Seq<Result<(), HostError>>,
)
    requires
        s.total_issued + left <= s.supply_limit,
        outcomes.len() == left,
    ensures
        accepted(outcomes) <= left,
        s.batch(to, left, pay_for).run(outcomes) == s.issued(accepted(outcomes)).batch(
            to,
            0,
            pay_for,
        ),
    decreases left,
{
    if left == 0 {
        assert(s.issued(0) == s);
    } else {
        let rest = outcomes.skip(1);
        let next = if outcomes[0] is Ok {
            s.issued(1)
        } else {
            s
        };
        law_batch_issues_what_is_accepted(next, to, (left - 1) as u128, pay_for, rest);
        assert(next.issued(accepted(rest)) == s.issued(accepted(outcomes)));
    }
}

/// Reporting outcomes in two parts comes to the same as reporting them all
/// at once.
pub proof fn law_run_in_parts(
    s: SessionState,
    first: Seq<Result<(), HostError>>,
    second: Seq<Result<(), HostError>>,
)
    ensures
        s.run(first + second) == s.run(first).run(second),
    decreases first.len(),
{
    if first.len() == 0 {
        assert(first + second =~= second);
    } else {
        assert((first + second)[0] == first[0]);
        assert((first + second).skip(1) =~= first.skip(1) + second);
        law_run_in_parts(s.resume(first[0]), first.skip(1), second);
    }
}

/// Where every outcome is a success, as many are accepted as there are.
pub proof fn law_all_accepted(outcomes: Seq<Result<(), HostError>>)
    requires
        forall|i: int| 0 <= i < outcomes.len() ==> outcomes[i] is Ok,
    ensures
        accepted(outcomes) == outcomes.len(),
    decreases outcomes.len(),
{
    if outcomes.len() > 0 {
        law_all_accepted(outcomes.skip(1));
    }
}

/// A purchase that is let in, on a host that does all it is asked, issues
/// every unit, then sends the price to the withdraw wallet and the fee,
/// where one is owed, to the developer wallet, and ends well.
pub proof fn law_served_buy_issues_and_pays(
    s: SaleState,
    caller: Address,
    now: u64,
    value: u128,
    amount: u128,
    mints: Seq<Result<(), HostError>>,
)
    requires
        s.buy_rejection(now, value, amount) is None,
        s.total_issued + amount <= s.supply_limit,
        s.withdraw_wallet is Some,
        s.fee_share(amount) > 0 ==> s.dev_wallet is Some,
        mints.len() == amount,
        forall|i: int| 0 <= i < mints.len() ==> mints[i] is Ok,
    ensures
        ({
            let after = s.issued(amount as nat);
            let paying = s.buy(caller, now, value, amount).run(mints);
            let settling = paying.resume(Ok(()));
            &&& after.total_issued == s.total_issued + amount
            &&& paying.sale == after
            &&& paying.action() == Action::Transfer {
                to: s.withdraw_wallet->Some_0,
                value: s.price_share(amount),
            }
            &&& s.fee_share(amount) == 0 ==> settling == after.done(Ok(()))
            &&& s.fee_share(amount) > 0 ==> settling.action() == Action::Transfer {
                to: s.dev_wallet->Some_0,
                value: s.fee_share(amount),
            } && settling.resume(Ok(())) == after.done(Ok(()))
        }),
{
    law_all_accepted(mints);
    law_batch_issues_what_is_accepted(s, caller, amount, Some(amount), mints);
}

/// A free mint by the administrator that the supply limit has room for
/// issues as many units as the registry accepts, and ends well however many
/// those are.
pub proof fn law_served_reserve_issues_what_is_accepted(
    s: SaleState,
    caller: Address,
    amount: u128,
    mints: Seq<Result<(), HostError>>,
)
    requires
        caller == s.administrator,
        s.total_issued + amount <= s.supply_limit,
        mints.len() == amount,
    ensures
        accepted(mints) <= amount,
        s.reserve(caller, amount).run(mints) == s.issued(accepted(mints)).done(Ok(())),
        s.reserve(caller, amount).run(mints).sale.total_issued == s.total_issued + accepted(
            mints,
        ),
{
    law_batch_issues_what_is_accepted(s, caller, amount, None, mints);
}

/// Where the cost of the units can be represented, what a purchase sends
/// out is exactly that cost, and the payment covers it.
pub proof fn law_split_is_covered(s: SaleState, now: u64, value: u128, amount: u128)
    requires
        s.buy_rejection(now, value, amount) is None,
        amount * (s.mint_price + s.mint_fee) <= u128::MAX,
    ensures
        s.price_share(amount) == amount * s.mint_price,
        s.fee_share(amount) == amount * s.mint_fee,
        s.price_share(amount) + s.fee_share(amount) == s.total_price(amount),
        s.total_price(amount) <= value,
{
    assert(amount * (s.mint_price + s.mint_fee) == amount * s.mint_price + amount * s.mint_fee
        && amount * s.mint_price >= 0 && amount * s.mint_fee >= 0) by (nonlinear_arith);
}

/// A purchase that pays less than its units cost, where nothing else stands
/// against it, is turned down for insufficient payment and leaves the sale
/// as it was. The greatest amount there is pays for anything.
pub proof fn law_underpaid_buy_is_rejected(
    s: SaleState,
    caller: Address,
    now: u64,
    value: u128,
    amount: u128,
)
    requires
        value < amount * (s.mint_price + s.mint_fee),
        value < u128::MAX,
        now >= s.sale_time,
        capped(s.total_issued + amount) <= s.supply_limit,
        amount <= s.mint_per_tx,
    ensures
        s.buy(caller, now, value, amount) == s.done(Err(SaleError::InsufficientPayment)),
        s.buy(caller, now, value, amount).sale.total_issued == s.total_issued,
{
}

/// A purchase that pays less than its units cost never mints: it ends at
/// once with an error, whatever else holds of it, and leaves the sale as it
/// was.
pub proof fn law_underpaid_buy_mints_nothing(
    s: SaleState,
    caller: Address,
    now: u64,
    value: u128,
    amount: u128,
)
    requires
        value < amount * (s.mint_price + s.mint_fee),
        value < u128::MAX,
    ensures
        s.buy(caller, now, value, amount).stage is Done,
        s.buy(caller, now, value, amount).stage->Done_0 is Err,
        s.buy(caller, now, value, amount).sale == s,
{
}

/// A purchase before the sale time is turned down as too early, whatever
/// else holds of it, and leaves the sale as it was.
pub proof fn law_early_buy_is_rejected(
    s: SaleState,
    caller: Address,
    now: u64,
    value: u128,
    amount: u128,
)
    requires
        now < s.sale_time,
    ensures
        s.buy(caller, now, value, amount) == s.done(Err(SaleError::SaleNotStarted)),
{
}

/// The administrator's switch knows two positions only. Thrown on a sale
/// time other than zero it gives zero, thrown again the greatest time there
/// is: the sale time that stood at first does not come back. Thrown on zero
/// it gives the greatest time, then zero again.
pub proof fn law_toggle_pairs(s: SaleState)
    ensures
        s.sale_time != 0 ==> s.toggle().sale_time == 0 && s.toggle().toggle().sale_time
            == u64::MAX,
        s.sale_time == 0 ==> s.toggle().sale_time == u64::MAX && s.toggle().toggle().sale_time
            == 0,
        s.toggle().toggle().toggle() == s.toggle(),
{
}

/// A new supply limit is turned down as lying below the issue exactly when
/// the administrator asks for it and it is less than what was issued.
pub proof fn law_supply_limit_rejection(s: SaleState, caller: Address, n: u128)
    ensures
        s.supply_limit_change(caller, n) == Err::<(), SaleError>(SaleError::SupplyBelowIssued) <==> (
        caller == s.administrator && n < s.total_issued),
        s.supply_limit_change(caller, n) is Ok <==> (caller == s.administrator && n
            >= s.total_issued),
{
}

} // verus!
