//! Why a call on the sale was turned down.

use vstd::prelude::*;

verus! {

/// The wallet a payment was meant for.
#[derive(Clone, Copy, Debug, PartialEq, Eq, Structural)]
pub enum TransferTarget {
    /// The wallet that receives the price.
    Withdraw,
    /// The wallet that receives the fee.
    Dev,
}

/// The host's own account of an action that it could not perform.
#[derive(Debug, PartialEq, Eq)]
pub struct HostError {
    pub reason: String,
}

/// Every way in which a call on the sale can be rejected.
#[derive(Debug, PartialEq, Eq)]
pub enum SaleError {
    /// The caller is not the administrator.
    Unauthorized,
    /// The current time precedes the sale time.
    SaleNotStarted,
    /// The units asked for would take the issue past the supply limit.
    SupplyLimitReached,
    /// More units were asked for than one purchase may mint.
    PerTxLimitExceeded,
    /// The new supply limit lies below what was already issued.
    SupplyBelowIssued,
    /// Less was paid than the units cost.
    InsufficientPayment,
    /// No wallet is set to receive the price.
    WithdrawWalletUnset,
    /// A fee is owed and no wallet is set to receive it.
    DevWalletUnset,
    /// The host could not move the payment to the named wallet.
    TransferFailed(TransferTarget),
    /// There is no balance to withdraw.
    NoFunds,
    /// The host could not move the balance to the administrator.
    WithdrawalFailed,
    /// The token registry turned a mint down; the host's account of it is
    /// handed on as it came.
    Registry(HostError),
}

impl Clone for HostError {
    /// An equal copy.
    fn clone(&self) -> (r: HostError)
        ensures
            r == *self,
    {
        HostError { reason: self.reason.clone() }
    }
}

impl Clone for SaleError {
    /// An equal copy.
    fn clone(&self) -> (r: SaleError)
        ensures
            r == *self,
    {
        match self {
            SaleError::Unauthorized => SaleError::Unauthorized,
            SaleError::SaleNotStarted => SaleError::SaleNotStarted,
            SaleError::SupplyLimitReached => SaleError::SupplyLimitReached,
            SaleError::PerTxLimitExceeded => SaleError::PerTxLimitExceeded,
            SaleError::SupplyBelowIssued => SaleError::SupplyBelowIssued,
            SaleError::InsufficientPayment => SaleError::InsufficientPayment,
            SaleError::WithdrawWalletUnset => SaleError::WithdrawWalletUnset,
            SaleError::DevWalletUnset => SaleError::DevWalletUnset,
            SaleError::TransferFailed(target) => SaleError::TransferFailed(*target),
            SaleError::NoFunds => SaleError::NoFunds,
            SaleError::WithdrawalFailed => SaleError::WithdrawalFailed,
            SaleError::Registry(e) => SaleError::Registry(e.clone()),
        }
    }
}

} // verus!
