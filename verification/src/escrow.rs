//! Escrow transfer-protocol arithmetic: the predicted balances and the
//! post-transfer verification every value-moving operation performs. The
//! transfer itself is the boundary's atomic primitive; the core computes
//! what it must do to the escrow balance and checks what it did.

use vstd::prelude::*;

use crate::errors::WagerError;

verus! {

/// The escrow balance a deposit must produce, with overflow-checked
/// addition.
pub fn expected_balance_after_deposit(balance: u64, amount: u64) -> (r: Result<u64, WagerError>)
    ensures
        match r {
            Ok(v) => v == balance + amount,
            Err(e) => {
                &&& e == WagerError::ArithmeticError
                &&& balance + amount > u64::MAX
            },
        },
{
    match balance.checked_add(amount) {
        Some(v) => Ok(v),
        None => Err(WagerError::ArithmeticError),
    }
}

/// The escrow balance a withdrawal must produce; fails on insolvency before
/// any transfer is attempted.
pub fn expected_balance_after_withdrawal(balance: u64, amount: u64) -> (r: Result<u64, WagerError>)
    ensures
        match r {
            Ok(v) => {
                &&& amount <= balance
                &&& v == balance - amount
            },
            Err(e) => {
                &&& e == WagerError::InsufficientVaultBalance
                &&& amount > balance
            },
        },
{
    if amount > balance {
        return Err(WagerError::InsufficientVaultBalance);
    }
    Ok(balance - amount)
}

/// Compares the re-read escrow balance against the predicted one; a
/// mismatch is a fatal integrity fault, never silently accepted.
pub fn verify_post_transfer_balance(expected: u64, observed: u64) -> (r: Result<(), WagerError>)
    ensures
        match r {
            Ok(()) => observed == expected,
            Err(e) => {
                &&& e == WagerError::TransferVerificationFailed
                &&& observed != expected
            },
        },
{
    if observed == expected {
        Ok(())
    } else {
        Err(WagerError::TransferVerificationFailed)
    }
}

} // verus!
