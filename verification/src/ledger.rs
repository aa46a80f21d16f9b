use crate::errors::ErrorCode;
use crate::state::LedgerAccount;
use vstd::prelude::*;

verus! {

/// The ledger accessor's balance-transfer primitive, modeled on plain
/// values: debit `amount` from `from` and credit it to `to`, all or
/// nothing. It fails with `InsufficientFunds` when the source balance is
/// below `amount`, and with `AmountOverflow` when the credit would
/// overflow the destination balance; on failure neither account changes.
pub fn transfer_lamports(from: &mut LedgerAccount, to: &mut LedgerAccount, amount: u64) -> (r:
    Result<(), ErrorCode>)
    ensures
        r is Ok <==> old(from).lamports >= amount && old(to).lamports + amount <= u64::MAX,
        old(from).lamports < amount ==> r == Err::<(), ErrorCode>(ErrorCode::InsufficientFunds),
        old(from).lamports >= amount && old(to).lamports + amount > u64::MAX ==> r == Err::<
            (),
            ErrorCode,
        >(ErrorCode::AmountOverflow),
        r is Ok ==> *final(from) == (LedgerAccount {
            lamports: (old(from).lamports - amount) as u64,
            ..*old(from)
        }) && *final(to) == (LedgerAccount {
            lamports: (old(to).lamports + amount) as u64,
            ..*old(to)
        }),
        r is Err ==> *final(from) == *old(from) && *final(to) == *old(to),
        final(from).lamports + final(to).lamports == old(from).lamports + old(to).lamports,
{
    if from.lamports < amount {
        return Err(ErrorCode::InsufficientFunds);
    }
    if amount > u64::MAX - to.lamports {
        return Err(ErrorCode::AmountOverflow);
    }
    from.lamports = from.lamports - amount;
    to.lamports = to.lamports + amount;
    Ok(())
}

} // verus!
