use vstd::prelude::*;
use crate::address::Address;
use crate::error::ErrorCode;

verus! {

/// What the checks read of an account handed to an instruction.
#[derive(Debug, Clone, Copy)]
pub struct AccountSnapshot {
    pub key: Address,
    pub owner: Address,
    pub lamports: u64,
    pub data_len: usize,
}

/// Why an account cannot be provisioned, if it cannot: its data must be empty, and it
/// must still belong to the system program.
pub open spec fn fresh_error(acc: AccountSnapshot, system_program: Address) -> Option<ErrorCode> {
    if acc.data_len != 0 {
        Some(ErrorCode::AlreadyInUse)
    } else if acc.owner@ != system_program@ {
        Some(ErrorCode::InvalidAccountOwner)
    } else {
        None
    }
}

/// Checks that `acc` is unallocated: empty data, owned by the system program.
pub fn check_unallocated(acc: &AccountSnapshot, system_program: &Address) -> (r: Result<
    (),
    ErrorCode,
>)
    ensures
        r is Ok <==> fresh_error(*acc, *system_program) is None,
        r matches Err(e) ==> fresh_error(*acc, *system_program) == Some(e),
{
    if acc.data_len != 0 {
        Err(ErrorCode::AlreadyInUse)
    } else if !acc.owner.same_as(system_program) {
        Err(ErrorCode::InvalidAccountOwner)
    } else {
        Ok(())
    }
}

/// Checks that `acc` was created under the ledger program that the instruction expects.
pub fn check_owned_by(acc: &AccountSnapshot, program: &Address) -> (r: Result<(), ErrorCode>)
    ensures
        r is Ok <==> acc.owner@ == program@,
        r matches Err(e) ==> e == ErrorCode::InvalidAccountOwner,
{
    if acc.owner.same_as(program) {
        Ok(())
    } else {
        Err(ErrorCode::InvalidAccountOwner)
    }
}

} // verus!
