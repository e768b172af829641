// Creation of token mints and token accounts that carry extensions, and the collection
// of withheld transfer fees. Each instruction is planned here as a sequence of calls
// into the storage service and the ledger program; extensions are always written
// before the base state that fixes the account's layout.
use vstd::prelude::*;

pub mod address;
pub mod associated;
pub mod authority;
pub mod call;
pub mod encode;
pub mod error;
pub mod fee;
pub mod group;
pub mod guarded;
pub mod instructions;
pub mod layout;
pub mod metadata;
pub mod provision;
pub mod steps;
pub mod withheld;

verus! {

} // verus!
