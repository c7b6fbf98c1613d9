//! The single-owner check of `cw_ownable`.
use vstd::prelude::*;

verus! {

/// Why an owner check fails.
#[derive(Debug)]
pub enum OwnershipError {
    /// The contract has no owner (it was renounced).
    NoOwner,
    /// The caller is not the owner.
    NotOwner,
}

/// The outcome of checking `sender` against the recorded owner.
pub open spec fn owner_check(owner: Option<Seq<char>>, sender: Seq<char>) -> Result<(), OwnershipError> {
    match owner {
        None => Err(OwnershipError::NoOwner),
        Some(o) => if o == sender {
            Ok(())
        } else {
            Err(OwnershipError::NotOwner)
        },
    }
}

/// `cw_ownable::assert_owner` on the recorded owner: refuses when there is no
/// owner or when `sender` is not the owner.
pub fn assert_owner(owner: &Option<String>, sender: &String) -> (res: Result<(), OwnershipError>)
    ensures
        res == owner_check(owner.deep_view(), sender@),
{
    match owner {
        None => Err(OwnershipError::NoOwner),
        Some(o) => {
            if *o == *sender {
                Ok(())
            } else {
                Err(OwnershipError::NotOwner)
            }
        },
    }
}

/// A change of ownership that the owner asks for.
#[derive(Debug)]
pub enum OwnershipAction {
    /// Propose a new owner, optionally until a block height or time.
    TransferOwnership { new_owner: String, expiry: Option<OwnershipExpiry> },
    /// The pending owner accepts.
    AcceptOwnership,
    /// The owner gives up ownership.
    RenounceOwnership,
}

/// When a proposed transfer expires.
#[derive(Debug)]
pub enum OwnershipExpiry {
    AtHeight(u64),
    AtTime(u64),
    Never,
}

} // verus!
