use vstd::prelude::*;

pub mod config;
pub mod numeral;
pub mod querier;
pub mod stargate;
pub mod ownership;

verus! {

/// The error returned by every mutating entry point whose caller is not the
/// current owner.
#[derive(Clone, Copy, Debug, PartialEq, Eq, Structural)]
pub struct Unauthorized;

/// Authority guard: a mutating call is allowed exactly when the caller is the
/// current owner.
pub fn check_authority(caller: &String, current_owner: &String) -> (r: Result<(), Unauthorized>)
    ensures
        r is Ok <==> caller@ == current_owner@,
{
    if caller.eq(current_owner) {
        Ok(())
    } else {
        Err(Unauthorized)
    }
}

} // verus!
