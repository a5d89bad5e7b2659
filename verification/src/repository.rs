//! What the core asks of storage, as far as it decides anything: which
//! identifier a client is looked up by, and when a registration counts as
//! made.

use vstd::prelude::*;

use crate::client::ClientId;

verus! {

/// Why storage did not do what it was asked.
#[derive(Debug, Clone, Copy, PartialEq, Eq, Structural)]
pub enum RepositoryError {
    /// No client has the API key under which a user was to be registered.
    UserNotCreated,
}

impl RepositoryError {
    pub open spec fn spec_message(&self) -> Seq<char> {
        "User was not created"@
    }

    pub fn message(&self) -> (r: &'static str)
        ensures
            r@ == self.spec_message(),
    {
        "User was not created"
    }
}

/// The identifier under which the client of a given name is stored.
pub fn find_by_name(name: &str) -> (r: ClientId)
    ensures
        r@ == ClientId::of_name(name@),
{
    ClientId::from(name)
}

/// Whether a registration was made, given how many rows the insertion
/// wrote: it was not where it wrote none.
pub fn register_user(rows_affected: u64) -> (r: Result<(), RepositoryError>)
    ensures
        r is Ok <==> rows_affected > 0,
        r matches Err(e) ==> e == RepositoryError::UserNotCreated,
{
    if rows_affected == 0 {
        Err(RepositoryError::UserNotCreated)
    } else {
        Ok(())
    }
}

} // verus!
