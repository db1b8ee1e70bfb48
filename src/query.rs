use vstd::prelude::*;

use crate::errors::Error;
use crate::store::{found_view, StoreError};
use crate::user::{User, UserModel};

verus! {

/// The answer to a query by id, from what the lookup found.
pub open spec fn query_answer(found: Result<Option<UserModel>, StoreError>) -> Result<
    UserModel,
    Error,
> {
    match found {
        Err(_) => Err(Error::DbError),
        Ok(None) => Err(Error::UserNotFound),
        Ok(Some(u)) => Ok(u),
    }
}

/// Answers a query by id: the user found, `UserNotFound` when there is none, and `DbError`
/// when the lookup failed.
pub fn found_user(found: Result<Option<User>, StoreError>) -> (r: Result<User, Error>)
    ensures
        match query_answer(found_view(found)) {
            Ok(u) => r matches Ok(x) && x@ == u,
            Err(e) => r matches Err(x) && x == e,
        },
{
    match found {
        Err(_) => Err(Error::DbError),
        Ok(None) => Err(Error::UserNotFound),
        Ok(Some(u)) => Ok(u),
    }
}

} // verus!
