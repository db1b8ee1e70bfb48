use vstd::prelude::*;

use crate::errors::Error;
use crate::notifier::text;
use crate::store::{found_view, StoreError};
use crate::user::{User, UserModel};

verus! {

/// What a workflow asks its caller to do next.
#[derive(Debug)]
pub enum Action {
    /// Ask the email verifier whose address `token` proves ownership of.
    VerifyEmail(String),
    /// Look the user up by id.
    LookupId(u32),
    /// Look up the user holding this email.
    LookupEmail(String),
    /// Look up the user holding this telegram handle.
    LookupHandle(String),
    /// Insert this user as a new row.
    Insert(User),
    /// Overwrite the row of this user's id with this user.
    Replace(User),
    /// Answer the request; the workflow is over.
    Reply(Result<u32, Error>),
}

pub enum ActionModel {
    VerifyEmail(Seq<char>),
    LookupId(u32),
    LookupEmail(Seq<char>),
    LookupHandle(Seq<char>),
    Insert(UserModel),
    Replace(UserModel),
    Reply(Result<u32, Error>),
}

impl View for Action {
    type V = ActionModel;

    open spec fn view(&self) -> ActionModel {
        match self {
            Action::VerifyEmail(t) => ActionModel::VerifyEmail(t@),
            Action::LookupId(id) => ActionModel::LookupId(*id),
            Action::LookupEmail(e) => ActionModel::LookupEmail(e@),
            Action::LookupHandle(h) => ActionModel::LookupHandle(h@),
            Action::Insert(u) => ActionModel::Insert(u@),
            Action::Replace(u) => ActionModel::Replace(u@),
            Action::Reply(r) => ActionModel::Reply(*r),
        }
    }
}

/// The outcome of an action, handed back to the workflow.
#[derive(Debug)]
pub enum Event {
    /// The address the email verifier found the token to prove, or `None` if it refused it.
    Verified(Option<String>),
    /// The user a lookup found.
    Found(Result<Option<User>, StoreError>),
    /// The outcome of an insert or a replace.
    Written(Result<(), StoreError>),
}

pub enum EventModel {
    Verified(Option<Seq<char>>),
    Found(Result<Option<UserModel>, StoreError>),
    Written(Result<(), StoreError>),
}

impl View for Event {
    type V = EventModel;

    open spec fn view(&self) -> EventModel {
        match self {
            Event::Verified(v) => EventModel::Verified(text(*v)),
            Event::Found(r) => EventModel::Found(found_view(*r)),
            Event::Written(r) => EventModel::Written(*r),
        }
    }
}

/// The error a failed write is answered with: a violated constraint of the store is the
/// same conflict that the lookups look for.
pub open spec fn write_error(e: StoreError) -> Error {
    match e {
        StoreError::DuplicateId => Error::UserExists,
        StoreError::DuplicateChannel => Error::NotifierNotUnique,
        StoreError::CorruptRow | StoreError::Failure => Error::DbError,
    }
}

pub fn map_write_error(e: StoreError) -> (r: Error)
    ensures
        r == write_error(e),
{
    match e {
        StoreError::DuplicateId => Error::UserExists,
        StoreError::DuplicateChannel => Error::NotifierNotUnique,
        StoreError::CorruptRow | StoreError::Failure => Error::DbError,
    }
}

} // verus!
