use vstd::prelude::*;

use crate::notifier::{
    channel_of_tag, clone_text, email_tag, notifier_from, tag_of, telegram_tag, text, Channel, Notifier,
};
use crate::user::{User, UserModel};

verus! {

/// Extended result code of SQLite for a violated `PRIMARY KEY` constraint.
pub const SQLITE_CONSTRAINT_PRIMARYKEY: i32 = 1555;

/// Extended result code of SQLite for a violated `UNIQUE` constraint.
pub const SQLITE_CONSTRAINT_UNIQUE: i32 = 2067;

/// Why an operation on the user store failed.
#[derive(Clone, Copy, Debug, PartialEq, Eq, Structural)]
pub enum StoreError {
    /// The store refused a row whose id is taken.
    DuplicateId,
    /// The store refused a row whose email or telegram handle is taken.
    DuplicateChannel,
    /// A stored row holds a notifier that cannot be decoded.
    CorruptRow,
    /// Any other failure of the store.
    Failure,
}

impl StoreError {
    /// Classifies a failure by SQLite's extended result code.
    pub fn from_code(extended_code: i32) -> (r: StoreError)
        ensures
            r == (if extended_code == SQLITE_CONSTRAINT_PRIMARYKEY {
                StoreError::DuplicateId
            } else if extended_code == SQLITE_CONSTRAINT_UNIQUE {
                StoreError::DuplicateChannel
            } else {
                StoreError::Failure
            }),
    {
        if extended_code == SQLITE_CONSTRAINT_PRIMARYKEY {
            StoreError::DuplicateId
        } else if extended_code == SQLITE_CONSTRAINT_UNIQUE {
            StoreError::DuplicateChannel
        } else {
            StoreError::Failure
        }
    }
}

/// One row of the `users` table, column by column.
#[derive(Debug)]
pub struct UserRow {
    pub id: u32,
    pub email: Option<String>,
    pub tg_handle: Option<String>,
    /// `None` stands for `NULL`.
    pub notifier: Option<String>,
}

pub struct RowModel {
    pub id: u32,
    pub email: Option<Seq<char>>,
    pub tg_handle: Option<Seq<char>>,
    pub notifier: Option<Seq<char>>,
}

impl View for UserRow {
    type V = RowModel;

    open spec fn view(&self) -> RowModel {
        RowModel {
            id: self.id,
            email: text(self.email),
            tg_handle: text(self.tg_handle),
            notifier: text(self.notifier),
        }
    }
}

/// The row that stores `u`.
pub open spec fn encode(u: UserModel) -> RowModel {
    RowModel {
        id: u.id,
        email: u.email,
        tg_handle: u.tg_handle,
        notifier: tag_of(u.notifier.channel()),
    }
}

/// The user that a row stores: the notifier tag is read first, then the matching
/// address column. `None` when the tag is unknown or the address column is `NULL`.
pub open spec fn decode(r: RowModel) -> Option<UserModel> {
    match channel_of_tag(r.notifier) {
        None => None,
        Some(c) => match notifier_from(c, r.email, r.tg_handle) {
            None => None,
            Some(n) => Some(UserModel { id: r.id, email: r.email, tg_handle: r.tg_handle, notifier: n }),
        },
    }
}

/// Result of a single-row lookup over the rows that matched: the first row decides,
/// and a row that does not decode is a failure.
pub open spec fn first_decoded(rows: Seq<RowModel>) -> Result<Option<UserModel>, StoreError> {
    if rows.len() == 0 {
        Ok(None)
    } else {
        match decode(rows[0]) {
            Some(u) => Ok(Some(u)),
            None => Err(StoreError::CorruptRow),
        }
    }
}

/// The users of a scan: rows that do not decode are left out, the others keep their order.
pub open spec fn decoded_rows(rows: Seq<RowModel>) -> Seq<UserModel>
    decreases rows.len(),
{
    if rows.len() == 0 {
        Seq::empty()
    } else {
        let prev = decoded_rows(rows.drop_last());
        match decode(rows.last()) {
            Some(u) => prev.push(u),
            None => prev,
        }
    }
}

pub open spec fn rows_view(rows: Seq<UserRow>) -> Seq<RowModel> {
    rows.map_values(|r: UserRow| r@)
}

pub open spec fn users_view(users: Seq<User>) -> Seq<UserModel> {
    users.map_values(|u: User| u@)
}

/// The view of a lookup's result.
pub open spec fn found_view(r: Result<Option<User>, StoreError>) -> Result<
    Option<UserModel>,
    StoreError,
> {
    match r {
        Ok(Some(u)) => Ok(Some(u@)),
        Ok(None) => Ok(None),
        Err(e) => Err(e),
    }
}

/// Storing a well-formed user and decoding its row gives the user back.
pub proof fn lemma_row_round_trip(u: UserModel)
    requires
        u.wf(),
    ensures
        decode(encode(u)) == Some(u),
        first_decoded(seq![encode(u)]) == Ok::<Option<UserModel>, StoreError>(Some(u)),
{
    assert(email_tag() != telegram_tag());
}

/// A row that decodes holds a well-formed user, and it is the row that stores that user.
pub proof fn lemma_decoded_row_is_stored_form(r: RowModel)
    requires
        decode(r) is Some,
    ensures
        decode(r)->0.wf(),
        encode(decode(r)->0) == r,
{
    assert(email_tag() != telegram_tag());
}

impl User {
    /// The row that stores this user.
    pub fn to_row(&self) -> (r: UserRow)
        ensures
            r@ == encode(self@),
    {
        UserRow {
            id: self.id,
            email: clone_text(&self.email),
            tg_handle: clone_text(&self.tg_handle),
            notifier: User::notifier_to_text(&self.notifier),
        }
    }

    /// Reads a user back from its row; a corrupt notifier column is an error.
    pub fn from_row(row: &UserRow) -> (r: Result<User, StoreError>)
        ensures
            match decode(row@) {
                Some(u) => r matches Ok(x) && x@ == u,
                None => r == Err::<User, StoreError>(StoreError::CorruptRow),
            },
    {
        let channel = match Channel::from_tag(&row.notifier) {
            Some(c) => c,
            None => return Err(StoreError::CorruptRow),
        };
        match Notifier::from_parts(channel, &row.email, &row.tg_handle) {
            Some(notifier) => Ok(
                User {
                    id: row.id,
                    email: clone_text(&row.email),
                    tg_handle: clone_text(&row.tg_handle),
                    notifier,
                },
            ),
            None => Err(StoreError::CorruptRow),
        }
    }

    /// The user found by a single-row lookup, from the rows that matched it.
    pub fn first_of_rows(rows: &Vec<UserRow>) -> (r: Result<Option<User>, StoreError>)
        ensures
            found_view(r) == first_decoded(rows_view(rows@)),
    {
        if rows.len() == 0 {
            Ok(None)
        } else {
            match User::from_row(&rows[0]) {
                Ok(u) => Ok(Some(u)),
                Err(e) => Err(e),
            }
        }
    }

    /// All users of a scan; rows that do not decode are dropped.
    pub fn decode_all(rows: &Vec<UserRow>) -> (r: Vec<User>)
        ensures
            users_view(r@) == decoded_rows(rows_view(rows@)),
    {
        let mut out: Vec<User> = Vec::new();
        let mut i: usize = 0;
        while i < rows.len()
            invariant
                i <= rows.len(),
                users_view(out@) == decoded_rows(rows_view(rows@).subrange(0, i as int)),
            decreases rows.len() - i,
        {
            let ghost before = out@;
            proof {
                assert(rows_view(rows@).subrange(0, i + 1).drop_last() =~= rows_view(
                    rows@,
                ).subrange(0, i as int));
            }
            match User::from_row(&rows[i]) {
                Ok(u) => {
                    out.push(u);
                    proof {
                        assert(users_view(out@) =~= users_view(before).push(out@.last()@));
                    }
                },
                Err(_) => {},
            }
            i = i + 1;
        }
        proof {
            assert(rows_view(rows@).subrange(0, rows@.len() as int) =~= rows_view(rows@));
        }
        out
    }
}

} // verus!
