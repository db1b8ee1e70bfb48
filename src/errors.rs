use vstd::prelude::*;

verus! {

pub const STATUS_BAD_REQUEST: u16 = 400;

pub const STATUS_NOT_FOUND: u16 = 404;

pub const STATUS_CONFLICT: u16 = 409;

pub const STATUS_INTERNAL_SERVER_ERROR: u16 = 500;

/// Standardized errors that the API might return.
#[derive(Clone, Copy, Debug, PartialEq, Eq, Structural)]
pub enum Error {
    /// Failed to get the db connection.
    DbConnectionFailed,
    /// The configured notifier cannot be empty.
    NotifierEmpty,
    /// Attempted accessing the db but failed.
    DbError,
    /// User with the same id exists.
    UserExists,
    /// The notifier is already in use by some other user.
    NotifierNotUnique,
    /// The user doesn't exist.
    UserNotFound,
    /// Failed to serialize some data.
    FailedToSerialize,
    /// The auth data is not provided by the user.
    AuthDataEmpty,
    /// The authentication data does not verify the user as the person they claim to be.
    BadAuthData,
}

/// The endpoints whose errors are reported.
#[derive(Clone, Copy, Debug, PartialEq, Eq, Structural)]
pub enum Route {
    Query,
    Register,
    Update,
}

/// The name under which an error is reported to callers.
pub open spec fn error_name(e: Error) -> Seq<char> {
    match e {
        Error::DbConnectionFailed => "DbConnectionFailed"@,
        Error::NotifierEmpty => "NotifierEmpty"@,
        Error::DbError => "DbError"@,
        Error::UserExists => "UserExists"@,
        Error::NotifierNotUnique => "NotifierNotUnique"@,
        Error::UserNotFound => "UserNotFound"@,
        Error::FailedToSerialize => "FailedToSerialize"@,
        Error::AuthDataEmpty => "AuthDataEmpty"@,
        Error::BadAuthData => "BadAuthData"@,
    }
}

/// The error reported under `name`, if any.
pub open spec fn error_named(name: Seq<char>) -> Option<Error> {
    if name == "DbConnectionFailed"@ {
        Some(Error::DbConnectionFailed)
    } else if name == "NotifierEmpty"@ {
        Some(Error::NotifierEmpty)
    } else if name == "DbError"@ {
        Some(Error::DbError)
    } else if name == "UserExists"@ {
        Some(Error::UserExists)
    } else if name == "NotifierNotUnique"@ {
        Some(Error::NotifierNotUnique)
    } else if name == "UserNotFound"@ {
        Some(Error::UserNotFound)
    } else if name == "FailedToSerialize"@ {
        Some(Error::FailedToSerialize)
    } else if name == "AuthDataEmpty"@ {
        Some(Error::AuthDataEmpty)
    } else if name == "BadAuthData"@ {
        Some(Error::BadAuthData)
    } else {
        None
    }
}

/// The HTTP status with which `e` is answered on `route`.
pub open spec fn status_of(e: Error, route: Route) -> u16 {
    match e {
        Error::NotifierEmpty | Error::AuthDataEmpty | Error::BadAuthData => STATUS_BAD_REQUEST,
        Error::UserExists | Error::NotifierNotUnique => STATUS_CONFLICT,
        Error::UserNotFound => if route == Route::Update {
            STATUS_NOT_FOUND
        } else {
            STATUS_BAD_REQUEST
        },
        Error::DbConnectionFailed | Error::DbError | Error::FailedToSerialize =>
            STATUS_INTERNAL_SERVER_ERROR,
    }
}

fn text_of(s: &str) -> (r: String)
    ensures
        r@ == s@,
{
    String::from_str(s)
}

impl Error {
    /// The name under which this error is reported.
    pub fn name(&self) -> (r: String)
        ensures
            r@ == error_name(*self),
    {
        match self {
            Error::DbConnectionFailed => text_of("DbConnectionFailed"),
            Error::NotifierEmpty => text_of("NotifierEmpty"),
            Error::DbError => text_of("DbError"),
            Error::UserExists => text_of("UserExists"),
            Error::NotifierNotUnique => text_of("NotifierNotUnique"),
            Error::UserNotFound => text_of("UserNotFound"),
            Error::FailedToSerialize => text_of("FailedToSerialize"),
            Error::AuthDataEmpty => text_of("AuthDataEmpty"),
            Error::BadAuthData => text_of("BadAuthData"),
        }
    }

    /// Reads an error back from its name.
    pub fn from_name(name: &str) -> (r: Option<Error>)
        ensures
            r == error_named(name@),
    {
        let s = text_of(name);
        if s == text_of("DbConnectionFailed") {
            Some(Error::DbConnectionFailed)
        } else if s == text_of("NotifierEmpty") {
            Some(Error::NotifierEmpty)
        } else if s == text_of("DbError") {
            Some(Error::DbError)
        } else if s == text_of("UserExists") {
            Some(Error::UserExists)
        } else if s == text_of("NotifierNotUnique") {
            Some(Error::NotifierNotUnique)
        } else if s == text_of("UserNotFound") {
            Some(Error::UserNotFound)
        } else if s == text_of("FailedToSerialize") {
            Some(Error::FailedToSerialize)
        } else if s == text_of("AuthDataEmpty") {
            Some(Error::AuthDataEmpty)
        } else if s == text_of("BadAuthData") {
            Some(Error::BadAuthData)
        } else {
            None
        }
    }

    /// The HTTP status with which this error is answered on `route`.
    pub fn status(&self, route: Route) -> (r: u16)
        ensures
            r == status_of(*self, route),
    {
        match self {
            Error::NotifierEmpty | Error::AuthDataEmpty | Error::BadAuthData => STATUS_BAD_REQUEST,
            Error::UserExists | Error::NotifierNotUnique => STATUS_CONFLICT,
            Error::UserNotFound => match route {
                Route::Update => STATUS_NOT_FOUND,
                _ => STATUS_BAD_REQUEST,
            },
            Error::DbConnectionFailed | Error::DbError | Error::FailedToSerialize =>
                STATUS_INTERNAL_SERVER_ERROR,
        }
    }
}

/// Reading an error back from its name gives the error itself.
pub proof fn lemma_error_name_round_trip(e: Error)
    ensures
        error_named(error_name(e)) == Some(e),
{
    reveal_strlit("DbConnectionFailed");
    reveal_strlit("NotifierEmpty");
    reveal_strlit("DbError");
    reveal_strlit("UserExists");
    reveal_strlit("NotifierNotUnique");
    reveal_strlit("UserNotFound");
    reveal_strlit("FailedToSerialize");
    reveal_strlit("AuthDataEmpty");
    reveal_strlit("BadAuthData");
    assert("DbConnectionFailed"@.len() == 18);
    assert("NotifierEmpty"@.len() == 13);
    assert("DbError"@.len() == 7);
    assert("UserExists"@.len() == 10);
    assert("NotifierNotUnique"@.len() == 17);
    assert("UserNotFound"@.len() == 12);
    assert("FailedToSerialize"@.len() == 17);
    assert("AuthDataEmpty"@.len() == 13);
    assert("BadAuthData"@.len() == 11);
    assert("NotifierEmpty"@[0] != "AuthDataEmpty"@[0]);
    assert("NotifierNotUnique"@[0] != "FailedToSerialize"@[0]);
}

/// The body of an error answer.
#[derive(Debug)]
pub struct ErrorResponse {
    pub message: String,
}

impl ErrorResponse {
    pub fn from_message(message: &str) -> (r: ErrorResponse)
        ensures
            r.message@ == message@,
    {
        ErrorResponse { message: text_of(message) }
    }
}

impl PartialEq for ErrorResponse {
    fn eq(&self, o: &ErrorResponse) -> (r: bool) {
        self.message == o.message
    }
}

impl vstd::std_specs::cmp::PartialEqSpecImpl for ErrorResponse {
    open spec fn obeys_eq_spec() -> bool {
        true
    }

    open spec fn eq_spec(&self, o: &ErrorResponse) -> bool {
        self.message@ == o.message@
    }
}

/// An error answer: the status and a body that names the error.
pub fn custom_error(status: u16, error: Error) -> (r: (u16, ErrorResponse))
    ensures
        r.0 == status,
        r.1.message@ == error_name(error),
{
    (status, ErrorResponse { message: error.name() })
}

} // verus!
