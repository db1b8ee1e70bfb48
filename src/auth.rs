use vstd::prelude::*;

use crate::notifier::{same_text, text};

verus! {

/// Authenticates the owner of a telegram handle. Telegram accounts carry no verifiable
/// token yet, so every claim is accepted.
pub fn authenticate_telegram_user() -> (r: Result<(), &'static str>)
    ensures
        r is Ok,
{
    Ok(())
}

/// Whether the verifier's answer proves ownership of the claimed address: it must have
/// accepted the token and named exactly that address.
pub open spec fn proves_ownership(claimed: Option<Seq<char>>, verified: Option<Seq<char>>) -> bool {
    verified is Some && verified == claimed
}

pub fn owns_address(claimed: &Option<String>, verified: &Option<String>) -> (r: bool)
    ensures
        r == proves_ownership(text(*claimed), text(*verified)),
{
    verified.is_some() && same_text(claimed, verified)
}

} // verus!
