use vstd::prelude::*;

use crate::errors::Error;
use crate::notifier::{clone_text, notifier_from, text, Channel, Notifier, NotifierModel};
use crate::user::{User, UserModel};

verus! {

/// Whether an optional field was supplied with some content; an empty string counts as absent.
pub open spec fn present(o: Option<Seq<char>>) -> bool {
    o matches Some(s) && s.len() > 0
}

pub fn is_present(o: &Option<String>) -> (r: bool)
    ensures
        r == present(text(*o)),
{
    match o {
        Some(s) => !s.as_str().is_empty(),
        None => false,
    }
}

/// The address a payload gives for `channel`.
pub open spec fn address_for(
    channel: Channel,
    email: Option<Seq<char>>,
    tg_handle: Option<Seq<char>>,
) -> Option<Seq<char>> {
    match channel {
        Channel::Null => None,
        Channel::Email => email,
        Channel::Telegram => tg_handle,
    }
}

/// Proof of ownership of the channels, one optional token per channel.
#[derive(Debug)]
pub struct AuthData {
    pub email_token: Option<String>,
    pub tg_token: Option<String>,
}

/// What a user submits to register.
#[derive(Debug)]
pub struct RegistrationData {
    pub id: u32,
    /// Defines how the user wants to receive their notifications.
    pub notifier: Channel,
    pub email: Option<String>,
    pub tg_handle: Option<String>,
    pub auth_data: AuthData,
}

pub struct RegistrationModel {
    pub id: u32,
    pub notifier: Channel,
    pub email: Option<Seq<char>>,
    pub tg_handle: Option<Seq<char>>,
    pub email_token: Option<Seq<char>>,
    pub tg_token: Option<Seq<char>>,
}

impl View for RegistrationData {
    type V = RegistrationModel;

    open spec fn view(&self) -> RegistrationModel {
        RegistrationModel {
            id: self.id,
            notifier: self.notifier,
            email: text(self.email),
            tg_handle: text(self.tg_handle),
            email_token: text(self.auth_data.email_token),
            tg_token: text(self.auth_data.tg_token),
        }
    }
}

impl RegistrationModel {
    /// The token that proves ownership of `channel`.
    pub open spec fn token(self, channel: Channel) -> Option<Seq<char>> {
        match channel {
            Channel::Null => None,
            Channel::Email => self.email_token,
            Channel::Telegram => self.tg_token,
        }
    }

    /// The local checks of a registration, first failure wins: the declared channel needs
    /// an address, then a token.
    pub open spec fn validation(self) -> Result<(), Error> {
        if self.notifier != Channel::Null && !present(
            address_for(self.notifier, self.email, self.tg_handle),
        ) {
            Err(Error::NotifierEmpty)
        } else if self.notifier != Channel::Null && !present(self.token(self.notifier)) {
            Err(Error::AuthDataEmpty)
        } else {
            Ok(())
        }
    }

    /// The user a registration creates.
    pub open spec fn user(self) -> UserModel {
        UserModel {
            id: self.id,
            email: self.email,
            tg_handle: self.tg_handle,
            notifier: match notifier_from(self.notifier, self.email, self.tg_handle) {
                Some(n) => n,
                None => NotifierModel::Null,
            },
        }
    }
}

impl RegistrationData {
    /// Checks that the declared notifier comes with an address and a token.
    pub fn validate(&self) -> (r: Result<(), Error>)
        ensures
            r == self@.validation(),
    {
        let (address, token) = match self.notifier {
            Channel::Null => return Ok(()),
            Channel::Email => (&self.email, &self.auth_data.email_token),
            Channel::Telegram => (&self.tg_handle, &self.auth_data.tg_token),
        };
        if !is_present(address) {
            Err(Error::NotifierEmpty)
        } else if !is_present(token) {
            Err(Error::AuthDataEmpty)
        } else {
            Ok(())
        }
    }

    /// The user this registration creates.
    pub fn to_user(&self) -> (r: User)
        requires
            self@.validation() is Ok,
        ensures
            r@ == self@.user(),
            r@.wf(),
    {
        let notifier = match Notifier::from_parts(self.notifier, &self.email, &self.tg_handle) {
            Some(n) => n,
            None => Notifier::Null,
        };
        User {
            id: self.id,
            email: clone_text(&self.email),
            tg_handle: clone_text(&self.tg_handle),
            notifier,
        }
    }
}

/// What a user submits to change a registration. An absent field keeps the stored value.
#[derive(Debug)]
pub struct UpdateData {
    /// The id of the user to update.
    pub id: u32,
    pub email: Option<String>,
    pub tg_handle: Option<String>,
    /// The notifier to switch to; `None` keeps the stored one.
    pub notifier: Option<Channel>,
}

pub struct UpdateModel {
    pub id: u32,
    pub email: Option<Seq<char>>,
    pub tg_handle: Option<Seq<char>>,
    pub notifier: Option<Channel>,
}

impl View for UpdateData {
    type V = UpdateModel;

    open spec fn view(&self) -> UpdateModel {
        UpdateModel {
            id: self.id,
            email: text(self.email),
            tg_handle: text(self.tg_handle),
            notifier: self.notifier,
        }
    }
}

/// The supplied value of a field if there is one, else the stored one.
pub open spec fn apply(supplied: Option<Seq<char>>, stored: Option<Seq<char>>) -> Option<Seq<char>> {
    if present(supplied) {
        supplied
    } else {
        stored
    }
}

impl UpdateModel {
    /// A notifier named in the update must come with its address in the same update.
    pub open spec fn validation(self) -> Result<(), Error> {
        match self.notifier {
            Some(c) => if c != Channel::Null && !present(
                address_for(c, self.email, self.tg_handle),
            ) {
                Err(Error::NotifierEmpty)
            } else {
                Ok(())
            },
            None => Ok(()),
        }
    }

    /// The record after applying this update to `stored`; `None` when the resulting
    /// notifier has no address.
    pub open spec fn merged(self, stored: UserModel) -> Option<UserModel> {
        let email = apply(self.email, stored.email);
        let tg_handle = apply(self.tg_handle, stored.tg_handle);
        let channel = match self.notifier {
            Some(c) => c,
            None => stored.notifier.channel(),
        };
        match notifier_from(channel, email, tg_handle) {
            Some(n) => Some(UserModel { id: self.id, email, tg_handle, notifier: n }),
            None => None,
        }
    }
}

fn apply_text(supplied: &Option<String>, stored: &Option<String>) -> (r: Option<String>)
    ensures
        text(r) == apply(text(*supplied), text(*stored)),
{
    if is_present(supplied) {
        clone_text(supplied)
    } else {
        clone_text(stored)
    }
}

impl UpdateData {
    /// Checks that a notifier named in the update comes with its address.
    pub fn validate(&self) -> (r: Result<(), Error>)
        ensures
            r == self@.validation(),
    {
        let address = match self.notifier {
            None => return Ok(()),
            Some(Channel::Null) => return Ok(()),
            Some(Channel::Email) => &self.email,
            Some(Channel::Telegram) => &self.tg_handle,
        };
        if is_present(address) {
            Ok(())
        } else {
            Err(Error::NotifierEmpty)
        }
    }

    /// Applies this update to the stored record.
    pub fn merge(&self, stored: &User) -> (r: Option<User>)
        ensures
            match self@.merged(stored@) {
                Some(m) => r matches Some(u) && u@ == m,
                None => r is None,
            },
    {
        let email = apply_text(&self.email, &stored.email);
        let tg_handle = apply_text(&self.tg_handle, &stored.tg_handle);
        let channel = match self.notifier {
            Some(c) => c,
            None => stored.channel(),
        };
        match Notifier::from_parts(channel, &email, &tg_handle) {
            Some(notifier) => Some(User { id: self.id, email, tg_handle, notifier }),
            None => None,
        }
    }
}

} // verus!
