use vstd::prelude::*;

use crate::notifier::{same_text, tag_of, text, Channel, Notifier, NotifierModel};

verus! {

/// The data stored for each user.
#[derive(Debug)]
pub struct User {
    /// A unique identifier for a user.
    pub id: u32,
    /// Email of the user.
    pub email: Option<String>,
    /// Telegram handle of the user.
    pub tg_handle: Option<String>,
    /// The channel through which the user would like to be notified.
    pub notifier: Notifier,
}

/// Mathematical value of a `User`.
pub struct UserModel {
    pub id: u32,
    pub email: Option<Seq<char>>,
    pub tg_handle: Option<Seq<char>>,
    pub notifier: NotifierModel,
}

impl UserModel {
    /// The address embedded in an active notifier is the one held in the matching column.
    pub open spec fn wf(self) -> bool {
        match self.notifier {
            NotifierModel::Null => true,
            NotifierModel::Email(a) => self.email == Some(a),
            NotifierModel::Telegram(h) => self.tg_handle == Some(h),
        }
    }
}

impl View for User {
    type V = UserModel;

    open spec fn view(&self) -> UserModel {
        UserModel {
            id: self.id,
            email: text(self.email),
            tg_handle: text(self.tg_handle),
            notifier: self.notifier@,
        }
    }
}

impl User {
    /// The text stored in the notifier column for `notifier`; `None` stands for `NULL`.
    pub fn notifier_to_text(notifier: &Notifier) -> (r: Option<String>)
        ensures
            text(r) == tag_of(notifier@.channel()),
    {
        notifier.channel().tag()
    }

    /// The channel the user is notified through.
    pub fn channel(&self) -> (r: Channel)
        ensures
            r == self@.notifier.channel(),
    {
        self.notifier.channel()
    }
}

impl PartialEq for User {
    fn eq(&self, o: &User) -> (r: bool) {
        self.id == o.id && same_text(&self.email, &o.email) && same_text(&self.tg_handle, &o.tg_handle)
            && self.notifier == o.notifier
    }
}

impl vstd::std_specs::cmp::PartialEqSpecImpl for User {
    open spec fn obeys_eq_spec() -> bool {
        true
    }

    open spec fn eq_spec(&self, o: &User) -> bool {
        self@ == o@
    }
}

} // verus!
