use vstd::prelude::*;

verus! {

/// The channel a user selects for notifications, without its address.
#[derive(Clone, Copy, Debug, PartialEq, Eq, Structural)]
pub enum Channel {
    Null,
    Email,
    Telegram,
}

/// The channel a user is notified through, with the address on that channel.
#[derive(Debug)]
pub enum Notifier {
    Null,
    Email(String),
    Telegram(String),
}

/// Mathematical value of a `Notifier`.
pub enum NotifierModel {
    Null,
    Email(Seq<char>),
    Telegram(Seq<char>),
}

impl NotifierModel {
    pub open spec fn channel(self) -> Channel {
        match self {
            NotifierModel::Null => Channel::Null,
            NotifierModel::Email(_) => Channel::Email,
            NotifierModel::Telegram(_) => Channel::Telegram,
        }
    }
}

impl View for Notifier {
    type V = NotifierModel;

    open spec fn view(&self) -> NotifierModel {
        match self {
            Notifier::Null => NotifierModel::Null,
            Notifier::Email(a) => NotifierModel::Email(a@),
            Notifier::Telegram(h) => NotifierModel::Telegram(h@),
        }
    }
}

/// The view of an optional string.
pub open spec fn text(o: Option<String>) -> Option<Seq<char>> {
    match o {
        Some(s) => Some(s@),
        None => None,
    }
}

/// Stored tag of the email channel.
pub open spec fn email_tag() -> Seq<char> {
    seq!['e', 'm', 'a', 'i', 'l']
}

/// Stored tag of the telegram channel.
pub open spec fn telegram_tag() -> Seq<char> {
    seq!['t', 'e', 'l', 'e', 'g', 'r', 'a', 'm']
}

/// Text of the notifier column for a channel; `None` stands for SQL `NULL`.
pub open spec fn tag_of(c: Channel) -> Option<Seq<char>> {
    match c {
        Channel::Null => None,
        Channel::Email => Some(email_tag()),
        Channel::Telegram => Some(telegram_tag()),
    }
}

/// The channel that a stored notifier column denotes, or `None` for an unknown tag.
pub open spec fn channel_of_tag(tag: Option<Seq<char>>) -> Option<Channel> {
    match tag {
        None => Some(Channel::Null),
        Some(t) => if t == email_tag() {
            Some(Channel::Email)
        } else if t == telegram_tag() {
            Some(Channel::Telegram)
        } else {
            None
        },
    }
}

/// The notifier on `channel` whose address is taken from the matching column;
/// `None` when an active channel has no address.
pub open spec fn notifier_from(
    channel: Channel,
    email: Option<Seq<char>>,
    tg_handle: Option<Seq<char>>,
) -> Option<NotifierModel> {
    match channel {
        Channel::Null => Some(NotifierModel::Null),
        Channel::Email => match email {
            Some(a) => Some(NotifierModel::Email(a)),
            None => None,
        },
        Channel::Telegram => match tg_handle {
            Some(h) => Some(NotifierModel::Telegram(h)),
            None => None,
        },
    }
}

pub fn clone_text(o: &Option<String>) -> (r: Option<String>)
    ensures
        text(r) == text(*o),
{
    match o {
        Some(s) => Some(s.clone()),
        None => None,
    }
}

pub fn same_text(a: &Option<String>, b: &Option<String>) -> (r: bool)
    ensures
        r == (text(*a) == text(*b)),
{
    match (a, b) {
        (Some(x), Some(y)) => *x == *y,
        (None, None) => true,
        _ => false,
    }
}

/// Builds the string held by the email tag.
pub fn email_tag_text() -> (r: String)
    ensures
        r@ == email_tag(),
{
    proof {
        reveal_strlit("email");
    }
    String::from_str("email")
}

/// Builds the string held by the telegram tag.
pub fn telegram_tag_text() -> (r: String)
    ensures
        r@ == telegram_tag(),
{
    proof {
        reveal_strlit("telegram");
    }
    String::from_str("telegram")
}

impl Channel {
    /// Reads a stored notifier column; an unrecognised tag gives `None`.
    pub fn from_tag(tag: &Option<String>) -> (r: Option<Channel>)
        ensures
            r == channel_of_tag(text(*tag)),
    {
        match tag {
            None => Some(Channel::Null),
            Some(t) => {
                if *t == email_tag_text() {
                    Some(Channel::Email)
                } else if *t == telegram_tag_text() {
                    Some(Channel::Telegram)
                } else {
                    None
                }
            },
        }
    }

    /// The notifier column written for this channel.
    pub fn tag(&self) -> (r: Option<String>)
        ensures
            text(r) == tag_of(*self),
    {
        match self {
            Channel::Null => None,
            Channel::Email => Some(email_tag_text()),
            Channel::Telegram => Some(telegram_tag_text()),
        }
    }
}

impl Notifier {
    pub fn channel(&self) -> (r: Channel)
        ensures
            r == self@.channel(),
    {
        match self {
            Notifier::Null => Channel::Null,
            Notifier::Email(_) => Channel::Email,
            Notifier::Telegram(_) => Channel::Telegram,
        }
    }

    /// Builds the notifier on `channel` from the address columns.
    pub fn from_parts(channel: Channel, email: &Option<String>, tg_handle: &Option<String>) -> (r:
        Option<Notifier>)
        ensures
            match notifier_from(channel, text(*email), text(*tg_handle)) {
                Some(n) => r matches Some(x) && x@ == n,
                None => r is None,
            },
    {
        match channel {
            Channel::Null => Some(Notifier::Null),
            Channel::Email => match email {
                Some(a) => Some(Notifier::Email(a.clone())),
                None => None,
            },
            Channel::Telegram => match tg_handle {
                Some(h) => Some(Notifier::Telegram(h.clone())),
                None => None,
            },
        }
    }
}

impl PartialEq for Notifier {
    fn eq(&self, o: &Notifier) -> (r: bool) {
        match (self, o) {
            (Notifier::Null, Notifier::Null) => true,
            (Notifier::Email(a), Notifier::Email(b)) => *a == *b,
            (Notifier::Telegram(a), Notifier::Telegram(b)) => *a == *b,
            _ => false,
        }
    }
}

impl vstd::std_specs::cmp::PartialEqSpecImpl for Notifier {
    open spec fn obeys_eq_spec() -> bool {
        true
    }

    open spec fn eq_spec(&self, o: &Notifier) -> bool {
        self@ == o@
    }
}

} // verus!
