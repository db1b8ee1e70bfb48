use vstd::prelude::*;

use crate::auth::{authenticate_telegram_user, owns_address, proves_ownership};
use crate::errors::Error;
use crate::notifier::Channel;
use crate::payload::{present, RegistrationData, RegistrationModel};
use crate::store::{encode, first_decoded, lemma_row_round_trip, StoreError};
use crate::user::UserModel;
use crate::workflow::{map_write_error, write_error, Action, ActionModel, Event, EventModel};

verus! {

/// Where a registration stands: which answer it waits for.
#[derive(Clone, Copy, Debug, PartialEq, Eq, Structural)]
pub enum RegisterStage {
    Verifying,
    CheckingId,
    CheckingEmail,
    CheckingHandle,
    Creating,
    Done,
}

/// Whether a registration in `stage` takes `ev` as the answer it waits for.
pub open spec fn register_accepts(stage: RegisterStage, ev: EventModel) -> bool {
    match stage {
        RegisterStage::Verifying => ev is Verified,
        RegisterStage::CheckingId | RegisterStage::CheckingEmail | RegisterStage::CheckingHandle =>
            ev is Found,
        RegisterStage::Creating => ev is Written,
        RegisterStage::Done => false,
    }
}

pub open spec fn register_fail(e: Error) -> (RegisterStage, ActionModel) {
    (RegisterStage::Done, ActionModel::Reply(Err(e)))
}

pub open spec fn register_create(d: RegistrationModel) -> (RegisterStage, ActionModel) {
    (RegisterStage::Creating, ActionModel::Insert(d.user()))
}

pub open spec fn register_check_handle(d: RegistrationModel) -> (RegisterStage, ActionModel) {
    match d.tg_handle {
        Some(h) => (RegisterStage::CheckingHandle, ActionModel::LookupHandle(h)),
        None => register_create(d),
    }
}

pub open spec fn register_check_email(d: RegistrationModel) -> (RegisterStage, ActionModel) {
    match d.email {
        Some(e) => (RegisterStage::CheckingEmail, ActionModel::LookupEmail(e)),
        None => register_check_handle(d),
    }
}

pub open spec fn register_check_id(d: RegistrationModel) -> (RegisterStage, ActionModel) {
    (RegisterStage::CheckingId, ActionModel::LookupId(d.id))
}

/// The first step of a registration: local checks, then proof of ownership, then the
/// lookups. Telegram ownership is settled locally.
pub open spec fn register_start(d: RegistrationModel, connected: bool) -> (
    RegisterStage,
    ActionModel,
) {
    if !connected {
        register_fail(Error::DbConnectionFailed)
    } else {
        match d.validation() {
            Err(e) => register_fail(e),
            Ok(_) => match (d.notifier, d.email_token) {
                (Channel::Email, Some(t)) => (RegisterStage::Verifying, ActionModel::VerifyEmail(t)),
                _ => register_check_id(d),
            },
        }
    }
}

/// A lookup's answer while checking uniqueness: a failure is a store error, a holder is a
/// conflict, and no holder moves on to `next`.
pub open spec fn register_after_lookup(
    found: Result<Option<UserModel>, StoreError>,
    conflict: Error,
    next: (RegisterStage, ActionModel),
) -> (RegisterStage, ActionModel) {
    match found {
        Err(_) => register_fail(Error::DbError),
        Ok(Some(_)) => register_fail(conflict),
        Ok(None) => next,
    }
}

/// The step a registration in `stage` takes on the answer `ev`.
pub open spec fn register_step(d: RegistrationModel, stage: RegisterStage, ev: EventModel) -> (
    RegisterStage,
    ActionModel,
) {
    match (stage, ev) {
        (RegisterStage::Verifying, EventModel::Verified(v)) => if proves_ownership(d.email, v) {
            register_check_id(d)
        } else {
            register_fail(Error::BadAuthData)
        },
        (RegisterStage::CheckingId, EventModel::Found(f)) => register_after_lookup(
            f,
            Error::UserExists,
            register_check_email(d),
        ),
        (RegisterStage::CheckingEmail, EventModel::Found(f)) => register_after_lookup(
            f,
            Error::NotifierNotUnique,
            register_check_handle(d),
        ),
        (RegisterStage::CheckingHandle, EventModel::Found(f)) => register_after_lookup(
            f,
            Error::NotifierNotUnique,
            register_create(d),
        ),
        (RegisterStage::Creating, EventModel::Written(w)) => match w {
            Ok(_) => (RegisterStage::Done, ActionModel::Reply(Ok(d.id))),
            Err(e) => register_fail(write_error(e)),
        },
        // An answer the registration does not wait for; `register_accepts` rules it out.
        _ => register_fail(Error::DbError),
    }
}

fn fail(e: Error) -> (r: (RegisterStage, Action))
    ensures
        (r.0, r.1@) == register_fail(e),
{
    (RegisterStage::Done, Action::Reply(Err(e)))
}

fn check_id(d: &RegistrationData) -> (r: (RegisterStage, Action))
    ensures
        (r.0, r.1@) == register_check_id(d@),
{
    (RegisterStage::CheckingId, Action::LookupId(d.id))
}

fn create(d: &RegistrationData) -> (r: (RegisterStage, Action))
    requires
        d@.validation() is Ok,
    ensures
        (r.0, r.1@) == register_create(d@),
{
    (RegisterStage::Creating, Action::Insert(d.to_user()))
}

fn check_handle(d: &RegistrationData) -> (r: (RegisterStage, Action))
    requires
        d@.validation() is Ok,
    ensures
        (r.0, r.1@) == register_check_handle(d@),
{
    match &d.tg_handle {
        Some(h) => (RegisterStage::CheckingHandle, Action::LookupHandle(h.clone())),
        None => create(d),
    }
}

fn check_email(d: &RegistrationData) -> (r: (RegisterStage, Action))
    requires
        d@.validation() is Ok,
    ensures
        (r.0, r.1@) == register_check_email(d@),
{
    match &d.email {
        Some(e) => (RegisterStage::CheckingEmail, Action::LookupEmail(e.clone())),
        None => check_handle(d),
    }
}

/// A registration in progress: the submitted data and the answer it waits for.
pub struct Registration {
    data: RegistrationData,
    stage: RegisterStage,
}

impl Registration {
    pub closed spec fn data_model(&self) -> RegistrationModel {
        self.data@
    }

    pub closed spec fn stage_model(&self) -> RegisterStage {
        self.stage
    }

    /// Past the local checks, the data has passed them.
    pub closed spec fn wf(&self) -> bool {
        self.stage != RegisterStage::Done ==> self.data@.validation() is Ok
    }

    /// Starts a registration; `connected` tells whether the store connection was acquired.
    pub fn start(data: RegistrationData, connected: bool) -> (r: (Registration, Action))
        ensures
            r.0.wf(),
            r.0.data_model() == data@,
            (r.0.stage_model(), r.1@) == register_start(data@, connected),
    {
        let (stage, action) = if !connected {
            fail(Error::DbConnectionFailed)
        } else {
            match data.validate() {
                Err(e) => fail(e),
                Ok(()) => match (data.notifier, &data.auth_data.email_token) {
                    (Channel::Email, Some(t)) => (RegisterStage::Verifying, Action::VerifyEmail(t.clone())),
                    (Channel::Telegram, _) => match authenticate_telegram_user() {
                        Ok(()) => check_id(&data),
                        Err(_) => fail(Error::BadAuthData),
                    },
                    _ => check_id(&data),
                },
            }
        };
        (Registration { data, stage }, action)
    }

    /// Whether the registration waits for `event`.
    pub fn accepts(&self, event: &Event) -> (r: bool)
        ensures
            r == register_accepts(self.stage_model(), event@),
    {
        match (self.stage, event) {
            (RegisterStage::Verifying, Event::Verified(_)) => true,
            (RegisterStage::CheckingId, Event::Found(_)) => true,
            (RegisterStage::CheckingEmail, Event::Found(_)) => true,
            (RegisterStage::CheckingHandle, Event::Found(_)) => true,
            (RegisterStage::Creating, Event::Written(_)) => true,
            _ => false,
        }
    }

    /// Takes the answer to the last action and says what to do next.
    pub fn step(&mut self, event: Event) -> (r: Action)
        requires
            old(self).wf(),
            register_accepts(old(self).stage_model(), event@),
        ensures
            final(self).wf(),
            final(self).data_model() == old(self).data_model(),
            (final(self).stage_model(), r@) == register_step(
                old(self).data_model(),
                old(self).stage_model(),
                event@,
            ),
    {
        let (stage, action) = match (self.stage, event) {
            (RegisterStage::Verifying, Event::Verified(v)) => {
                if owns_address(&self.data.email, &v) {
                    check_id(&self.data)
                } else {
                    fail(Error::BadAuthData)
                }
            },
            (RegisterStage::CheckingId, Event::Found(f)) => match f {
                Err(_) => fail(Error::DbError),
                Ok(Some(_)) => fail(Error::UserExists),
                Ok(None) => check_email(&self.data),
            },
            (RegisterStage::CheckingEmail, Event::Found(f)) => match f {
                Err(_) => fail(Error::DbError),
                Ok(Some(_)) => fail(Error::NotifierNotUnique),
                Ok(None) => check_handle(&self.data),
            },
            (RegisterStage::CheckingHandle, Event::Found(f)) => match f {
                Err(_) => fail(Error::DbError),
                Ok(Some(_)) => fail(Error::NotifierNotUnique),
                Ok(None) => create(&self.data),
            },
            (RegisterStage::Creating, Event::Written(w)) => match w {
                Ok(()) => (RegisterStage::Done, Action::Reply(Ok(self.data.id))),
                Err(e) => fail(map_write_error(e)),
            },
            _ => fail(Error::DbError),
        };
        self.stage = stage;
        action
    }
}

/// A registration inserts only the submitted user: same id, email, handle and channel, with
/// the address of the channel; and a lookup that finds the inserted row reads that user back.
pub proof fn lemma_registered_user_reads_back(
    d: RegistrationModel,
    stage: RegisterStage,
    ev: EventModel,
)
    requires
        stage != RegisterStage::Done ==> d.validation() is Ok,
        register_accepts(stage, ev),
    ensures
        register_step(d, stage, ev).1 matches ActionModel::Insert(u) ==> {
            &&& u.id == d.id
            &&& u.email == d.email
            &&& u.tg_handle == d.tg_handle
            &&& u.notifier.channel() == d.notifier
            &&& u.wf()
            &&& first_decoded(seq![encode(u)]) == Ok::<Option<UserModel>, StoreError>(Some(u))
        },
{
    if register_step(d, stage, ev).1 is Insert {
        lemma_row_round_trip(d.user());
    }
}

/// Nothing is written before every lookup has come back empty: an insert follows only an
/// empty answer to the last lookup the registration needs.
pub proof fn lemma_insert_only_after_clear_lookups(
    d: RegistrationModel,
    stage: RegisterStage,
    ev: EventModel,
)
    ensures
        !(register_start(d, true).1 is Insert),
        register_step(d, stage, ev).1 is Insert ==> {
            &&& ev == EventModel::Found(Ok(None))
            &&& stage == RegisterStage::CheckingId ==> d.email is None && d.tg_handle is None
            &&& stage == RegisterStage::CheckingEmail ==> d.tg_handle is None
            &&& stage != RegisterStage::Verifying && stage != RegisterStage::Creating
        },
{
}

/// Registering an id that is taken is answered with `UserExists` and ends the registration
/// without a write, whether the lookup or the store's key constraint finds it.
pub proof fn lemma_taken_id_rejected(d: RegistrationModel, holder: UserModel)
    ensures
        register_step(d, RegisterStage::CheckingId, EventModel::Found(Ok(Some(holder))))
            == register_fail(Error::UserExists),
        register_step(
            d,
            RegisterStage::Creating,
            EventModel::Written(Err(StoreError::DuplicateId)),
        ) == register_fail(Error::UserExists),
        forall|ev: EventModel| !register_accepts(RegisterStage::Done, ev),
{
}

/// An email or handle that another user holds is looked up and answered with
/// `NotifierNotUnique`, without a write; so is a write the store's unique constraint refuses.
pub proof fn lemma_taken_channel_rejected(d: RegistrationModel, holder: UserModel)
    requires
        d.validation() is Ok,
    ensures
        d.email matches Some(e) ==> register_step(
            d,
            RegisterStage::CheckingId,
            EventModel::Found(Ok(None)),
        ) == (RegisterStage::CheckingEmail, ActionModel::LookupEmail(e)),
        d.tg_handle matches Some(h) ==> register_step(
            d,
            RegisterStage::CheckingEmail,
            EventModel::Found(Ok(None)),
        ) == (RegisterStage::CheckingHandle, ActionModel::LookupHandle(h)),
        d.email is None ==> (d.tg_handle matches Some(h) ==> register_step(
            d,
            RegisterStage::CheckingId,
            EventModel::Found(Ok(None)),
        ) == (RegisterStage::CheckingHandle, ActionModel::LookupHandle(h))),
        register_step(d, RegisterStage::CheckingEmail, EventModel::Found(Ok(Some(holder))))
            == register_fail(Error::NotifierNotUnique),
        register_step(d, RegisterStage::CheckingHandle, EventModel::Found(Ok(Some(holder))))
            == register_fail(Error::NotifierNotUnique),
        register_step(
            d,
            RegisterStage::Creating,
            EventModel::Written(Err(StoreError::DuplicateChannel)),
        ) == register_fail(Error::NotifierNotUnique),
{
}

/// A registration for email without an email address is answered with `NotifierEmpty`,
/// whatever its other fields hold.
pub proof fn lemma_email_without_address(d: RegistrationModel)
    requires
        d.notifier == Channel::Email,
        !present(d.email),
    ensures
        d.validation() == Err::<(), Error>(Error::NotifierEmpty),
        register_start(d, true) == register_fail(Error::NotifierEmpty),
{
}

/// A registration for email with an address but no token is answered with `AuthDataEmpty`.
pub proof fn lemma_email_without_token(d: RegistrationModel)
    requires
        d.notifier == Channel::Email,
        present(d.email),
        !present(d.email_token),
    ensures
        d.validation() == Err::<(), Error>(Error::AuthDataEmpty),
        register_start(d, true) == register_fail(Error::AuthDataEmpty),
{
}

} // verus!
