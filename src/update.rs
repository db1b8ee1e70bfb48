use vstd::prelude::*;

use crate::errors::Error;
use crate::notifier::Channel;
use crate::payload::{address_for, is_present, present, UpdateData, UpdateModel};
use crate::store::StoreError;
use crate::user::{User, UserModel};
use crate::workflow::{map_write_error, write_error, Action, ActionModel, Event, EventModel};

verus! {

/// Where an update stands: which answer it waits for, and the record it will write.
#[derive(Debug)]
pub enum UpdateStage {
    Finding,
    CheckingEmail(User),
    CheckingHandle(User),
    Writing,
    Done,
}

pub enum UpdateStageModel {
    Finding,
    CheckingEmail(UserModel),
    CheckingHandle(UserModel),
    Writing,
    Done,
}

impl View for UpdateStage {
    type V = UpdateStageModel;

    open spec fn view(&self) -> UpdateStageModel {
        match self {
            UpdateStage::Finding => UpdateStageModel::Finding,
            UpdateStage::CheckingEmail(u) => UpdateStageModel::CheckingEmail(u@),
            UpdateStage::CheckingHandle(u) => UpdateStageModel::CheckingHandle(u@),
            UpdateStage::Writing => UpdateStageModel::Writing,
            UpdateStage::Done => UpdateStageModel::Done,
        }
    }
}

/// Whether an update in `stage` takes `ev` as the answer it waits for.
pub open spec fn update_accepts(stage: UpdateStageModel, ev: EventModel) -> bool {
    match stage {
        UpdateStageModel::Finding | UpdateStageModel::CheckingEmail(_)
        | UpdateStageModel::CheckingHandle(_) => ev is Found,
        UpdateStageModel::Writing => ev is Written,
        UpdateStageModel::Done => false,
    }
}

pub open spec fn update_fail(e: Error) -> (UpdateStageModel, ActionModel) {
    (UpdateStageModel::Done, ActionModel::Reply(Err(e)))
}

pub open spec fn update_write(m: UserModel) -> (UpdateStageModel, ActionModel) {
    (UpdateStageModel::Writing, ActionModel::Replace(m))
}

/// A handle supplied by the update is checked for another holder before the write.
pub open spec fn update_check_handle(d: UpdateModel, m: UserModel) -> (
    UpdateStageModel,
    ActionModel,
) {
    match d.tg_handle {
        Some(h) => if h.len() > 0 {
            (UpdateStageModel::CheckingHandle(m), ActionModel::LookupHandle(h))
        } else {
            update_write(m)
        },
        None => update_write(m),
    }
}

/// An email supplied by the update is checked for another holder, then the handle.
pub open spec fn update_check_email(d: UpdateModel, m: UserModel) -> (
    UpdateStageModel,
    ActionModel,
) {
    match d.email {
        Some(e) => if e.len() > 0 {
            (UpdateStageModel::CheckingEmail(m), ActionModel::LookupEmail(e))
        } else {
            update_check_handle(d, m)
        },
        None => update_check_handle(d, m),
    }
}

pub open spec fn update_start(d: UpdateModel, connected: bool) -> (UpdateStageModel, ActionModel) {
    if !connected {
        update_fail(Error::DbConnectionFailed)
    } else {
        (UpdateStageModel::Finding, ActionModel::LookupId(d.id))
    }
}

/// The step once the stored record is known: the update is checked, then applied.
pub open spec fn update_found(d: UpdateModel, stored: UserModel) -> (UpdateStageModel, ActionModel) {
    match d.validation() {
        Err(e) => update_fail(e),
        Ok(_) => match d.merged(stored) {
            None => update_fail(Error::NotifierEmpty),
            Some(m) => update_check_email(d, m),
        },
    }
}

/// A uniqueness lookup's answer: only a holder other than the updated user is a conflict.
pub open spec fn update_after_lookup(
    d: UpdateModel,
    found: Result<Option<UserModel>, StoreError>,
    next: (UpdateStageModel, ActionModel),
) -> (UpdateStageModel, ActionModel) {
    match found {
        Err(_) => update_fail(Error::DbError),
        Ok(Some(holder)) => if holder.id == d.id {
            next
        } else {
            update_fail(Error::NotifierNotUnique)
        },
        Ok(None) => next,
    }
}

/// The step an update in `stage` takes on the answer `ev`.
pub open spec fn update_step(d: UpdateModel, stage: UpdateStageModel, ev: EventModel) -> (
    UpdateStageModel,
    ActionModel,
) {
    match (stage, ev) {
        (UpdateStageModel::Finding, EventModel::Found(f)) => match f {
            Err(_) => update_fail(Error::DbError),
            Ok(None) => update_fail(Error::UserNotFound),
            Ok(Some(stored)) => update_found(d, stored),
        },
        (UpdateStageModel::CheckingEmail(m), EventModel::Found(f)) => update_after_lookup(
            d,
            f,
            update_check_handle(d, m),
        ),
        (UpdateStageModel::CheckingHandle(m), EventModel::Found(f)) => update_after_lookup(
            d,
            f,
            update_write(m),
        ),
        (UpdateStageModel::Writing, EventModel::Written(w)) => match w {
            Ok(_) => (UpdateStageModel::Done, ActionModel::Reply(Ok(d.id))),
            Err(e) => update_fail(write_error(e)),
        },
        // An answer the update does not wait for; `update_accepts` rules it out.
        _ => update_fail(Error::DbError),
    }
}

fn fail(e: Error) -> (r: (UpdateStage, Action))
    ensures
        (r.0@, r.1@) == update_fail(e),
{
    (UpdateStage::Done, Action::Reply(Err(e)))
}

fn check_handle(d: &UpdateData, m: User) -> (r: (UpdateStage, Action))
    ensures
        (r.0@, r.1@) == update_check_handle(d@, m@),
{
    match &d.tg_handle {
        Some(h) => if is_present(&d.tg_handle) {
            (UpdateStage::CheckingHandle(m), Action::LookupHandle(h.clone()))
        } else {
            (UpdateStage::Writing, Action::Replace(m))
        },
        None => (UpdateStage::Writing, Action::Replace(m)),
    }
}

fn check_email(d: &UpdateData, m: User) -> (r: (UpdateStage, Action))
    ensures
        (r.0@, r.1@) == update_check_email(d@, m@),
{
    match &d.email {
        Some(e) => if is_present(&d.email) {
            (UpdateStage::CheckingEmail(m), Action::LookupEmail(e.clone()))
        } else {
            check_handle(d, m)
        },
        None => check_handle(d, m),
    }
}

fn holder_conflicts(d: &UpdateData, found: &Result<Option<User>, StoreError>) -> (r: Option<
    Error,
>)
    ensures
        r == (match found {
            Err(_) => Some(Error::DbError),
            Ok(Some(holder)) => if holder.id == d.id {
                None
            } else {
                Some(Error::NotifierNotUnique)
            },
            Ok(None) => None,
        }),
{
    match found {
        Err(_) => Some(Error::DbError),
        Ok(Some(holder)) => if holder.id == d.id {
            None
        } else {
            Some(Error::NotifierNotUnique)
        },
        Ok(None) => None,
    }
}

/// An update in progress: the submitted data and where it stands.
pub struct Update {
    data: UpdateData,
    stage: UpdateStage,
}

impl Update {
    pub closed spec fn data_model(&self) -> UpdateModel {
        self.data@
    }

    pub closed spec fn stage_model(&self) -> UpdateStageModel {
        self.stage@
    }

    /// Starts an update; `connected` tells whether the store connection was acquired.
    pub fn start(data: UpdateData, connected: bool) -> (r: (Update, Action))
        ensures
            r.0.data_model() == data@,
            stage_holds_valid_record(data@, r.0.stage_model()),
            (r.0.stage_model(), r.1@) == update_start(data@, connected),
    {
        let (stage, action) = if !connected {
            fail(Error::DbConnectionFailed)
        } else {
            (UpdateStage::Finding, Action::LookupId(data.id))
        };
        (Update { data, stage }, action)
    }

    /// Whether the update waits for `event`.
    pub fn accepts(&self, event: &Event) -> (r: bool)
        ensures
            r == update_accepts(self.stage_model(), event@),
    {
        match (&self.stage, event) {
            (UpdateStage::Finding, Event::Found(_)) => true,
            (UpdateStage::CheckingEmail(_), Event::Found(_)) => true,
            (UpdateStage::CheckingHandle(_), Event::Found(_)) => true,
            (UpdateStage::Writing, Event::Written(_)) => true,
            _ => false,
        }
    }

    /// Takes the answer to the last action and says what to do next.
    pub fn step(&mut self, event: Event) -> (r: Action)
        requires
            stage_holds_valid_record(old(self).data_model(), old(self).stage_model()),
            update_accepts(old(self).stage_model(), event@),
        ensures
            final(self).data_model() == old(self).data_model(),
            stage_holds_valid_record(final(self).data_model(), final(self).stage_model()),
            (final(self).stage_model(), r@) == update_step(
                old(self).data_model(),
                old(self).stage_model(),
                event@,
            ),
    {
        proof {
            lemma_update_keeps_id(self.data@, self.stage@, event@);
        }
        let mut stage = UpdateStage::Done;
        core::mem::swap(&mut stage, &mut self.stage);
        let (next, action) = match (stage, event) {
            (UpdateStage::Finding, Event::Found(f)) => match f {
                Err(_) => fail(Error::DbError),
                Ok(None) => fail(Error::UserNotFound),
                Ok(Some(stored)) => match self.data.validate() {
                    Err(e) => fail(e),
                    Ok(()) => match self.data.merge(&stored) {
                        None => fail(Error::NotifierEmpty),
                        Some(m) => check_email(&self.data, m),
                    },
                },
            },
            (UpdateStage::CheckingEmail(m), Event::Found(f)) => match holder_conflicts(
                &self.data,
                &f,
            ) {
                Some(e) => fail(e),
                None => check_handle(&self.data, m),
            },
            (UpdateStage::CheckingHandle(m), Event::Found(f)) => match holder_conflicts(
                &self.data,
                &f,
            ) {
                Some(e) => fail(e),
                None => (UpdateStage::Writing, Action::Replace(m)),
            },
            (UpdateStage::Writing, Event::Written(w)) => match w {
                Ok(()) => (UpdateStage::Done, Action::Reply(Ok(self.data.id))),
                Err(e) => fail(map_write_error(e)),
            },
            _ => fail(Error::DbError),
        };
        self.stage = next;
        action
    }
}

/// The record an update in `stage` would write is well formed and keeps the updated id.
pub open spec fn stage_holds_valid_record(d: UpdateModel, stage: UpdateStageModel) -> bool {
    match stage {
        UpdateStageModel::CheckingEmail(m) | UpdateStageModel::CheckingHandle(m) => m.wf() && m.id
            == d.id,
        _ => true,
    }
}

/// An update writes only well-formed records under the id it was given, and every state it
/// moves to keeps that so.
pub proof fn lemma_update_keeps_id(d: UpdateModel, stage: UpdateStageModel, ev: EventModel)
    requires
        stage_holds_valid_record(d, stage),
    ensures
        stage_holds_valid_record(d, update_step(d, stage, ev).0),
        update_step(d, stage, ev).1 matches ActionModel::Replace(m) ==> m.wf() && m.id == d.id,
{
    if let (UpdateStageModel::Finding, EventModel::Found(Ok(Some(stored)))) = (stage, ev) {
        if let Some(m) = d.merged(stored) {
            lemma_merged_is_well_formed(d, stored);
        }
    }
}

/// A merged record is well formed and carries the updated id.
pub proof fn lemma_merged_is_well_formed(d: UpdateModel, stored: UserModel)
    requires
        d.merged(stored) is Some,
    ensures
        d.merged(stored)->0.wf(),
        d.merged(stored)->0.id == d.id,
{
}

/// An update that names no notifier keeps the stored channel; when it also leaves that
/// channel's address alone, the stored notifier is kept as it was.
pub proof fn lemma_omitted_notifier_kept(d: UpdateModel, stored: UserModel)
    requires
        d.notifier is None,
        stored.wf(),
    ensures
        d.merged(stored) is Some,
        d.merged(stored)->0.notifier.channel() == stored.notifier.channel(),
        !present(address_for(stored.notifier.channel(), d.email, d.tg_handle))
            ==> d.merged(stored)->0.notifier == stored.notifier,
        update_step(d, UpdateStageModel::Finding, EventModel::Found(Ok(Some(stored))))
            == update_check_email(d, d.merged(stored)->0),
{
}

/// An update that names an active notifier without giving its address in the same update is
/// refused with `NotifierEmpty`, before anything is written.
pub proof fn lemma_notifier_without_address_rejected(d: UpdateModel, stored: UserModel)
    requires
        d.notifier matches Some(c) && c != Channel::Null && !present(
            address_for(c, d.email, d.tg_handle),
        ),
    ensures
        d.validation() == Err::<(), Error>(Error::NotifierEmpty),
        update_step(d, UpdateStageModel::Finding, EventModel::Found(Ok(Some(stored))))
            == update_fail(Error::NotifierEmpty),
{
}

/// Updating an id that no user has is answered with `UserNotFound`.
pub proof fn lemma_missing_user_not_found(d: UpdateModel)
    ensures
        update_step(d, UpdateStageModel::Finding, EventModel::Found(Ok(None))) == update_fail(
            Error::UserNotFound,
        ),
{
}

} // verus!
