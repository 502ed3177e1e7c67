//! The stage contract: a two-phase lifecycle and a state protocol with a fixed
//! envelope around stage-defined extra state.

use vstd::prelude::*;
use serde_json::Value;
use crate::inference::item::{outcome_view, InferItem};
use crate::json::{
    bool_of, bool_value, json_bool, json_member, json_null, member, null_value, object_of,
};

verus! {

/// Why a saved state was rejected.
#[derive(Clone, Copy, Debug, PartialEq, Eq, Structural)]
pub enum SkillError {
    /// The state has no boolean `ready` member.
    MissingReadyField,
}

/// The readiness that a saved state records: the boolean under `ready`.
pub open spec fn ready_of(state: Value) -> Option<bool> {
    match json_member(state, "ready"@) {
        Some(flag) => json_bool(flag),
        None => None,
    }
}

/// The extra state that a saved state records: the member under `extra`.
pub open spec fn extra_of(state: Value) -> Option<Value> {
    json_member(state, "extra"@)
}

/// The envelope of a saved state: readiness under `ready`, the stage's own
/// state under `extra`, and no other member.
pub fn snapshot(ready: bool, extra: Value) -> (state: Value)
    ensures
        ready_of(state) == Some(ready),
        extra_of(state) == Some(extra),
        forall|key: Seq<char>|
            key != "ready"@ && key != "extra"@ ==> json_member(state, key) is None,
{
    let mut members: Vec<(String, Value)> = Vec::new();
    members.push(("ready".to_owned(), bool_value(ready)));
    members.push(("extra".to_owned(), extra));
    proof {
        reveal_strlit("ready");
        reveal_strlit("extra");
        assert("ready"@[0] != "extra"@[0]);
        assert(members@[0].0@ == "ready"@);
        assert(members@[1].0@ == "extra"@);
    }
    object_of(members)
}

/// The readiness that a saved state records, if it records one.
pub fn saved_ready(state: &Value) -> (r: Option<bool>)
    ensures
        r == ready_of(*state),
{
    match member(state, "ready") {
        Some(flag) => bool_of(flag),
        None => None,
    }
}

/// The extra state that a saved state records, if it records any.
pub fn saved_extra(state: &Value) -> (r: Option<&Value>)
    ensures
        r is Some <==> extra_of(*state) is Some,
        r matches Some(extra) ==> extra_of(*state) == Some(*extra),
{
    member(state, "extra")
}

/// Writes the outcome of a stage's transform into the item: success, or the
/// failure's message. Nothing else of the item changes.
pub fn record_outcome(item: &mut InferItem, outcome: Result<(), &'static str>)
    ensures
        outcome_view(final(item).result) == recorded(outcome),
        final(item).id == old(item).id,
        final(item).image == old(item).image,
        final(item).debug == old(item).debug,
{
    match outcome {
        Ok(_) => {
            item.result = Some(Ok(()));
        },
        Err(message) => {
            item.result = Some(Err(message.to_owned()));
        },
    }
}

/// A processing stage. An implementor supplies the readiness flag, the
/// warm-up, the transform and, where it has any, its extra state; the
/// lifecycle and the state protocol are given here.
pub trait Skill: Sized {
    /// Whether the stage is ready, as the contracts speak of it.
    spec fn is_ready(&self) -> bool;

    /// Whether the stage is ready.
    fn ready(&self) -> (r: bool)
        ensures
            r == self.is_ready(),
    ;

    /// Sets readiness.
    fn set_ready(&mut self, ready: bool)
        ensures
            final(self).is_ready() == ready,
    ;

    /// Whether a value is the stage's own state, as the stage says. A stage
    /// with no state of its own says so of no value: its extra state is null.
    /// One that has any overrides this together with `extra_state`.
    open spec fn is_extra_state(&self, extra: Value) -> bool {
        false
    }

    /// The stage's own state: null, unless the stage says what else it is.
    fn extra_state(&self) -> (extra: Value)
        ensures
            json_null(extra) || self.is_extra_state(extra),
    {
        null_value()
    }

    /// Takes back the stage's own state. It leaves readiness alone.
    fn restore_extra_state(&mut self, state: &Value)
        ensures
            final(self).is_ready() == old(self).is_ready(),
    {
    }

    /// The saved state: readiness and the stage's own state in one envelope.
    fn state(&self) -> (state: Value)
        ensures
            ready_of(state) == Some(self.is_ready()),
            extra_of(state) matches Some(extra) && (json_null(extra) || self.is_extra_state(
                extra,
            )),
            forall|key: Seq<char>|
                key != "ready"@ && key != "extra"@ ==> json_member(state, key) is None,
    {
        snapshot(self.ready(), self.extra_state())
    }

    /// Restores a saved state: readiness as the state records it, the extra
    /// state to `restore_extra_state`. With no boolean `ready`, nothing changes.
    fn restore_from_state(&mut self, state: &Value) -> (r: Result<(), SkillError>)
        ensures
            match ready_of(*state) {
                Some(ready) => r is Ok && final(self).is_ready() == ready,
                None => r == Err::<(), SkillError>(SkillError::MissingReadyField) && *final(self)
                    == *old(self),
            },
    {
        match saved_ready(state) {
            Some(ready) => {
                self.set_ready(ready);
            },
            None => {
                return Err(SkillError::MissingReadyField);
            },
        }
        match saved_extra(state) {
            Some(extra) => {
                self.restore_extra_state(extra);
            },
            None => {},
        }
        Ok(())
    }

    /// The stage's warm-up.
    fn _prepare(&self, item: &InferItem);

    /// Warms the stage up; it is ready afterwards, whatever the warm-up did.
    fn prepare(&mut self, item: &InferItem)
        ensures
            final(self).is_ready(),
    {
        self._prepare(item);
        self.set_ready(true);
    }

    /// What the transform may report for an item; by default, every outcome.
    open spec fn may_report(&self, item: InferItem, outcome: Result<(), &'static str>) -> bool {
        true
    }

    /// The stage's transform: success, or a short message.
    fn _process(&self, item: &mut InferItem) -> (outcome: Result<(), &'static str>)
        ensures
            self.may_report(*old(item), outcome),
    ;

    /// Runs the transform and records its outcome in the item: one that the
    /// transform may report. A failing transform is an outcome, no failure.
    fn process(&self, item: &mut InferItem)
        ensures
            final(item).result is Some,
            exists|outcome: Result<(), &'static str>|
                #[trigger] self.may_report(*old(item), outcome) && outcome_view(
                    final(item).result,
                ) == recorded(outcome),
    {
        let outcome = self._process(item);
        record_outcome(item, outcome);
    }
}

/// Saving a stage's state and restoring it at once succeeds and leaves
/// readiness as it was.
pub fn restore_saved_state<S: Skill>(skill: &mut S) -> (r: Result<(), SkillError>)
    ensures
        r is Ok,
        final(skill).is_ready() == old(skill).is_ready(),
{
    let state = skill.state();
    skill.restore_from_state(&state)
}

/// The outcome that an item holds once a transform has reported: success, or
/// the failure's message.
pub open spec fn recorded(outcome: Result<(), &'static str>) -> Option<Result<(), Seq<char>>> {
    match outcome {
        Ok(_) => Some(Ok(())),
        Err(message) => Some(Err(message@)),
    }
}

} // verus!
