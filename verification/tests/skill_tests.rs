use infer_core::inference::item::{InferItem, PixelBuffer};
use infer_core::inference::skill::{
    record_outcome, restore_saved_state, saved_extra, saved_ready, snapshot, Skill, SkillError,
};
use serde_json::Value;

struct DummySkill {
    ready: bool,
}

impl Skill for DummySkill {
    fn is_ready(&self) -> bool {
        self.ready
    }
    fn ready(&self) -> bool {
        self.ready
    }
    fn set_ready(&mut self, ready: bool) {
        self.ready = ready;
    }
    fn _prepare(&self, _item: &InferItem) {}
    fn _process(&self, _item: &mut InferItem) -> Result<(), &'static str> {
        Ok(())
    }
}

struct FailingSkill {
    ready: bool,
}

impl Skill for FailingSkill {
    fn is_ready(&self) -> bool {
        self.ready
    }
    fn ready(&self) -> bool {
        self.ready
    }
    fn set_ready(&mut self, ready: bool) {
        self.ready = ready;
    }
    fn _prepare(&self, _item: &InferItem) {}
    fn _process(&self, _item: &mut InferItem) -> Result<(), &'static str> {
        Err("bad frame")
    }
}

struct CountingSkill {
    ready: bool,
    seen: u64,
}

impl Skill for CountingSkill {
    fn is_ready(&self) -> bool {
        self.ready
    }
    fn ready(&self) -> bool {
        self.ready
    }
    fn set_ready(&mut self, ready: bool) {
        self.ready = ready;
    }
    fn is_extra_state(&self, extra: Value) -> bool {
        extra.as_u64() == Some(self.seen)
    }
    fn extra_state(&self) -> Value {
        Value::from(self.seen)
    }
    fn restore_extra_state(&mut self, state: &Value) {
        self.seen = state.as_u64().unwrap_or(0);
    }
    fn _prepare(&self, _item: &InferItem) {}
    fn _process(&self, _item: &mut InferItem) -> Result<(), &'static str> {
        Ok(())
    }
}

fn object(pairs: Vec<(&str, Value)>) -> Value {
    Value::from_iter(pairs)
}

#[test]
fn test_prepare_and_process() {
    let mut skill = DummySkill { ready: false };
    let mut item = InferItem::new(None, PixelBuffer::new(4, 4), false);
    skill.prepare(&item);
    assert!(skill.ready());
    skill.process(&mut item);
    assert!(item.result.is_some());
    assert!(item.result.as_ref().unwrap().is_ok());
}

#[test]
fn test_state() {
    let mut skill = DummySkill { ready: false };
    let state = skill.state();
    assert_eq!(state.get("ready").and_then(Value::as_bool), Some(false));
    assert_eq!(state.get("extra").and_then(Value::as_null), Some(()));
    skill.set_ready(true);
    let new_state = skill.state();
    assert_eq!(new_state.get("ready").and_then(Value::as_bool), Some(true));
    assert_eq!(new_state.get("extra").and_then(Value::as_null), Some(()));
}

#[test]
fn test_restore_from_state() {
    let mut skill = DummySkill { ready: false };
    let state = object(vec![("ready", Value::from(true)), ("extra", Value::Null)]);
    skill.restore_from_state(&state).unwrap();
    assert!(skill.ready());

    // Test with missing fields
    let incomplete_state = object(vec![("ready", Value::from(false))]);
    skill.restore_from_state(&incomplete_state).unwrap();
    assert!(!skill.ready());
}

#[test]
fn fresh_skill_is_not_ready_until_prepared() {
    let mut skill = DummySkill { ready: false };
    assert_eq!(skill.ready(), false);
    let item = InferItem::new(Some(1), PixelBuffer::new(1, 1), false);
    skill.prepare(&item);
    assert_eq!(skill.ready(), true);
    skill.prepare(&item);
    assert_eq!(skill.ready(), true);
}

#[test]
fn failing_transform_is_recorded() {
    let mut skill = FailingSkill { ready: false };
    let mut item = InferItem::new(Some(1), PixelBuffer::new(2, 2), true);
    let before = item.clone();
    skill.prepare(&item);
    skill.process(&mut item);
    assert_eq!(item.result, Some(Err("bad frame".to_string())));
    assert_eq!(skill.ready(), true);
    assert_eq!(item.id, before.id);
    assert_eq!(item.image, before.image);
    assert_eq!(item.debug, before.debug);
}

#[test]
fn last_stage_writes_the_outcome() {
    let failing = FailingSkill { ready: true };
    let passing = DummySkill { ready: true };
    let mut item = InferItem::new(Some(1), PixelBuffer::new(1, 1), false);
    failing.process(&mut item);
    assert_eq!(item.result, Some(Err("bad frame".to_string())));
    passing.process(&mut item);
    assert_eq!(item.result, Some(Ok(())));
    failing.process(&mut item);
    assert_eq!(item.result, Some(Err("bad frame".to_string())));
}

#[test]
fn record_outcome_writes_both_arms() {
    let mut item = InferItem::new(Some(9), PixelBuffer::new(1, 1), true);
    record_outcome(&mut item, Err("too dark"));
    assert_eq!(item.result, Some(Err("too dark".to_string())));
    record_outcome(&mut item, Ok(()));
    assert_eq!(item.result, Some(Ok(())));
    assert_eq!(item.id, 9);
    assert_eq!(item.debug, true);
}

#[test]
fn restoring_own_state_keeps_readiness() {
    for ready in [false, true] {
        let mut skill = DummySkill { ready };
        let state = skill.state();
        assert_eq!(skill.restore_from_state(&state), Ok(()));
        assert_eq!(skill.ready(), ready);
        assert_eq!(restore_saved_state(&mut skill), Ok(()));
        assert_eq!(skill.ready(), ready);
    }
}

#[test]
fn state_without_ready_is_rejected() {
    for ready in [false, true] {
        let mut skill = CountingSkill { ready, seen: 3 };
        let states = vec![
            object(vec![("extra", Value::from(8u64))]),
            object(vec![]),
            object(vec![("ready", Value::from("true")), ("extra", Value::from(8u64))]),
            object(vec![("ready", Value::Null)]),
            object(vec![("Ready", Value::from(true))]),
            Value::Null,
            Value::from(true),
            Value::from(vec![Value::from(true)]),
        ];
        for state in states {
            assert_eq!(skill.restore_from_state(&state), Err(SkillError::MissingReadyField));
            assert_eq!(skill.ready(), ready);
            assert_eq!(skill.seen, 3);
        }
    }
}

#[test]
fn extra_state_travels_in_the_envelope() {
    let skill = CountingSkill { ready: true, seen: 41 };
    let state = skill.state();
    assert_eq!(state.get("ready"), Some(&Value::from(true)));
    assert_eq!(state.get("extra"), Some(&Value::from(41u64)));
    assert_eq!(state.as_object().map(|fields| fields.len()), Some(2));

    let mut other = CountingSkill { ready: false, seen: 0 };
    assert_eq!(other.restore_from_state(&state), Ok(()));
    assert_eq!(other.ready(), true);
    assert_eq!(other.seen, 41);

    let without_extra = object(vec![("ready", Value::from(false))]);
    assert_eq!(other.restore_from_state(&without_extra), Ok(()));
    assert_eq!(other.ready(), false);
    assert_eq!(other.seen, 41);
}

#[test]
fn snapshot_holds_ready_and_extra() {
    let state = snapshot(true, Value::from("cache"));
    assert_eq!(state, object(vec![("ready", Value::from(true)), ("extra", Value::from("cache"))]));
    assert_eq!(serde_json::to_string(&state).unwrap().len(), "{\"extra\":\"cache\",\"ready\":true}".len());
    assert_eq!(saved_ready(&state), Some(true));
    assert_eq!(saved_extra(&state), Some(&Value::from("cache")));

    let state = snapshot(false, Value::Null);
    assert_eq!(saved_ready(&state), Some(false));
    assert_eq!(saved_extra(&state), Some(&Value::Null));
}

#[test]
fn saved_parts_of_other_values() {
    assert_eq!(saved_ready(&Value::Null), None);
    assert_eq!(saved_extra(&Value::Null), None);
    assert_eq!(saved_ready(&Value::from(true)), None);
    let state = object(vec![("ready", Value::from(1u64))]);
    assert_eq!(saved_ready(&state), None);
    assert_eq!(saved_extra(&state), None);
}

#[test]
fn stage_without_own_state_saves_null() {
    let skill = DummySkill { ready: true };
    assert_eq!(skill.extra_state(), Value::Null);
    assert_eq!(skill.state().get("extra"), Some(&Value::Null));
    let counting = CountingSkill { ready: true, seen: 5 };
    assert_eq!(counting.extra_state(), Value::from(5u64));
    assert!(counting.is_extra_state(counting.extra_state()));
}
