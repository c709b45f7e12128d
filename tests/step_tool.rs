use inngest::step_tool::{Error, StepTool};
use serde_json::Value;
use std::cell::Cell;

fn memo(entries: &[(&str, Option<Value>)]) -> Vec<(String, Option<Value>)> {
    entries.iter().map(|(k, v)| (k.to_string(), v.clone())).collect()
}

#[test]
fn completed_step_is_replayed_without_running() {
    let runs = Cell::new(0);
    let mut tool = StepTool::new(memo(&[("a", Some(Value::from(7)))]));
    for _ in 0..2 {
        let r = tool.run("a", || {
            runs.set(runs.get() + 1);
            Ok(Value::from(99))
        });
        assert!(matches!(r, Ok(v) if v == Value::from(7)));
    }
    assert_eq!(runs.get(), 0);
    let (pending, error) = tool.into_parts();
    assert!(pending.is_none());
    assert!(error.is_none());
}

#[test]
fn later_memo_entry_overrides_earlier() {
    let mut tool = StepTool::new(memo(&[("a", Some(Value::from(1))), ("a", Some(Value::from(2)))]));
    let r = tool.run("a", || Ok(Value::Null));
    assert!(matches!(r, Ok(v) if v == Value::from(2)));
}

#[test]
fn null_memo_entry_runs_the_step() {
    let mut tool = StepTool::new(memo(&[("a", None)]));
    let r = tool.run("a", || Ok(Value::from("x")));
    assert!(matches!(r, Err(Error::Interrupt)));
    let (pending, _) = tool.into_parts();
    let op = pending.unwrap();
    assert_eq!(op.name, "a");
    assert_eq!(op.data, Value::from("x"));
}

#[test]
fn second_new_step_is_skipped() {
    let runs_b = Cell::new(0);
    let mut tool = StepTool::new(Vec::new());
    let ra = tool.run("a", || Ok(Value::from(1)));
    assert!(matches!(ra, Err(Error::Interrupt)));
    let rb = tool.run("b", || {
        runs_b.set(runs_b.get() + 1);
        Ok(Value::from(2))
    });
    assert!(matches!(rb, Err(Error::Interrupt)));
    assert_eq!(runs_b.get(), 0);
    let (pending, error) = tool.into_parts();
    assert_eq!(pending.unwrap().name, "a");
    assert!(error.is_none());
}

#[test]
fn failing_step_is_recorded_as_error() {
    let mut tool = StepTool::new(Vec::new());
    let r = tool.run("a", || Err("boom".to_string()));
    assert!(matches!(r, Err(Error::Interrupt)));
    let (pending, error) = tool.into_parts();
    assert!(pending.is_none());
    let e = error.unwrap();
    assert_eq!(e.name, "a");
    assert_eq!(e.message, "boom");
}

#[test]
fn two_tools_do_not_share_state() {
    let mut t1 = StepTool::new(memo(&[("a", Some(Value::from(1)))]));
    let mut t2 = StepTool::new(memo(&[("b", Some(Value::from(2)))]));
    let r1 = t1.run("b", || Ok(Value::from("one")));
    let r2 = t2.run("a", || Ok(Value::from("two")));
    assert!(matches!(r1, Err(Error::Interrupt)));
    assert!(matches!(r2, Err(Error::Interrupt)));
    let r1a = t1.run("a", || Ok(Value::Null));
    assert!(matches!(r1a, Ok(v) if v == Value::from(1)));
    let (p1, _) = t1.into_parts();
    let (p2, _) = t2.into_parts();
    let p1 = p1.unwrap();
    let p2 = p2.unwrap();
    assert_eq!((p1.name.as_str(), p1.data), ("b", Value::from("one")));
    assert_eq!((p2.name.as_str(), p2.data), ("a", Value::from("two")));
}
