use verdigris_core::error::Error;
use verdigris_core::runtime::{EffectHandle, Reader, Runtime, Writer};
use verdigris_core::value::Value;

fn number(rt: &mut Runtime, reader: Reader) -> i64 {
    match rt.read(reader) {
        Value::Int(n) => n,
        other => panic!("not an integer: {:?}", other),
    }
}

#[test]
fn diamond_runs_the_sink_once_after_both_sources() {
    let mut rt = Runtime::new();
    let (s, set_s) = rt.create(Value::Int(1));
    let (a, set_a) = rt.create(Value::Int(0));
    let (b, set_b) = rt.create(Value::Int(0));
    let mut seen: Vec<(i64, i64)> = Vec::new();

    // The sink is registered first, so that the order of registration is
    // not the order of dependency.
    let sink = rt.register();
    let pair = (number(&mut rt, a), number(&mut rt, b));
    seen.push(pair);
    rt.finish(true).unwrap();

    let left = rt.register();
    let v = number(&mut rt, s);
    rt.write(set_a, Value::Int(v + 1));
    rt.finish(true).unwrap();

    let right = rt.register();
    let v = number(&mut rt, s);
    rt.write(set_b, Value::Int(v * 10));
    rt.finish(true).unwrap();

    let mut order: Vec<EffectHandle> = Vec::new();
    let mut run = |rt: &mut Runtime, seen: &mut Vec<(i64, i64)>, order: &mut Vec<EffectHandle>| {
        while let Some(h) = rt.run_next() {
            order.push(h);
            if h == sink {
                let pair = (number(rt, a), number(rt, b));
                seen.push(pair);
            } else if h == left {
                let v = number(rt, s);
                rt.write(set_a, Value::Int(v + 1));
            } else {
                let v = number(rt, s);
                rt.write(set_b, Value::Int(v * 10));
            }
            rt.finish(true).unwrap();
        }
    };
    run(&mut rt, &mut seen, &mut order);
    assert_eq!(order, vec![sink]);
    assert_eq!(seen, vec![(0, 0), (2, 10)]);

    order.clear();
    assert!(rt.write(set_s, Value::Int(5)));
    assert!(rt.is_dirty(left) && rt.is_dirty(right) && !rt.is_dirty(sink));
    run(&mut rt, &mut seen, &mut order);
    assert_eq!(order, vec![left, right, sink]);
    assert_eq!(seen, vec![(0, 0), (2, 10), (6, 50)]);
    assert!(!rt.pending());
}

#[test]
fn effect_follows_only_what_its_latest_run_read() {
    let mut rt = Runtime::new();
    let (pick_x, set_pick) = rt.create(Value::Flag(true));
    let (x, set_x) = rt.create(Value::Int(1));
    let (y, set_y) = rt.create(Value::Int(2));
    let mut runs = 0;

    let body = |rt: &mut Runtime| {
        let first = matches!(rt.read(pick_x), Value::Flag(true));
        if first {
            number(rt, x)
        } else {
            number(rt, y)
        }
    };
    let h = rt.register();
    assert_eq!(body(&mut rt), 1);
    runs += 1;
    rt.finish(true).unwrap();
    assert!(rt.subscribes(h, x) && !rt.subscribes(h, y));

    assert!(!rt.write(set_y, Value::Int(20)));
    assert_eq!(rt.run_next(), None);
    assert!(rt.write(set_x, Value::Int(10)));
    assert_eq!(rt.run_next(), Some(h));
    assert_eq!(body(&mut rt), 10);
    runs += 1;
    rt.finish(true).unwrap();

    assert!(rt.write(set_pick, Value::Flag(false)));
    assert_eq!(rt.run_next(), Some(h));
    assert_eq!(body(&mut rt), 20);
    runs += 1;
    rt.finish(true).unwrap();
    assert!(!rt.subscribes(h, x) && rt.subscribes(h, y));

    assert!(!rt.write(set_x, Value::Int(11)));
    assert_eq!(rt.run_next(), None);
    assert!(rt.write(set_y, Value::Int(21)));
    assert_eq!(rt.run_next(), Some(h));
    assert_eq!(body(&mut rt), 21);
    runs += 1;
    rt.finish(true).unwrap();
    assert_eq!(runs, 4);
}

#[test]
fn disposed_effect_never_runs_again() {
    let mut rt = Runtime::new();
    let (x, set_x) = rt.create(Value::Int(0));
    let (y, set_y) = rt.create(Value::Int(0));
    let h = rt.register();
    number(&mut rt, x);
    number(&mut rt, y);
    rt.finish(true).unwrap();
    assert!(rt.is_live(h));

    rt.dispose(h);
    assert!(!rt.is_live(h));
    assert!(!rt.subscribes(h, x) && !rt.subscribes(h, y));
    assert!(!rt.write(set_x, Value::Int(1)));
    assert!(!rt.write(set_y, Value::Int(1)));
    assert!(!rt.is_dirty(h));
    assert_eq!(rt.run_next(), None);
    rt.dispose(h);
    rt.dispose(EffectHandle { effect: 99 });
    assert_eq!(rt.run_next(), None);
}

#[test]
fn dirty_effect_that_is_disposed_is_not_run() {
    let mut rt = Runtime::new();
    let (x, set_x) = rt.create(Value::Int(0));
    let h = rt.register();
    number(&mut rt, x);
    rt.finish(true).unwrap();
    assert!(rt.write(set_x, Value::Int(1)));
    assert!(rt.is_dirty(h));
    rt.dispose(h);
    assert!(!rt.is_dirty(h));
    assert!(!rt.pending());
    assert_eq!(rt.run_next(), None);
}

#[test]
fn counter_is_rendered_once_for_each_click() {
    let mut rt = Runtime::new();
    let (count, set_count) = rt.create(Value::Int(0));
    let mut rendered: Vec<String> = Vec::new();

    let h = rt.register();
    rendered.push(format!("Click Me: {}", number(&mut rt, count)));
    rt.finish(true).unwrap();
    assert_eq!(rendered, vec!["Click Me: 0"]);
    rendered.clear();

    for _ in 0..3 {
        let next = match rt.peek(count) {
            Value::Int(n) => n + 1,
            _ => unreachable!(),
        };
        assert!(rt.write(set_count, Value::Int(next)));
        while let Some(e) = rt.run_next() {
            assert_eq!(e, h);
            rendered.push(format!("Click Me: {}", number(&mut rt, count)));
            rt.finish(true).unwrap();
        }
    }
    assert_eq!(rendered, vec!["Click Me: 1", "Click Me: 2", "Click Me: 3"]);
    assert_eq!(rt.version(count), 3);
}

#[test]
fn write_replaces_the_value_and_raises_the_version() {
    let mut rt = Runtime::new();
    let (r, w) = rt.create(Value::Text("a".to_string()));
    assert_eq!((r, w), (Reader { signal: 0 }, Writer { signal: 0 }));
    assert_eq!(rt.version(r), 0);
    assert_eq!(rt.read(r), Value::Text("a".to_string()));
    assert!(!rt.write(w, Value::Text("b".to_string())));
    assert_eq!(rt.peek(r), Value::Text("b".to_string()));
    assert_eq!(rt.version(r), 1);
    rt.write(w, Value::Int(7));
    assert_eq!(rt.peek(r), Value::Int(7));
    assert_eq!(rt.version(r), 2);
    let (r2, _) = rt.create(Value::Flag(false));
    assert_eq!(r2.signal, 1);
    assert!(rt.has_signal(r2));
    assert!(!rt.has_signal(Reader { signal: 2 }));
    assert!(!rt.accepts(Writer { signal: 2 }));
}

#[test]
fn write_of_an_equal_value_makes_no_effect_dirty() {
    let mut rt = Runtime::new();
    let (r, w) = rt.create(Value::Int(4));
    let h = rt.register();
    number(&mut rt, r);
    rt.finish(true).unwrap();
    assert!(!rt.write(w, Value::Int(4)));
    assert_eq!(rt.version(r), 1);
    assert!(!rt.is_dirty(h));
    assert_eq!(rt.run_next(), None);
    assert!(rt.write(w, Value::Flag(true)));
    assert!(rt.is_dirty(h));
}

#[test]
fn failing_effect_is_reported_and_the_others_still_run() {
    let mut rt = Runtime::new();
    let (r, w) = rt.create(Value::Int(0));
    let bad = rt.register();
    number(&mut rt, r);
    rt.finish(true).unwrap();
    let good = rt.register();
    number(&mut rt, r);
    rt.finish(true).unwrap();

    assert!(rt.write(w, Value::Int(1)));
    let mut reports: Vec<Error> = Vec::new();
    let mut ran: Vec<EffectHandle> = Vec::new();
    while let Some(h) = rt.run_next() {
        ran.push(h);
        number(&mut rt, r);
        if let Err(e) = rt.finish(h != bad) {
            reports.push(e);
        }
    }
    assert_eq!(ran, vec![bad, good]);
    assert_eq!(reports, vec![Error::EffectExecution { effect: bad.effect }]);
    assert!(rt.has_failed(bad) && !rt.has_failed(good));
    assert!(rt.is_live(bad));

    assert!(rt.write(w, Value::Int(2)));
    assert_eq!(rt.run_next(), Some(bad));
    number(&mut rt, r);
    assert_eq!(rt.finish(true), Ok(()));
    assert!(!rt.has_failed(bad));
}

#[test]
fn no_run_is_chosen_while_one_is_open() {
    let mut rt = Runtime::new();
    let (r, w) = rt.create(Value::Int(0));
    let first = rt.register();
    number(&mut rt, r);
    rt.finish(true).unwrap();
    assert_eq!(rt.current(), None);
    assert_eq!(rt.finish(false), Ok(()));

    assert!(rt.write(w, Value::Int(1)));
    let outer = rt.register();
    assert_eq!(rt.current(), Some(outer));
    assert_eq!(rt.run_next(), None);
    let inner = rt.register();
    assert_eq!(rt.current(), Some(inner));
    rt.finish(true).unwrap();
    assert_eq!(rt.current(), Some(outer));
    rt.finish(true).unwrap();
    assert_eq!(rt.run_next(), Some(first));
}

#[test]
fn effect_that_writes_what_it_reads_is_dirty_again() {
    let mut rt = Runtime::new();
    let (r, w) = rt.create(Value::Int(0));
    let h = rt.register();
    let v = number(&mut rt, r);
    assert!(rt.write(w, Value::Int(v + 1)));
    rt.finish(true).unwrap();
    assert!(rt.is_dirty(h));
    assert_eq!(rt.run_next(), Some(h));
    number(&mut rt, r);
    rt.finish(true).unwrap();
    assert!(!rt.pending());
}

#[test]
fn effects_in_a_cycle_still_get_their_turn() {
    let mut rt = Runtime::new();
    let (p, set_p) = rt.create(Value::Int(0));
    let (q, set_q) = rt.create(Value::Int(0));
    let one = rt.register();
    number(&mut rt, q);
    rt.write(set_p, Value::Int(1));
    rt.finish(true).unwrap();
    let two = rt.register();
    number(&mut rt, p);
    rt.write(set_q, Value::Int(1));
    rt.finish(true).unwrap();
    assert!(rt.is_dirty(one));
    rt.write(set_p, Value::Int(2));
    assert!(rt.is_dirty(two));
    assert_eq!(rt.run_next(), Some(one));
}

#[test]
fn disposing_a_scope_takes_what_was_made_within_it() {
    let mut rt = Runtime::new();
    let (outside, set_outside) = rt.create(Value::Int(0));
    let parent = rt.register();
    let (inside, _) = rt.create(Value::Int(0));
    let child = rt.register();
    let (deep, _) = rt.create(Value::Int(0));
    number(&mut rt, outside);
    let grandchild = rt.register();
    number(&mut rt, outside);
    rt.finish(true).unwrap();
    rt.finish(true).unwrap();
    rt.finish(true).unwrap();
    let other = rt.register();
    number(&mut rt, outside);
    rt.finish(true).unwrap();

    rt.dispose_scope(child);
    assert!(rt.is_live(parent) && rt.is_live(other));
    assert!(!rt.is_live(child) && !rt.is_live(grandchild));
    assert!(rt.has_signal(outside) && rt.has_signal(inside));
    assert!(!rt.has_signal(deep));
    assert!(rt.write(set_outside, Value::Int(1)));
    assert_eq!(rt.run_next(), Some(other));
    rt.finish(true).unwrap();
    assert_eq!(rt.run_next(), None);

    rt.dispose_scope(parent);
    assert!(!rt.is_live(parent));
    assert!(!rt.has_signal(inside));
    assert!(rt.has_signal(outside) && rt.is_live(other));
}

#[test]
fn values_are_shown_as_text() {
    assert_eq!(Value::Int(0).to_text(), "0");
    assert_eq!(Value::Int(7).to_text(), "7");
    assert_eq!(Value::Int(10).to_text(), "10");
    assert_eq!(Value::Int(-1).to_text(), "-1");
    assert_eq!(Value::Int(1234567890).to_text(), "1234567890");
    assert_eq!(Value::Int(i64::MAX).to_text(), "9223372036854775807");
    assert_eq!(Value::Int(i64::MIN).to_text(), "-9223372036854775808");
    assert_eq!(Value::Int(-9000).to_text(), "-9000");
    assert_eq!(Value::Flag(true).to_text(), "true");
    assert_eq!(Value::Flag(false).to_text(), "false");
    assert_eq!(Value::Text("Click Me: ".to_string()).to_text(), "Click Me: ");
    assert_eq!(Value::Text(String::new()).to_text(), "");
}

#[test]
fn values_compare_by_type_and_content() {
    assert!(Value::Int(1).same(&Value::Int(1)));
    assert!(!Value::Int(1).same(&Value::Int(2)));
    assert!(!Value::Int(1).same(&Value::Flag(true)));
    assert!(Value::Text("x".to_string()).same(&Value::Text("x".to_string())));
    assert!(!Value::Text("x".to_string()).same(&Value::Text("y".to_string())));
    let v = Value::Text("copy".to_string());
    assert_eq!(v.duplicate(), v);
    assert_eq!(v.clone(), v);
}
