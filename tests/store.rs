use buildstreak::codec::{decode_counter, encode_counter};
use buildstreak::config::{dirname, resolve_root, MARKER_FILE_NAME};
use buildstreak::counter::Counter;
use buildstreak::day::{file_name_for, todays_file, DayDate};
use buildstreak::render::{band, render, status_line, Band};
use buildstreak::store::{
    execute, fail, load, reset, save, status, success, tmux, Effect, Operation, StoreError,
};
use std::collections::HashMap;

const AHEAD_2_1: &str =
    "#[fg=colour237,bg=colour234]\u{e0b2}#[bg=colour237,fg=colour255] 2 | 1 #[fg=colour234,bg=colour237]\u{e0b2}";

fn apply(file: &mut Option<String>, e: &Effect) {
    if let Some(w) = &e.write {
        *file = Some(w.clone());
    }
}

#[test]
fn fresh_store_success_success_fail() {
    let mut file: Option<String> = None;
    for op in [Operation::Success, Operation::Success, Operation::Fail] {
        let e = execute(op, true, file.as_deref()).unwrap();
        assert_eq!(e.output, "");
        apply(&mut file, &e);
    }
    assert_eq!(file.as_deref(), Some("2\n1"));
    let s = execute(Operation::Status, true, file.as_deref()).unwrap();
    assert_eq!(s.output, "2 | 1\n");
    assert!(s.write.is_none());
    let t = execute(Operation::Tmux, true, file.as_deref()).unwrap();
    assert_eq!(t.output, AHEAD_2_1);
    assert!(t.write.is_none());
}

#[test]
fn counts_follow_calls() {
    let outcomes = [true, false, false, true, false, true, true, false, false, false];
    let mut file: Option<String> = None;
    for ok in outcomes {
        let e = if ok { success(file.as_deref()) } else { fail(file.as_deref()) }.unwrap();
        apply(&mut file, &e);
    }
    let c = load(file.as_deref()).counter;
    assert_eq!(c, Counter::new(4, 6));
}

#[test]
fn reset_gives_zero_whatever_was_stored() {
    for prior in [None, Some("5\n3"), Some("garbage"), Some("1\n2\n3")] {
        let mut file: Option<String> = prior.map(|s| s.to_string());
        let e = execute(Operation::Reset, true, file.as_deref()).unwrap();
        apply(&mut file, &e);
        assert_eq!(file.as_deref(), Some("0\n0"));
        assert_eq!(load(file.as_deref()).counter, Counter::zero());
    }
    assert_eq!(reset().write.as_deref(), Some("0\n0"));
    assert_eq!(reset().output, "");
}

#[test]
fn save_then_load_round_trip() {
    for (s, f) in [(0, 0), (1, 0), (0, 1), (12, 345), (usize::MAX, usize::MAX), (10, 100)] {
        let c = Counter::new(s, f);
        let text = save(c);
        let l = load(Some(&text));
        assert_eq!(l.counter, c);
        assert!(!l.rewrite);
    }
    assert_eq!(encode_counter(Counter::new(12, 0)), "12\n0");
}

#[test]
fn corrupt_file_loads_zero_and_is_rewritten() {
    for text in ["", "abc", "7", "1\n2\n3", "\n\n", "1\n2\n"] {
        let l = load(Some(text));
        assert_eq!(l.counter, Counter::zero());
        assert!(l.rewrite, "{:?}", text);
        let e = status(Some(text));
        assert_eq!(e.write.as_deref(), Some("0\n0"));
        assert_eq!(e.output, "0 | 0\n");
        let t = tmux(Some(text));
        assert_eq!(t.write.as_deref(), Some("0\n0"));
    }
}

#[test]
fn missing_file_is_created_zero() {
    let l = load(None);
    assert_eq!(l.counter, Counter::zero());
    assert!(l.rewrite);
    let e = status(None);
    assert_eq!(e.write.as_deref(), Some("0\n0"));
    assert_eq!(e.output, "0 | 0\n");
}

#[test]
fn non_numeric_field_counts_as_zero() {
    let l = load(Some("abc\nxyz"));
    assert_eq!(l.counter, Counter::zero());
    assert!(!l.rewrite);
    assert_eq!(load(Some("4\nx")).counter, Counter::new(4, 0));
    assert_eq!(load(Some("-1\n2")).counter, Counter::new(0, 2));
    assert_eq!(load(Some("+5\n007")).counter, Counter::new(5, 7));
    assert_eq!(load(Some(" 5\n3 ")).counter, Counter::new(0, 0));
    assert_eq!(load(Some("+\n3")).counter, Counter::new(0, 3));
}

#[test]
fn field_beyond_usize_counts_as_zero() {
    let max = format!("{}\n1", usize::MAX);
    assert_eq!(decode_counter(&max), Some(Counter::new(usize::MAX, 1)));
    let over = format!("{}0\n1", usize::MAX);
    assert_eq!(decode_counter(&over), Some(Counter::new(0, 1)));
    assert_eq!(decode_counter("only one line"), None);
}

#[test]
fn full_counter_is_refused() {
    let text = format!("{}\n0", usize::MAX);
    assert_eq!(success(Some(&text)).unwrap_err(), StoreError::CounterFull);
    let e = fail(Some(&text)).unwrap();
    assert_eq!(e.write, Some(format!("{}\n1", usize::MAX)));
    let text = format!("3\n{}", usize::MAX);
    assert_eq!(
        execute(Operation::Fail, true, Some(&text)).unwrap_err(),
        StoreError::CounterFull
    );
}

#[test]
fn render_bands() {
    assert_eq!(
        render(Counter::new(3, 3)),
        "#[fg=colour66,bg=colour234]\u{e0b2}#[bg=colour66,fg=colour234] 3 | 3 #[fg=colour234,bg=colour66]\u{e0b2}"
    );
    assert_eq!(render(Counter::new(2, 1)), AHEAD_2_1);
    assert_eq!(
        render(Counter::new(0, 10)),
        "#[fg=colour196,bg=colour234]\u{e0b2}#[bg=colour196,fg=colour234] 0 | 10 #[fg=colour234,bg=colour196]\u{e0b2}"
    );
    assert_eq!(band(Counter::new(0, 0)), Band::Tie);
    assert_eq!(band(Counter::new(1, 0)), Band::Ahead);
    assert_eq!(band(Counter::new(0, 1)), Band::Behind);
    assert_eq!(status_line(Counter::new(2, 1)), "2 | 1");
}

#[test]
fn uninitialized_render_is_empty_and_status_fails() {
    let t = execute(Operation::Tmux, false, None).unwrap();
    assert_eq!(t.output, "");
    assert!(t.write.is_none());
    for op in [Operation::Status, Operation::Success, Operation::Fail, Operation::Reset] {
        assert_eq!(execute(op, false, None).unwrap_err(), StoreError::NotInitialized);
    }
}

#[test]
fn day_file_names() {
    assert_eq!(file_name_for(DayDate { year: 2024, month: 3, day: 7 }), "07-03-24.streak");
    assert_eq!(file_name_for(DayDate { year: 2000, month: 12, day: 31 }), "31-12-00.streak");
    assert_eq!(file_name_for(DayDate { year: 1999, month: 1, day: 1 }), "01-01-99.streak");
    assert_eq!(file_name_for(DayDate { year: -1, month: 6, day: 15 }), "15-06-99.streak");
    let today = todays_file().expect("the clock reads a date");
    assert_eq!(today.len(), 15);
    assert!(today.ends_with(".streak"));
    assert_eq!(&today[2..3], "-");
}

#[test]
fn two_days_are_independent() {
    let day_a = file_name_for(DayDate { year: 2024, month: 3, day: 7 });
    let day_b = file_name_for(DayDate { year: 2024, month: 3, day: 8 });
    assert_ne!(day_a, day_b);
    let mut files: HashMap<String, String> = HashMap::new();
    for (name, op) in [
        (&day_a, Operation::Success),
        (&day_a, Operation::Fail),
        (&day_a, Operation::Success),
        (&day_b, Operation::Fail),
        (&day_b, Operation::Reset),
        (&day_b, Operation::Fail),
    ] {
        let e = execute(op, true, files.get(name).map(|s| s.as_str())).unwrap();
        if let Some(w) = e.write {
            files.insert(name.clone(), w);
        }
    }
    assert_eq!(files.get(&day_a).map(|s| s.as_str()), Some("2\n1"));
    assert_eq!(files.get(&day_b).map(|s| s.as_str()), Some("0\n1"));
}

#[test]
fn config_resolution() {
    assert_eq!(dirname(), "buildstreak");
    assert_eq!(MARKER_FILE_NAME, ".buildstreak");
    assert_eq!(resolve_root(None), Err(StoreError::NotInitialized));
    assert_eq!(resolve_root(Some("some/dir".to_string())), Ok("some/dir".to_string()));
}

#[test]
fn render_of_missing_and_behind_files() {
    let t = tmux(None);
    assert_eq!(
        t.output,
        "#[fg=colour66,bg=colour234]\u{e0b2}#[bg=colour66,fg=colour234] 0 | 0 #[fg=colour234,bg=colour66]\u{e0b2}"
    );
    assert_eq!(t.write.as_deref(), Some("0\n0"));
    let b = tmux(Some("0\n3"));
    assert_eq!(
        b.output,
        "#[fg=colour196,bg=colour234]\u{e0b2}#[bg=colour196,fg=colour234] 0 | 3 #[fg=colour234,bg=colour196]\u{e0b2}"
    );
    assert!(b.write.is_none());
    let bytes = b.output.as_bytes();
    assert_eq!(&bytes[bytes.len() - 3..], &[0xEE, 0x82, 0xB2]);
}
