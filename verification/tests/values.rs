use cel_memory::sort::sort_by_time;
use cel_memory::summarizer::map_summarizer_error;
use cel_memory::table::Table;
use cel_memory::text::{copy_opt, decimal_text, is_blank};
use cel_memory::{Date, Importance, Json, MemoryError, SummarizerError, Timestamp};

fn score(f: f32) -> Importance {
    Importance { bits: f.to_bits() }
}

#[test]
fn blank_is_what_trims_to_nothing() {
    let white = [
        '\u{9}', '\u{a}', '\u{b}', '\u{c}', '\u{d}', ' ', '\u{85}', '\u{a0}', '\u{1680}',
        '\u{2000}', '\u{2001}', '\u{2002}', '\u{2003}', '\u{2004}', '\u{2005}', '\u{2006}',
        '\u{2007}', '\u{2008}', '\u{2009}', '\u{200a}', '\u{2028}', '\u{2029}', '\u{202f}',
        '\u{205f}', '\u{3000}',
    ];
    for c in white {
        assert!(is_blank(&c.to_string()));
        assert!(!is_blank(&format!("{c}x{c}")));
    }
    assert!(is_blank(""));
    assert!(!is_blank("\u{200b}"));
    assert!(!is_blank("\u{feff}"));
    assert!(!is_blank("\u{180e}"));
    for code in 0..=0x10ffffu32 {
        if let Some(c) = char::from_u32(code) {
            assert_eq!(white.contains(&c), c.is_whitespace());
        }
    }
}

#[test]
fn numbers_are_written_in_decimal() {
    assert_eq!(decimal_text(0), "0");
    assert_eq!(decimal_text(9), "9");
    assert_eq!(decimal_text(10), "10");
    assert_eq!(decimal_text(1_234_567_890), "1234567890");
    assert_eq!(decimal_text(usize::MAX), format!("{}", usize::MAX));
    assert_eq!(copy_opt(&Some("x".to_string())).as_deref(), Some("x"));
    assert_eq!(copy_opt(&None), None);
}

#[test]
fn instants_stay_in_range() {
    assert!(Timestamp::new(-8_334_601_228_800, 0).is_some());
    assert!(Timestamp::new(-8_334_601_228_801, 0).is_none());
    assert!(Timestamp::new(8_210_266_876_799, 1_999_999_999).is_some());
    assert!(Timestamp::new(8_210_266_876_800, 0).is_none());
    assert!(Timestamp::new(0, 2_000_000_000).is_none());
    let t = Timestamp::new(-5, 7).unwrap();
    assert_eq!(t.unix_secs(), -5);
    assert_eq!(t.subsec_nanos(), 7);
    let first = Timestamp::new(-8_334_601_228_800, 0).unwrap();
    let last = Timestamp::new(8_210_266_876_799, 0).unwrap();
    assert_eq!(first.date().to_text(), "-262143-01-01");
    assert_eq!(last.date().to_text(), "+262142-12-31");
    assert_eq!(
        chrono::DateTime::<chrono::Utc>::MIN_UTC.timestamp(),
        first.unix_secs()
    );
    assert_eq!(
        chrono::DateTime::<chrono::Utc>::MAX_UTC.timestamp(),
        last.unix_secs()
    );
}

#[test]
fn instants_are_ordered_by_second_and_nanosecond() {
    let t = |s, n| Timestamp::new(s, n).unwrap();
    assert!(t(1, 5).is_before(&t(2, 0)));
    assert!(t(1, 5).is_before(&t(1, 6)));
    assert!(!t(1, 5).is_before(&t(1, 5)));
    assert!(!t(2, 0).is_before(&t(1, 999_999_999)));
    assert!(t(-2, 0).is_before(&t(-1, 0)));
    assert!(t(1, 1_500_000_000).is_before(&t(2, 0)));
}

#[test]
fn instants_fall_on_days() {
    let t = |s| Timestamp::new(s, 0).unwrap().date();
    assert_eq!(t(0).number(), 719_163);
    assert_eq!(t(-1).number(), 719_162);
    assert_eq!(t(86_399).number(), 719_163);
    assert_eq!(t(86_400).number(), 719_164);
    assert_eq!(t(0).to_text(), "1970-01-01");
    assert_eq!(t(-1).to_text(), "1969-12-31");
    assert_eq!(t(1_779_494_400).to_text(), "2026-05-23");
}

#[test]
fn the_clock_runs_after_the_epoch() {
    let now = Timestamp::now();
    assert!(now.unix_secs() > 1_577_836_800);
    assert!(now.subsec_nanos() < 1_000_000_000);
    assert!(!Timestamp::now().is_before(&now));
}

#[test]
fn days_are_taken_off_an_instant() {
    let t = Timestamp::new(1_779_494_407, 89).unwrap();
    let earlier = t.minus_days(30);
    assert_eq!(earlier.unix_secs(), 1_779_494_407 - 30 * 86_400);
    assert_eq!(earlier.subsec_nanos(), 89);
    assert_eq!(t.minus_days(0), t);
    let first = Timestamp::new(-8_334_601_228_800 + 86_400, 0).unwrap().minus_days(1);
    assert_eq!(first.unix_secs(), -8_334_601_228_800);
}

#[test]
fn days_are_counted_forward_up_to_the_last() {
    let d = Date::new(739_759).unwrap();
    assert_eq!(d.to_text(), "2026-05-23");
    assert_eq!(d.plus_days(0).unwrap(), d);
    assert_eq!(d.plus_days(7).unwrap().to_text(), "2026-05-30");
    assert_eq!(d.plus_days(9).unwrap().to_text(), "2026-06-01");
    assert!(d.plus_days(u32::MAX).is_none());
    let last = Date::new(95_745_399).unwrap();
    assert!(last.plus_days(1).is_none());
    assert_eq!(last.plus_days(0).unwrap().number(), 95_745_399);
    assert!(Date::new(95_745_400).is_none());
    assert!(Date::new(-95_746_129).is_some());
    assert!(Date::new(-95_746_130).is_none());
    assert_eq!(Date::new(1).unwrap().to_text(), "0001-01-01");
    assert_eq!(Date::new(0).unwrap().to_text(), "0000-12-31");
}

#[test]
fn scores_compare_as_the_numbers_do() {
    let numbers = [
        f32::NEG_INFINITY,
        f32::MIN,
        -1.5,
        -f32::MIN_POSITIVE,
        -1.0e-45,
        -0.0,
        0.0,
        1.0e-45,
        f32::MIN_POSITIVE,
        0.1,
        0.5,
        1.0,
        f32::MAX,
        f32::INFINITY,
        f32::NAN,
        -f32::NAN,
    ];
    for a in numbers {
        for b in numbers {
            assert_eq!(score(a).is_below(&score(b)), a < b);
            assert_eq!(score(a).is_at_least(&score(b)), a >= b);
        }
    }
    assert_eq!(Importance::zero(), score(0.0));
}

#[test]
fn json_texts_are_found_by_key() {
    let j = Json::Object(vec![
        ("a".to_string(), Json::Text("x".to_string())),
        ("n".to_string(), Json::PosInt(1)),
        ("a".to_string(), Json::Text("y".to_string())),
    ]);
    assert_eq!(j.get_text("a").map(|s| s.as_str()), Some("y"));
    assert!(j.get_text("n").is_none());
    assert!(j.get_text("z").is_none());
    assert!(Json::Null.get_text("a").is_none());
    assert!(Json::Array(vec![Json::Text("a".to_string())]).get_text("a").is_none());
    let copy = Json::Array(vec![j.clone(), Json::NegInt(-1), Json::Float(0), Json::Bool(true)]);
    assert!(matches!(
        copy.clone(),
        Json::Array(v) if v.len() == 4
            && v[0].get_text("a").map(|s| s.as_str()) == Some("y")
            && matches!(v[1], Json::NegInt(-1))
            && matches!(v[3], Json::Bool(true))
    ));
}

#[test]
fn a_table_keeps_one_value_per_key() {
    let mut t: Table<u32> = Table::new();
    t.insert("a".to_string(), 1);
    t.insert("b".to_string(), 2);
    t.insert("a".to_string(), 3);
    assert_eq!(t.len(), 2);
    assert_eq!(t.get("a"), Some(&3));
    assert_eq!(t.get("c"), None);
    assert!(t.contains_key("b"));
    assert_eq!(t.find("b"), Some(1));
    t.set(1, 5);
    assert_eq!(*t.at(1), 5);
    t.insert("c".to_string(), 6);
    assert_eq!(t.remove("a"), Some(3));
    assert_eq!((t.find("b"), t.find("c")), (Some(0), Some(1)));
    t.remove("c");
    t.insert("a".to_string(), 7);
    assert_eq!(t.remove("b"), Some(5));
    assert_eq!(t.remove("b"), None);
    assert_eq!(t.len(), 1);
    t.clear();
    assert_eq!(t.len(), 0);
}

#[test]
fn sorting_keeps_every_entry() {
    let t = |s| Timestamp::new(s, 0).unwrap();
    let v = vec![(t(3), 0), (t(1), 1), (t(2), 2), (t(1), 3)];
    let places = |newest| {
        let s = sort_by_time(&v, newest);
        s.iter().map(|e| e.0.unix_secs()).collect::<Vec<i64>>()
    };
    assert_eq!(places(false), [1, 1, 2, 3]);
    assert_eq!(places(true), [3, 2, 1, 1]);
    assert!(sort_by_time(&vec![], true).is_empty());
}

#[test]
fn summarizer_failures_are_reported() {
    assert!(matches!(
        map_summarizer_error("mock", SummarizerError::NoInput),
        MemoryError::InvalidArgument(s) if s == "summarizer received no input"
    ));
    assert!(matches!(
        map_summarizer_error("mock", SummarizerError::Failed("quota".to_string())),
        MemoryError::Provider(s) if s == "summarizer mock failed: quota"
    ));
}
