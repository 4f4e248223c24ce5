use my_telemetry::MyTelemetryContext;
use my_telemetry::TelemetryContextIterator;
use my_telemetry::telemetry_interface::MyTelemetryCompiler;

#[test]
fn round_trip_single() {
    let ctx = MyTelemetryContext::restore(123);
    let text = ctx.as_string();
    assert_eq!(text, "123");
    let back = MyTelemetryContext::parse_from_string(&text).unwrap();
    assert_eq!(back, ctx);
}

#[test]
fn round_trip_single_negative() {
    let ctx = MyTelemetryContext::restore(-5);
    let text = ctx.as_string();
    assert_eq!(text, "-5");
    assert_eq!(MyTelemetryContext::parse_from_string(&text).unwrap(), ctx);
}

#[test]
fn round_trip_single_extremes() {
    for id in [i64::MIN, i64::MAX, 0, 1, -1] {
        let ctx = MyTelemetryContext::restore(id);
        let back = MyTelemetryContext::parse_from_string(&ctx.as_string()).unwrap();
        assert_eq!(back, ctx);
    }
}

#[test]
fn round_trip_multiple() {
    let ctx = MyTelemetryContext::Multiple(vec![1, -2, 3]);
    let text = ctx.as_string();
    assert_eq!(text, "1,-2,3");
    assert_eq!(MyTelemetryContext::parse_from_string(&text).unwrap(), ctx);
}

#[test]
fn round_trip_multiple_extremes() {
    let ctx = MyTelemetryContext::Multiple(vec![i64::MIN, i64::MAX]);
    let text = ctx.as_string();
    assert_eq!(text, "-9223372036854775808,9223372036854775807");
    assert_eq!(MyTelemetryContext::parse_from_string(&text).unwrap(), ctx);
}

#[test]
fn one_id_list_serializes_as_bare_id() {
    // A Multiple of one id has no comma in its text, so it parses back as
    // Single: the one shape the round trip cannot keep.
    let ctx = MyTelemetryContext::Multiple(vec![7]);
    let text = ctx.as_string();
    assert_eq!(text, "7");
    assert_eq!(
        MyTelemetryContext::parse_from_string(&text).unwrap(),
        MyTelemetryContext::Single(7)
    );
}

#[test]
fn empty_context_serializes_as_fresh_id() {
    let ctx = MyTelemetryContext::create_empty();
    let text = ctx.as_string();
    let back = MyTelemetryContext::parse_from_string(&text).unwrap();
    assert!(matches!(back, MyTelemetryContext::Single(_)));
}

#[test]
fn parse_accepts_leading_zeroes() {
    assert_eq!(
        MyTelemetryContext::parse_from_string("007").unwrap(),
        MyTelemetryContext::Single(7)
    );
}

#[test]
fn parse_rejects_bad_input() {
    for bad in [
        "",
        "abc",
        "-",
        "1,,2",
        "1,2x",
        ",1",
        "1,",
        "12.5",
        "9223372036854775808",
        "-9223372036854775809",
        "99999999999999999999999999",
    ] {
        let r = MyTelemetryContext::parse_from_string(bad);
        assert!(r.is_err(), "{bad:?} should not parse");
    }
}

#[test]
fn parse_error_names_the_offending_segment() {
    let err = MyTelemetryContext::parse_from_string("1,oops,3").unwrap_err();
    assert!(err.contains("oops"), "error was: {err}");
}

#[test]
fn parse_accepts_range_limits() {
    assert_eq!(
        MyTelemetryContext::parse_from_string("9223372036854775807").unwrap(),
        MyTelemetryContext::Single(i64::MAX)
    );
    assert_eq!(
        MyTelemetryContext::parse_from_string("-9223372036854775808").unwrap(),
        MyTelemetryContext::Single(i64::MIN)
    );
}

#[test]
fn merge_with_empty_changes_nothing() {
    let mut a = MyTelemetryContext::Single(4);
    a.merge_process(&MyTelemetryContext::Empty);
    assert_eq!(a, MyTelemetryContext::Single(4));

    let mut b = MyTelemetryContext::Multiple(vec![1, 2]);
    b.merge_process(&MyTelemetryContext::Empty);
    assert_eq!(b, MyTelemetryContext::Multiple(vec![1, 2]));

    let mut c = MyTelemetryContext::Empty;
    c.merge_process(&MyTelemetryContext::Single(9));
    assert_eq!(c, MyTelemetryContext::Single(9));

    let mut d = MyTelemetryContext::Empty;
    d.merge_process(&MyTelemetryContext::Empty);
    assert_eq!(d, MyTelemetryContext::Empty);
}

#[test]
fn merge_two_singles_preserves_order() {
    let mut a = MyTelemetryContext::Single(1);
    a.merge_process(&MyTelemetryContext::Single(2));
    assert_eq!(a, MyTelemetryContext::Multiple(vec![1, 2]));
}

#[test]
fn merge_concatenates_id_lists() {
    let mut a = MyTelemetryContext::Multiple(vec![1, 2]);
    a.merge_process(&MyTelemetryContext::Multiple(vec![3, 4]));
    assert_eq!(a, MyTelemetryContext::Multiple(vec![1, 2, 3, 4]));

    let mut b = MyTelemetryContext::Single(5);
    b.merge_process(&MyTelemetryContext::Multiple(vec![6]));
    assert_eq!(b, MyTelemetryContext::Multiple(vec![5, 6]));
}

#[test]
fn compile_folds_left_to_right() {
    let items = vec![
        MyTelemetryContext::Single(1),
        MyTelemetryContext::Multiple(vec![2, 3]),
        MyTelemetryContext::Single(4),
    ];
    let compiled = MyTelemetryContext::compile(&items);
    assert_eq!(compiled, MyTelemetryContext::Multiple(vec![1, 2, 3, 4]));
}

#[test]
fn compile_of_one_keeps_its_shape() {
    let items = vec![MyTelemetryContext::Single(5)];
    assert_eq!(
        MyTelemetryContext::compile(&items),
        MyTelemetryContext::Single(5)
    );
}

#[test]
fn compiler_collects_ids() {
    let mut compiler = MyTelemetryCompiler::new();
    compiler.add(&MyTelemetryContext::Single(1));
    compiler.add(&MyTelemetryContext::Empty);
    compiler.add(&MyTelemetryContext::Multiple(vec![2, 3]));
    assert_eq!(
        compiler.compile(),
        MyTelemetryContext::Multiple(vec![1, 2, 3])
    );
}

#[test]
fn compiler_with_one_id_compiles_to_single() {
    let mut compiler = MyTelemetryCompiler::new();
    compiler.add(&MyTelemetryContext::Single(42));
    assert_eq!(compiler.compile(), MyTelemetryContext::Single(42));
}

#[test]
fn iterator_walks_all_ids_once() {
    let ctx = MyTelemetryContext::Multiple(vec![1, 2]);
    let mut it = TelemetryContextIterator::new(&ctx);
    assert_eq!(it.next(), Some(1));
    assert_eq!(it.next(), Some(2));
    assert_eq!(it.next(), None);
    assert_eq!(it.next(), None);

    let single = MyTelemetryContext::Single(9);
    let mut it = TelemetryContextIterator::new(&single);
    assert_eq!(it.next(), Some(9));
    assert_eq!(it.next(), None);

    let empty = MyTelemetryContext::Empty;
    let mut it = TelemetryContextIterator::new(&empty);
    assert_eq!(it.next(), None);
}

#[test]
fn fresh_context_is_single() {
    let ctx = MyTelemetryContext::new();
    assert!(matches!(ctx, MyTelemetryContext::Single(_)));
}

#[test]
fn clone_preserves_shape() {
    let ctx = MyTelemetryContext::Multiple(vec![1, 2, 3]);
    assert_eq!(ctx.clone(), ctx);
    let empty = MyTelemetryContext::Empty;
    assert_eq!(empty.clone(), empty);
}
