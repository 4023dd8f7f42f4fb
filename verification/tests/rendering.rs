use dbc::decimal::{render_signed, render_unsigned};
use dbc::{diagnostic, formatvar, BuildMode, ContractKind, DebugText, NamedValue, Rectangle};

#[test]
fn unsigned_numbers_render_in_decimal() {
    assert_eq!(render_unsigned(0), "0");
    assert_eq!(render_unsigned(7), "7");
    assert_eq!(render_unsigned(10), "10");
    assert_eq!(render_unsigned(1234567890), "1234567890");
    assert_eq!(render_unsigned(u64::MAX), "18446744073709551615");
}

#[test]
fn signed_numbers_render_with_their_sign() {
    assert_eq!(render_signed(0), "0");
    assert_eq!(render_signed(-1), "-1");
    assert_eq!(render_signed(34), "34");
    assert_eq!(render_signed(i64::MAX), "9223372036854775807");
    assert_eq!(render_signed(i64::MIN), "-9223372036854775808");
}

#[test]
fn integers_render_as_their_debug_text() {
    for i in [0i32, 1, -1, 9, 10, -10, 99, 100, 234, i32::MAX, i32::MIN] {
        assert_eq!(i.debug_text(), format!("{:?}", i));
    }
    for i in [0i64, -5, 1 << 40, i64::MAX, i64::MIN] {
        assert_eq!(i.debug_text(), format!("{:?}", i));
    }
    for u in [0u32, 5, 4096, u32::MAX] {
        assert_eq!(u.debug_text(), format!("{:?}", u));
    }
    for u in [0u64, 5, 1 << 50, u64::MAX] {
        assert_eq!(u.debug_text(), format!("{:?}", u));
    }
}

#[test]
fn strings_render_quoted() {
    assert_eq!("My message".debug_text(), "\"My message\"");
    assert_eq!("".debug_text(), "\"\"");
    assert_eq!("a \"b\"\n".debug_text(), "\"a \\\"b\\\"\\n\"");
    assert_eq!(String::from("back\\slash").debug_text(), "\"back\\\\slash\"");
    assert_ne!("plain".debug_text(), "plain");
}

#[test]
fn rectangles_render_with_their_fields() {
    let r = Rectangle { length: 100, width: 0 };
    assert_eq!(r.debug_text(), "Rectangle { length: 100, width: 0 }");
    assert_eq!(r.debug_text(), format!("{:?}", r));
    let s = Rectangle { length: -3, width: i32::MIN };
    assert_eq!(s.debug_text(), format!("{:?}", s));
}

#[test]
fn named_values_keep_name_and_text() {
    let v = NamedValue::new("x", "1 + 1");
    assert_eq!(v.name, "x");
    assert_eq!(v.text, "1 + 1");
    let w = NamedValue::of("count", &-12i32);
    assert_eq!(w.name, "count");
    assert_eq!(w.text, "-12");
}

#[test]
fn dump_of_one_variable() {
    assert_eq!(formatvar(&[NamedValue::of("a", &34i32)]), "a=34");
}

#[test]
fn dump_keeps_the_order_and_repeats() {
    let dump = formatvar(&[
        NamedValue::of("b", &2i32),
        NamedValue::of("a", &1i32),
        NamedValue::of("b", &2i32),
    ]);
    assert_eq!(dump, "b=2 a=1 b=2");
}

#[test]
fn dump_of_two_lists_is_the_two_dumps_with_a_space() {
    let front = [NamedValue::of("msg", "hi"), NamedValue::of("a", &3i32)];
    let back = [NamedValue::of("r", &Rectangle { length: 1, width: 2 })];
    let all = [
        NamedValue::of("msg", "hi"),
        NamedValue::of("a", &3i32),
        NamedValue::of("r", &Rectangle { length: 1, width: 2 }),
    ];
    assert_eq!(formatvar(&all), format!("{} {}", formatvar(&front), formatvar(&back)));
    assert_eq!(formatvar(&all), "msg=\"hi\" a=3 r=Rectangle { length: 1, width: 2 }");
}

#[test]
fn dump_is_the_same_every_time() {
    let vars = [NamedValue::of("a", &34i32), NamedValue::of("msg", "My message")];
    assert_eq!(formatvar(&vars), formatvar(&vars));
}

#[test]
fn kinds_have_their_tags() {
    assert_eq!(ContractKind::Precondition.tag(), "REQUIRE");
    assert_eq!(ContractKind::Postcondition.tag(), "ENSURE");
    assert_eq!(ContractKind::Invariant.tag(), "INVARIANT");
}

#[test]
fn build_mode_follows_the_debug_assertions_switch() {
    assert_eq!(BuildMode::from_debug_assertions(true), BuildMode::Debug);
    assert_eq!(BuildMode::from_debug_assertions(false), BuildMode::Optimized);
    assert!(BuildMode::Debug.checks_active());
    assert!(!BuildMode::Optimized.checks_active());
}

#[test]
fn diagnostic_without_variables() {
    assert_eq!(
        diagnostic(ContractKind::Precondition, "src/main.rs", 42, &[]),
        "panic: REQUIRE:\nfile: src/main.rs:42\n"
    );
    assert_eq!(
        diagnostic(ContractKind::Postcondition, "a.rs", 0, &[]),
        "panic: ENSURE:\nfile: a.rs:0\n"
    );
}

#[test]
fn diagnostic_with_variables() {
    let vars = [NamedValue::of("msg", "This is a test"), NamedValue::of("a", &3i32)];
    assert_eq!(
        diagnostic(ContractKind::Invariant, "src/shape.rs", 4294967295, &vars),
        "panic: INVARIANT:\nfile: src/shape.rs:4294967295\nvars:\nmsg=\"This is a test\" a=3\n"
    );
}
