use dbc::{check_invariant, ensure, formatvar, require, BuildMode, DebugText, NamedValue, Rectangle};

#[derive(Debug)]
struct AA(i32);

#[derive(Debug)]
struct BB(AA);

impl DebugText for BB {
    fn debug_text(&self) -> String {
        format!("{:?}", self)
    }
}

fn abort_on(outcome: Option<String>) {
    if let Some(text) = outcome {
        panic!("{}", text);
    }
}

#[test]
#[should_panic]
fn test_require_asserts() {
    abort_on(require(BuildMode::Debug, false, "src/lib.rs", 261, &[]));
}

#[test]
fn test_require_does_not_assert() {
    abort_on(require(BuildMode::Debug, true, "src/lib.rs", 266, &[]));
}

#[test]
#[should_panic]
fn test_ensure_asserts() {
    abort_on(ensure(BuildMode::Debug, false, "src/lib.rs", 272, &[]));
}

#[test]
fn test_ensure_does_not_assert() {
    abort_on(ensure(BuildMode::Debug, true, "src/lib.rs", 277, &[]));
}

#[test]
fn test_formatvar() {
    let a = 34;
    let b = BB(AA(234));
    let msg = "My message";

    assert!(formatvar(&[NamedValue::of("a", &a)]) == "a=34");
    assert!(formatvar(&[NamedValue::of("b", &b)]) == "b=BB(AA(234))");
    assert!(formatvar(&[NamedValue::of("msg", msg)]) == "msg=\"My message\"");
    assert!(
        formatvar(&[NamedValue::of("msg", msg), NamedValue::of("a", &a), NamedValue::of("b", &b)])
            == "msg=\"My message\" a=34 b=BB(AA(234))"
    );
}

#[test]
fn test_invariant() {
    let r = Rectangle { length: 100, width: 30 };

    abort_on(check_invariant(BuildMode::Debug, "r", &r, "src/lib.rs", 305, &[]));
}

#[test]
#[should_panic]
fn test_invariant_asserts() {
    let r = Rectangle { length: 100, width: 0 };

    abort_on(check_invariant(BuildMode::Debug, "r", &r, "src/lib.rs", 316, &[]));
}
