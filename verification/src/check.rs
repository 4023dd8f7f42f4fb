//! Checking contracts: the switch that the build mode sets, the decision
//! whether a contract is violated, and the invariant protocol.

use crate::kind::{BuildMode, ContractKind};
use crate::render::{renders_as, DebugText};
use crate::report::{
    diagnostic, diagnostic_text, lemma_diagnostic_contents, location_text, occurs_in,
};
use crate::vars::{dump_text, views, NamedValue};
use vstd::prelude::*;

verus! {

/// An object that can say whether it is in a legal state. The trait
/// promises nothing of the answer by itself: each implementation states when
/// its objects are legal.
pub trait Invariant {
    /// Tests whether the object is in a legal state.
    fn is_valid(&self) -> bool;
}

/// Whether `ok` is an answer that `object` may give when it is asked for its
/// state: one that the contract of its `is_valid` admits.
pub open spec fn answers<T: Invariant>(object: &T, ok: bool) -> bool {
    call_ensures(T::is_valid, (object,), ok)
}

/// What a check comes to: nothing where checks are switched off or the
/// condition holds, the diagnostic of the violation otherwise.
pub open spec fn check_outcome(
    mode: BuildMode,
    kind: ContractKind,
    cond: bool,
    file: Seq<char>,
    line: nat,
    vars: Seq<(Seq<char>, Seq<char>)>,
) -> Option<Seq<char>> {
    if mode.active() && !cond {
        Some(diagnostic_text(kind, file, line, vars))
    } else {
        None
    }
}

/// The text of an outcome, if it has one.
pub open spec fn outcome_view(outcome: Option<String>) -> Option<Seq<char>> {
    match outcome {
        Some(text) => Some(text@),
        None => None,
    }
}

/// The variables that a violated invariant implicates: the object itself
/// under its name, then the extra variables of the caller.
pub open spec fn invariant_vars(
    name: Seq<char>,
    object: Seq<char>,
    extra: Seq<(Seq<char>, Seq<char>)>,
) -> Seq<(Seq<char>, Seq<char>)> {
    seq![(name, object)] + extra
}

/// A check whose condition holds has no effect, whatever its kind, place and
/// variables, and whether or not checks are switched on.
pub proof fn lemma_true_condition_passes(
    mode: BuildMode,
    kind: ContractKind,
    file: Seq<char>,
    line: nat,
    vars: Seq<(Seq<char>, Seq<char>)>,
)
    ensures
        check_outcome(mode, kind, true, file, line, vars) is None,
{
}

/// With checks switched on, a check whose condition fails reports the
/// violation, and the report holds the tag of the kind and the place of the
/// check, followed by the dump of the variables if there are any.
pub proof fn lemma_false_condition_is_reported(
    kind: ContractKind,
    file: Seq<char>,
    line: nat,
    vars: Seq<(Seq<char>, Seq<char>)>,
)
    ensures
        check_outcome(BuildMode::Debug, kind, false, file, line, vars) matches Some(report) && {
            &&& report == diagnostic_text(kind, file, line, vars)
            &&& occurs_in(kind.tag_text(), report)
            &&& occurs_in(location_text(file, line), report)
            &&& vars.len() > 0 ==> occurs_in(dump_text(vars), report)
        },
{
    lemma_diagnostic_contents(kind, file, line, vars);
}

/// With checks switched off, a check has no effect, whether its condition
/// holds or not.
pub proof fn lemma_disabled_check_is_silent(
    kind: ContractKind,
    cond: bool,
    file: Seq<char>,
    line: nat,
    vars: Seq<(Seq<char>, Seq<char>)>,
)
    ensures
        check_outcome(BuildMode::Optimized, kind, cond, file, line, vars) is None,
{
}

/// A check keeps no state between calls: whatever two runs of the same check
/// on a condition that holds return, both return nothing.
pub proof fn lemma_repeated_check_agrees(
    first: Option<String>,
    second: Option<String>,
    mode: BuildMode,
    kind: ContractKind,
    file: Seq<char>,
    line: nat,
    vars: Seq<(Seq<char>, Seq<char>)>,
)
    requires
        outcome_view(first) == check_outcome(mode, kind, true, file, line, vars),
        outcome_view(second) == check_outcome(mode, kind, true, file, line, vars),
    ensures
        first is None,
        second is None,
        first == second,
{
}

/// Decides a check of the given kind on a condition that has been evaluated.
/// Returns the diagnostic to print before aborting, or `None` when there is
/// nothing to report.
pub fn check(
    mode: BuildMode,
    kind: ContractKind,
    cond: bool,
    file: &str,
    line: u32,
    vars: &[NamedValue],
) -> (outcome: Option<String>)
    ensures
        outcome_view(outcome) == check_outcome(mode, kind, cond, file@, line as nat, views(vars@)),
{
    if mode.checks_active() && !cond {
        Some(diagnostic(kind, file, line, vars))
    } else {
        None
    }
}

/// Checks a precondition.
pub fn require(mode: BuildMode, cond: bool, file: &str, line: u32, vars: &[NamedValue]) -> (outcome:
    Option<String>)
    ensures
        outcome_view(outcome) == check_outcome(
            mode,
            ContractKind::Precondition,
            cond,
            file@,
            line as nat,
            views(vars@),
        ),
{
    check(mode, ContractKind::Precondition, cond, file, line, vars)
}

/// Checks a postcondition.
pub fn ensure(mode: BuildMode, cond: bool, file: &str, line: u32, vars: &[NamedValue]) -> (outcome:
    Option<String>)
    ensures
        outcome_view(outcome) == check_outcome(
            mode,
            ContractKind::Postcondition,
            cond,
            file@,
            line as nat,
            views(vars@),
        ),
{
    check(mode, ContractKind::Postcondition, cond, file, line, vars)
}

/// Decides the check of an invariant from what the object answered and the
/// text it renders as. A violation implicates the object itself, reported
/// under `name`, and then the extra variables.
pub fn invariant_outcome(
    mode: BuildMode,
    ok: bool,
    name: &str,
    object_text: &str,
    file: &str,
    line: u32,
    extra: &[NamedValue],
) -> (outcome: Option<String>)
    ensures
        outcome_view(outcome) == check_outcome(
            mode,
            ContractKind::Invariant,
            ok,
            file@,
            line as nat,
            invariant_vars(name@, object_text@, views(extra@)),
        ),
{
    if mode.checks_active() && !ok {
        let mut vars: Vec<NamedValue> = Vec::new();
        vars.push(NamedValue::new(name, object_text));
        let mut i: usize = 0;
        while i < extra.len()
            invariant
                i <= extra@.len(),
                views(vars@) == invariant_vars(
                    name@,
                    object_text@,
                    views(extra@).subrange(0, i as int),
                ),
            decreases extra@.len() - i,
        {
            let ghost before = views(vars@);
            vars.push(NamedValue::new(extra[i].name.as_str(), extra[i].text.as_str()));
            assert(views(vars@) =~= invariant_vars(
                name@,
                object_text@,
                views(extra@).subrange(0, i + 1),
            )) by {
                assert(views(vars@) =~= before.push(extra@[i as int]@));
            }
            i = i + 1;
        }
        assert(views(extra@).subrange(0, i as int) =~= views(extra@));
        Some(diagnostic(ContractKind::Invariant, file, line, vars.as_slice()))
    } else {
        None
    }
}

/// Checks the invariant of `object`. Where checks are switched off the
/// object is neither asked nor rendered. Where they are on, the object is
/// asked once; if it answers that it is legal nothing is reported, and
/// otherwise the violation is reported with the object, rendered under
/// `name`, in front of the extra variables.
pub fn check_invariant<T: Invariant + DebugText>(
    mode: BuildMode,
    name: &str,
    object: &T,
    file: &str,
    line: u32,
    extra: &[NamedValue],
) -> (outcome: Option<String>)
    ensures
        !mode.active() ==> outcome is None,
        mode.active() ==> match outcome {
            None => answers(object, true),
            Some(report) => answers(object, false) && exists|text: Seq<char>|
                renders_as(object, text) && report@ == diagnostic_text(
                    ContractKind::Invariant,
                    file@,
                    line as nat,
                    invariant_vars(name@, text, views(extra@)),
                ),
        },
{
    if !mode.checks_active() {
        return None;
    }
    let ok = object.is_valid();
    if ok {
        None
    } else {
        let text = object.debug_text();
        assert(renders_as(object, text@));
        invariant_outcome(mode, ok, name, text.as_str(), file, line, extra)
    }
}

/// Checks a condition that is only evaluated where checks are switched on:
/// in an optimized build the condition is never called.
pub fn check_lazy<F: FnOnce() -> bool>(
    mode: BuildMode,
    kind: ContractKind,
    cond: F,
    file: &str,
    line: u32,
    vars: &[NamedValue],
) -> (outcome: Option<String>)
    requires
        mode.active() ==> cond.requires(()),
    ensures
        !mode.active() ==> outcome is None,
        mode.active() ==> exists|value: bool|
            cond.ensures((), value) && outcome_view(outcome) == check_outcome(
                mode,
                kind,
                value,
                file@,
                line as nat,
                views(vars@),
            ),
{
    if mode.checks_active() {
        let value = cond();
        check(mode, kind, value, file, line, vars)
    } else {
        None
    }
}

} // verus!
