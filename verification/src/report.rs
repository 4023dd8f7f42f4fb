//! The diagnostic that reports a violated contract.

use crate::decimal::{decimal_text, render_unsigned};
use crate::kind::ContractKind;
use crate::vars::{dump_text, formatvar, views, NamedValue};
use vstd::prelude::*;
use vstd::string::*;

verus! {

/// The text that stands in front of the kind's tag.
pub open spec fn headline_prefix() -> Seq<char> {
    "panic: "@
}

/// The text between the kind's tag and the source file.
pub open spec fn location_prefix() -> Seq<char> {
    ":\nfile: "@
}

/// The source location as a diagnostic shows it: the file, a colon, and the
/// line number in decimal.
pub open spec fn location_text(file: Seq<char>, line: nat) -> Seq<char> {
    file + ":"@ + decimal_text(line)
}

/// The part of a diagnostic that lists the implicated variables. It is
/// absent when there are none.
pub open spec fn vars_section(vars: Seq<(Seq<char>, Seq<char>)>) -> Seq<char> {
    if vars.len() == 0 {
        Seq::empty()
    } else {
        "vars:\n"@ + dump_text(vars) + "\n"@
    }
}

/// The complete diagnostic of a violated contract, every line ended by a
/// line feed: the headline with the kind's tag, the source location, and the
/// variable dump if there is one.
pub open spec fn diagnostic_text(
    kind: ContractKind,
    file: Seq<char>,
    line: nat,
    vars: Seq<(Seq<char>, Seq<char>)>,
) -> Seq<char> {
    headline_prefix() + kind.tag_text() + location_prefix() + location_text(file, line) + "\n"@
        + vars_section(vars)
}

/// Whether `part` stands somewhere in `whole` as one unbroken piece.
pub open spec fn occurs_in(part: Seq<char>, whole: Seq<char>) -> bool {
    exists|at: int|
        0 <= at && at + part.len() <= whole.len() && #[trigger] whole.subrange(
            at,
            at + part.len(),
        ) == part
}

/// Every diagnostic holds the tag of the violated contract's kind and the
/// place of the check, and one with variables holds their dump.
pub proof fn lemma_diagnostic_contents(
    kind: ContractKind,
    file: Seq<char>,
    line: nat,
    vars: Seq<(Seq<char>, Seq<char>)>,
)
    ensures
        occurs_in(kind.tag_text(), diagnostic_text(kind, file, line, vars)),
        occurs_in(location_text(file, line), diagnostic_text(kind, file, line, vars)),
        vars.len() > 0 ==> occurs_in(dump_text(vars), diagnostic_text(kind, file, line, vars)),
{
    let text = diagnostic_text(kind, file, line, vars);
    let tag = kind.tag_text();
    let place = location_text(file, line);
    let tag_at = headline_prefix().len() as int;
    let place_at = tag_at + tag.len() + location_prefix().len();
    assert(text.subrange(tag_at, tag_at + tag.len()) =~= tag);
    assert(text.subrange(place_at, place_at + place.len()) =~= place);
    if vars.len() > 0 {
        let dump = dump_text(vars);
        let dump_at = place_at + place.len() + "\n"@.len() + "vars:\n"@.len();
        assert(text.subrange(dump_at, dump_at + dump.len()) =~= dump);
    }
}

/// Composes the diagnostic of a violated contract of the given kind, checked
/// at `line` of `file`, with the variables that the check implicates.
pub fn diagnostic(kind: ContractKind, file: &str, line: u32, vars: &[NamedValue]) -> (text: String)
    ensures
        text@ == diagnostic_text(kind, file@, line as nat, views(vars@)),
{
    let mut text = String::from_str("panic: ");
    text.append(kind.tag());
    text.append(":\nfile: ");
    text.append(file);
    text.append(":");
    text.append(render_unsigned(line as u64).as_str());
    text.append("\n");
    if vars.len() > 0 {
        text.append("vars:\n");
        text.append(formatvar(vars).as_str());
        text.append("\n");
    }
    assert(text@ =~= diagnostic_text(kind, file@, line as nat, views(vars@)));
    text
}

} // verus!
