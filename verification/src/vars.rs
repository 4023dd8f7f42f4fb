//! Named values and the variable dump that a diagnostic carries.

use crate::render::{renders_as, DebugText};
use vstd::prelude::*;
use vstd::string::*;

verus! {

/// A variable as a diagnostic reports it: its name and the text of its value.
#[derive(Debug)]
pub struct NamedValue {
    /// The name of the variable at the place of the check.
    pub name: String,
    /// The debug-style text of the variable's value.
    pub text: String,
}

impl View for NamedValue {
    type V = (Seq<char>, Seq<char>);

    open spec fn view(&self) -> (Seq<char>, Seq<char>) {
        (self.name@, self.text@)
    }
}

impl NamedValue {
    /// Pairs a name with a text that has already been rendered.
    pub fn new(name: &str, text: &str) -> (var: NamedValue)
        ensures
            var@ == (name@, text@),
    {
        NamedValue { name: String::from_str(name), text: String::from_str(text) }
    }

    /// Pairs a name with the debug-style text of `value`, whatever `value`
    /// renders as.
    pub fn of<T: DebugText + ?Sized>(name: &str, value: &T) -> (var: NamedValue)
        ensures
            var@.0 == name@,
            renders_as(value, var@.1),
    {
        NamedValue { name: String::from_str(name), text: value.debug_text() }
    }
}

/// The views of a sequence of named values, in the same order.
pub open spec fn views(vars: Seq<NamedValue>) -> Seq<(Seq<char>, Seq<char>)> {
    Seq::new(vars.len(), |i: int| vars[i]@)
}

/// The text of one entry of a dump: the name, an equals sign, the value.
pub open spec fn entry_text(var: (Seq<char>, Seq<char>)) -> Seq<char> {
    var.0 + seq!['='] + var.1
}

/// The text of a dump: its entries in order, joined by single spaces.
pub open spec fn dump_text(vars: Seq<(Seq<char>, Seq<char>)>) -> Seq<char>
    decreases vars.len(),
{
    if vars.len() == 0 {
        Seq::empty()
    } else if vars.len() == 1 {
        entry_text(vars[0])
    } else {
        dump_text(vars.drop_last()) + seq![' '] + entry_text(vars.last())
    }
}

/// A dump keeps the order of its entries: the dump of two non-empty lists
/// one after the other is the dump of the first, a space, and the dump of
/// the second.
pub proof fn lemma_dump_text_concat(
    front: Seq<(Seq<char>, Seq<char>)>,
    back: Seq<(Seq<char>, Seq<char>)>,
)
    requires
        front.len() > 0,
        back.len() > 0,
    ensures
        dump_text(front + back) == dump_text(front) + seq![' '] + dump_text(back),
    decreases back.len(),
{
    let all = front + back;
    if back.len() == 1 {
        assert(all.drop_last() =~= front);
        assert(all.last() == back[0]);
    } else {
        lemma_dump_text_concat(front, back.drop_last());
        assert(all.drop_last() =~= front + back.drop_last());
        assert(all.last() == back.last());
        assert(dump_text(all) =~= dump_text(front) + seq![' '] + dump_text(back));
    }
}

/// The dump of a list with at least two entries starts with its first entry,
/// followed by a space and the dump of the rest.
pub proof fn lemma_dump_text_first(vars: Seq<(Seq<char>, Seq<char>)>)
    requires
        vars.len() >= 2,
    ensures
        dump_text(vars) == entry_text(vars[0]) + seq![' '] + dump_text(vars.subrange(1, vars.len() as int)),
{
    let head = vars.subrange(0, 1);
    let tail = vars.subrange(1, vars.len() as int);
    assert(vars =~= head + tail);
    lemma_dump_text_concat(head, tail);
}

/// Renders the dump of `vars`: each entry as `name=value`, in the order
/// given, with a single space between neighbours.
pub fn formatvar(vars: &[NamedValue]) -> (dump: String)
    requires
        vars@.len() > 0,
    ensures
        dump@ == dump_text(views(vars@)),
{
    let ghost all = views(vars@);
    let mut dump = String::new();
    let mut i: usize = 0;
    proof {
        reveal_strlit("=");
        reveal_strlit(" ");
    }
    while i < vars.len()
        invariant
            i <= vars@.len(),
            all == views(vars@),
            dump@ == dump_text(all.subrange(0, i as int)),
            "="@ == seq!['='],
            " "@ == seq![' '],
        decreases vars@.len() - i,
    {
        let ghost before = all.subrange(0, i as int);
        let ghost after = all.subrange(0, i + 1);
        proof {
            assert(after.drop_last() =~= before);
            assert(after.last() == vars@[i as int]@);
        }
        if i > 0 {
            dump.append(" ");
        }
        dump.append(vars[i].name.as_str());
        dump.append("=");
        dump.append(vars[i].text.as_str());
        assert(dump@ =~= dump_text(after));
        i = i + 1;
    }
    assert(all.subrange(0, i as int) =~= all);
    dump
}

} // verus!
