//! Emission of opening and closing markup fragments for a tag.

use vstd::prelude::*;
use vstd::string::StringExecFns;
use crate::construct::ClosingDiscipline;

verus! {

/// The opening fragment for a tag: `<tag>` when paired, `<tag/>` when
/// self-closing.
pub open spec fn opening_fragment(tag: Seq<char>, d: ClosingDiscipline) -> Seq<char> {
    match d {
        ClosingDiscipline::Paired => "<"@ + tag + ">"@,
        ClosingDiscipline::SelfClosing => "<"@ + tag + "/>"@,
    }
}

/// The closing fragment for a tag: `</tag>` when paired, and the empty
/// fragment when self-closing.
pub open spec fn closing_fragment(tag: Seq<char>, d: ClosingDiscipline) -> Seq<char> {
    match d {
        ClosingDiscipline::Paired => "</"@ + tag + ">"@,
        ClosingDiscipline::SelfClosing => Seq::<char>::empty(),
    }
}

/// Emits the opening markup for a tag under the given discipline.
pub fn open_tag(tag: &str, d: ClosingDiscipline) -> (r: String)
    ensures
        r@ == opening_fragment(tag@, d),
{
    let mut out = String::new();
    out.append("<");
    out.append(tag);
    match d {
        ClosingDiscipline::Paired => out.append(">"),
        ClosingDiscipline::SelfClosing => out.append("/>"),
    }
    out
}

/// Emits the closing markup for a tag under the given discipline.
///
/// For a self-closing tag the result is the empty string: callers may
/// still invoke the close for symmetry of control flow, and it appends
/// nothing.
pub fn close_tag(tag: &str, d: ClosingDiscipline) -> (r: String)
    ensures
        r@ == closing_fragment(tag@, d),
{
    let mut out = String::new();
    match d {
        ClosingDiscipline::Paired => {
            out.append("</");
            out.append(tag);
            out.append(">");
        },
        ClosingDiscipline::SelfClosing => {},
    }
    out
}

/// A self-closing tag never gets a closing fragment: whatever the tag
/// name, the close of a `SelfClosing` construct is the empty fragment.
pub proof fn lemma_self_closing_close_is_empty(tag: Seq<char>)
    ensures
        closing_fragment(tag, ClosingDiscipline::SelfClosing) == Seq::<char>::empty(),
{
}

} // verus!
