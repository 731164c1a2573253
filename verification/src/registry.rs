//! The default construct registry: one tag definition per construct.

use vstd::prelude::*;
use crate::construct::{ClosingDiscipline, MarkdownConstruct, TagDefinition};

verus! {

/// The default tag name bound to a construct.
pub open spec fn tag_of(c: MarkdownConstruct) -> Seq<char> {
    match c {
        MarkdownConstruct::Paragraph => "p"@,
        MarkdownConstruct::Heading1 => "h1"@,
        MarkdownConstruct::Heading2 => "h2"@,
        MarkdownConstruct::Heading3 => "h3"@,
        MarkdownConstruct::Heading4 => "h4"@,
        MarkdownConstruct::Heading5 => "h5"@,
        MarkdownConstruct::Heading6 => "h6"@,
        MarkdownConstruct::BlockQuote => "blockquote"@,
        MarkdownConstruct::CodeBlock => "pre"@,
        MarkdownConstruct::OrderedList => "ol"@,
        MarkdownConstruct::UnorderedList => "ul"@,
        MarkdownConstruct::Item => "li"@,
        MarkdownConstruct::FootnoteDefinition => "sup"@,
        MarkdownConstruct::Table => "table"@,
        MarkdownConstruct::TableHead => "thead"@,
        MarkdownConstruct::TableRow => "tr"@,
        MarkdownConstruct::TableCell => "td"@,
        MarkdownConstruct::Emphasis => "em"@,
        MarkdownConstruct::Strong => "strong"@,
        MarkdownConstruct::Strikethrough => "strike"@,
        MarkdownConstruct::Link => "a"@,
        MarkdownConstruct::Image => "img"@,
        MarkdownConstruct::FootnoteReference => "div"@,
        MarkdownConstruct::Rule => "hr"@,
        MarkdownConstruct::TaskListMarker => "input"@,
    }
}

/// The default closing discipline of a construct.
///
/// `Image` is the sole self-closing entry.  `hr`, `input` and the
/// footnote-reference `div` stay `Paired` even though `hr` and `input`
/// are void elements in standard HTML: the asymmetry is a compatibility
/// contract of the default table and is preserved on purpose.
pub open spec fn discipline_of(c: MarkdownConstruct) -> ClosingDiscipline {
    match c {
        MarkdownConstruct::Image => ClosingDiscipline::SelfClosing,
        _ => ClosingDiscipline::Paired,
    }
}

/// Looks a construct up in the default registry.
///
/// The lookup is total over the enumeration: every construct has exactly
/// one tag definition, and the returned pair is pinned to the default
/// table entry for that construct.
pub fn lookup(c: MarkdownConstruct) -> (r: TagDefinition)
    ensures
        r.tag@ == tag_of(c),
        r.discipline == discipline_of(c),
{
    match c {
        MarkdownConstruct::Paragraph => TagDefinition {
            tag: "p",
            discipline: ClosingDiscipline::Paired,
        },
        MarkdownConstruct::Heading1 => TagDefinition {
            tag: "h1",
            discipline: ClosingDiscipline::Paired,
        },
        MarkdownConstruct::Heading2 => TagDefinition {
            tag: "h2",
            discipline: ClosingDiscipline::Paired,
        },
        MarkdownConstruct::Heading3 => TagDefinition {
            tag: "h3",
            discipline: ClosingDiscipline::Paired,
        },
        MarkdownConstruct::Heading4 => TagDefinition {
            tag: "h4",
            discipline: ClosingDiscipline::Paired,
        },
        MarkdownConstruct::Heading5 => TagDefinition {
            tag: "h5",
            discipline: ClosingDiscipline::Paired,
        },
        MarkdownConstruct::Heading6 => TagDefinition {
            tag: "h6",
            discipline: ClosingDiscipline::Paired,
        },
        MarkdownConstruct::BlockQuote => TagDefinition {
            tag: "blockquote",
            discipline: ClosingDiscipline::Paired,
        },
        MarkdownConstruct::CodeBlock => TagDefinition {
            tag: "pre",
            discipline: ClosingDiscipline::Paired,
        },
        MarkdownConstruct::OrderedList => TagDefinition {
            tag: "ol",
            discipline: ClosingDiscipline::Paired,
        },
        MarkdownConstruct::UnorderedList => TagDefinition {
            tag: "ul",
            discipline: ClosingDiscipline::Paired,
        },
        MarkdownConstruct::Item => TagDefinition {
            tag: "li",
            discipline: ClosingDiscipline::Paired,
        },
        MarkdownConstruct::FootnoteDefinition => TagDefinition {
            tag: "sup",
            discipline: ClosingDiscipline::Paired,
        },
        MarkdownConstruct::Table => TagDefinition {
            tag: "table",
            discipline: ClosingDiscipline::Paired,
        },
        MarkdownConstruct::TableHead => TagDefinition {
            tag: "thead",
            discipline: ClosingDiscipline::Paired,
        },
        MarkdownConstruct::TableRow => TagDefinition {
            tag: "tr",
            discipline: ClosingDiscipline::Paired,
        },
        MarkdownConstruct::TableCell => TagDefinition {
            tag: "td",
            discipline: ClosingDiscipline::Paired,
        },
        MarkdownConstruct::Emphasis => TagDefinition {
            tag: "em",
            discipline: ClosingDiscipline::Paired,
        },
        MarkdownConstruct::Strong => TagDefinition {
            tag: "strong",
            discipline: ClosingDiscipline::Paired,
        },
        MarkdownConstruct::Strikethrough => TagDefinition {
            tag: "strike",
            discipline: ClosingDiscipline::Paired,
        },
        MarkdownConstruct::Link => TagDefinition {
            tag: "a",
            discipline: ClosingDiscipline::Paired,
        },
        MarkdownConstruct::Image => TagDefinition {
            tag: "img",
            discipline: ClosingDiscipline::SelfClosing,
        },
        MarkdownConstruct::FootnoteReference => TagDefinition {
            tag: "div",
            discipline: ClosingDiscipline::Paired,
        },
        MarkdownConstruct::Rule => TagDefinition {
            tag: "hr",
            discipline: ClosingDiscipline::Paired,
        },
        MarkdownConstruct::TaskListMarker => TagDefinition {
            tag: "input",
            discipline: ClosingDiscipline::Paired,
        },
    }
}

} // verus!
