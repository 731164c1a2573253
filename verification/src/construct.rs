//! The closed set of Markdown constructs and their tag metadata.

use vstd::prelude::*;

verus! {

/// Every structural element the renderer can produce markup for.
///
/// The set is closed: whatever the upstream parser produces is either one
/// of these constructs or literal text, which the renderer passes through
/// escaped rather than dropping it.  Container constructs arrive as a
/// start/end pair of events; point constructs (footnote reference,
/// thematic rule, task-list marker) arrive as one atomic event.
#[derive(Debug, Clone, Copy, PartialEq, Eq, Structural)]
pub enum MarkdownConstruct {
    Paragraph,
    Heading1,
    Heading2,
    Heading3,
    Heading4,
    Heading5,
    Heading6,
    BlockQuote,
    CodeBlock,
    OrderedList,
    UnorderedList,
    Item,
    FootnoteDefinition,
    Table,
    TableHead,
    TableRow,
    TableCell,
    Emphasis,
    Strong,
    Strikethrough,
    Link,
    Image,
    FootnoteReference,
    Rule,
    TaskListMarker,
}

/// Whether a construct's markup needs a separate closing tag.
///
/// `Paired` constructs emit `<tag>` at the start and `</tag>` at the end;
/// `SelfClosing` constructs emit a single `<tag/>` and an empty closing
/// fragment.  The discipline is a pure function of construct identity,
/// never of content or nesting depth.
#[derive(Debug, Clone, Copy, PartialEq, Eq, Structural)]
pub enum ClosingDiscipline {
    Paired,
    SelfClosing,
}

/// The immutable (tag name, closing discipline) pair bound to a construct.
#[derive(Debug, Clone, Copy)]
pub struct TagDefinition {
    pub tag: &'static str,
    pub discipline: ClosingDiscipline,
}

} // verus!
