use markdown_html::construct::ClosingDiscipline;
use markdown_html::construct::ClosingDiscipline::{Paired, SelfClosing};
use markdown_html::construct::MarkdownConstruct;
use markdown_html::construct::MarkdownConstruct::{
    BlockQuote, CodeBlock, Emphasis, FootnoteDefinition, FootnoteReference, Heading1, Heading2,
    Heading3, Heading4, Heading5, Heading6, Image, Item, Link, OrderedList, Paragraph, Rule,
    Strikethrough, Strong, Table, TableCell, TableHead, TableRow, TaskListMarker, UnorderedList,
};
use markdown_html::registry::lookup;

fn check(c: MarkdownConstruct, tag: &str, discipline: ClosingDiscipline) {
    let def = lookup(c);
    assert_eq!(def.tag, tag);
    assert_eq!(def.discipline, discipline);
}

#[test]
fn default_registry_bindings() {
    check(Heading1, "h1", Paired);
    check(Heading2, "h2", Paired);
    check(Heading3, "h3", Paired);
    check(Heading4, "h4", Paired);
    check(Heading5, "h5", Paired);
    check(Heading6, "h6", Paired);
    check(Paragraph, "p", Paired);
    check(BlockQuote, "blockquote", Paired);
    check(CodeBlock, "pre", Paired);
    check(OrderedList, "ol", Paired);
    check(UnorderedList, "ul", Paired);
    check(Item, "li", Paired);
    check(FootnoteDefinition, "sup", Paired);
    check(Table, "table", Paired);
    check(TableHead, "thead", Paired);
    check(TableRow, "tr", Paired);
    check(TableCell, "td", Paired);
    check(Emphasis, "em", Paired);
    check(Strong, "strong", Paired);
    check(Strikethrough, "strike", Paired);
    check(Link, "a", Paired);
    check(Image, "img", SelfClosing);
    check(FootnoteReference, "div", Paired);
    check(Rule, "hr", Paired);
    check(TaskListMarker, "input", Paired);
}

#[test]
fn image_is_the_sole_self_closing_entry() {
    let all = [
        Paragraph,
        Heading1,
        Heading2,
        Heading3,
        Heading4,
        Heading5,
        Heading6,
        BlockQuote,
        CodeBlock,
        OrderedList,
        UnorderedList,
        Item,
        FootnoteDefinition,
        Table,
        TableHead,
        TableRow,
        TableCell,
        Emphasis,
        Strong,
        Strikethrough,
        Link,
        Image,
        FootnoteReference,
        Rule,
        TaskListMarker,
    ];
    for c in all {
        let def = lookup(c);
        if c == Image {
            assert_eq!(def.discipline, ClosingDiscipline::SelfClosing);
        } else {
            assert_eq!(def.discipline, ClosingDiscipline::Paired);
        }
    }
}
