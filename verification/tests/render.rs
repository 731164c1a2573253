use markdown_html::construct::MarkdownConstruct;
use markdown_html::hooks::RenderHooks;
use markdown_html::renderer::{render, MarkdownEvent, RenderError};

fn rendered(events: Vec<MarkdownEvent>, hooks: &RenderHooks) -> Result<String, RenderError> {
    let mut out = String::new();
    match render(&events, hooks, &mut out) {
        Ok(()) => Ok(out),
        Err(e) => Err(e),
    }
}

fn paragraph_hi() -> Vec<MarkdownEvent> {
    vec![
        MarkdownEvent::Start(MarkdownConstruct::Paragraph),
        MarkdownEvent::Text("hi".to_string()),
        MarkdownEvent::End(MarkdownConstruct::Paragraph),
    ]
}

#[test]
fn paragraph_scenario() {
    assert_eq!(rendered(paragraph_hi(), &RenderHooks::new()), Ok("<p>hi</p>".to_string()));
}

#[test]
fn heading_scenario() {
    let events = vec![
        MarkdownEvent::Start(MarkdownConstruct::Heading2),
        MarkdownEvent::Text("Title".to_string()),
        MarkdownEvent::End(MarkdownConstruct::Heading2),
    ];
    assert_eq!(rendered(events, &RenderHooks::new()), Ok("<h2>Title</h2>".to_string()));
}

#[test]
fn image_point_scenario() {
    let events = vec![MarkdownEvent::Point(MarkdownConstruct::Image)];
    let out = rendered(events, &RenderHooks::new()).unwrap();
    assert_eq!(out, "<img/>");
    assert!(!out.contains("</img>"));
}

#[test]
fn nested_list_scenario() {
    let events = vec![
        MarkdownEvent::Start(MarkdownConstruct::UnorderedList),
        MarkdownEvent::Start(MarkdownConstruct::Item),
        MarkdownEvent::Text("a".to_string()),
        MarkdownEvent::End(MarkdownConstruct::Item),
        MarkdownEvent::Start(MarkdownConstruct::Item),
        MarkdownEvent::Text("b".to_string()),
        MarkdownEvent::End(MarkdownConstruct::Item),
        MarkdownEvent::End(MarkdownConstruct::UnorderedList),
    ];
    assert_eq!(rendered(events, &RenderHooks::new()), Ok("<ul><li>a</li><li>b</li></ul>".to_string()));
}

#[test]
fn hook_overrides_paragraph() {
    let mut hooks = RenderHooks::new();
    hooks.register(
        MarkdownConstruct::Paragraph,
        "<section>".to_string(),
        "</section>".to_string(),
    );
    let out = rendered(paragraph_hi(), &hooks).unwrap();
    assert_eq!(out, "<section>hi</section>");
    assert!(!out.contains("<p>"));
    assert!(!out.contains("</p>"));
}

#[test]
fn later_hook_registration_wins() {
    let mut hooks = RenderHooks::new();
    hooks.register(MarkdownConstruct::Paragraph, "<div>".to_string(), "</div>".to_string());
    hooks.register(
        MarkdownConstruct::Paragraph,
        "<article>".to_string(),
        "</article>".to_string(),
    );
    assert_eq!(rendered(paragraph_hi(), &hooks), Ok("<article>hi</article>".to_string()));
}

#[test]
fn hook_on_point_construct() {
    let mut hooks = RenderHooks::new();
    hooks.register(
        MarkdownConstruct::Image,
        "<figure/>".to_string(),
        String::new(),
    );
    let events = vec![MarkdownEvent::Point(MarkdownConstruct::Image)];
    assert_eq!(rendered(events, &hooks), Ok("<figure/>".to_string()));
}

#[test]
fn unmatched_end_is_reported_and_output_untouched() {
    let events = vec![MarkdownEvent::End(MarkdownConstruct::Paragraph)];
    let mut out = "before".to_string();
    let r = render(&events, &RenderHooks::new(), &mut out);
    assert_eq!(r, Err(RenderError::UnmatchedClose { construct: MarkdownConstruct::Paragraph }));
    assert_eq!(out, "before");
}

#[test]
fn unclosed_construct_is_reported() {
    let events = vec![
        MarkdownEvent::Start(MarkdownConstruct::UnorderedList),
        MarkdownEvent::Start(MarkdownConstruct::Item),
    ];
    let mut out = String::new();
    let r = render(&events, &RenderHooks::new(), &mut out);
    assert_eq!(
        r,
        Err(RenderError::UnclosedConstruct { construct: MarkdownConstruct::Item, depth: 2 })
    );
    assert_eq!(out, "");
}

#[test]
fn end_event_closes_innermost_open_construct() {
    let events = vec![
        MarkdownEvent::Start(MarkdownConstruct::UnorderedList),
        MarkdownEvent::End(MarkdownConstruct::Paragraph),
    ];
    assert_eq!(rendered(events, &RenderHooks::new()), Ok("<ul></ul>".to_string()));
}

#[test]
fn rendering_is_deterministic() {
    let mut hooks = RenderHooks::new();
    hooks.register(MarkdownConstruct::Strong, "<b>".to_string(), "</b>".to_string());
    let build = || {
        vec![
            MarkdownEvent::Start(MarkdownConstruct::Paragraph),
            MarkdownEvent::Start(MarkdownConstruct::Strong),
            MarkdownEvent::Text("x & y".to_string()),
            MarkdownEvent::End(MarkdownConstruct::Strong),
            MarkdownEvent::End(MarkdownConstruct::Paragraph),
        ]
    };
    let first = rendered(build(), &hooks);
    let second = rendered(build(), &hooks);
    assert_eq!(first, second);
    assert_eq!(first, Ok("<p><b>x &amp; y</b></p>".to_string()));
}

#[test]
fn output_is_appended_after_existing_content() {
    let events = paragraph_hi();
    let mut out = "prefix:".to_string();
    assert_eq!(render(&events, &RenderHooks::new(), &mut out), Ok(()));
    assert_eq!(out, "prefix:<p>hi</p>");
}

#[test]
fn text_is_escaped_inside_constructs() {
    let events = vec![
        MarkdownEvent::Start(MarkdownConstruct::Paragraph),
        MarkdownEvent::Text("a<b".to_string()),
        MarkdownEvent::End(MarkdownConstruct::Paragraph),
    ];
    assert_eq!(rendered(events, &RenderHooks::new()), Ok("<p>a&lt;b</p>".to_string()));
}

#[test]
fn point_constructs_use_registered_discipline() {
    let hooks = RenderHooks::new();
    assert_eq!(
        rendered(vec![MarkdownEvent::Point(MarkdownConstruct::Rule)], &hooks),
        Ok("<hr>".to_string())
    );
    assert_eq!(
        rendered(vec![MarkdownEvent::Point(MarkdownConstruct::TaskListMarker)], &hooks),
        Ok("<input>".to_string())
    );
    assert_eq!(
        rendered(vec![MarkdownEvent::Point(MarkdownConstruct::FootnoteReference)], &hooks),
        Ok("<div>".to_string())
    );
}

#[test]
fn empty_event_stream_renders_nothing() {
    assert_eq!(rendered(vec![], &RenderHooks::new()), Ok(String::new()));
}

#[test]
fn push_html_matches_render() {
    let mut out = "doc:".to_string();
    let r = markdown_html::renderer::push_html(&mut out, &paragraph_hi(), &RenderHooks::new());
    assert_eq!(r, Ok(()));
    assert_eq!(out, "doc:<p>hi</p>");
}
