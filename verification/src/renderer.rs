//! The single-pass event renderer.

use vstd::prelude::*;
use vstd::string::StringExecFns;
use crate::construct::MarkdownConstruct;
use crate::emitter::{close_tag, closing_fragment, open_tag, opening_fragment};
use crate::escape::{escape_text, escaped};
use crate::hooks::{hook_of, RenderHooks};
use crate::registry::{discipline_of, lookup, tag_of};

verus! {

/// One structural event of a parsed document.
///
/// `Start` and `End` bracket a container construct, `Point` is a
/// construct that occurs as one atomic event with no separate close, and
/// `Text` is literal content, passed through escaped.  Anything the
/// upstream parser produces that maps to no known construct must be
/// handed over as `Text`, so that content is never dropped.
#[derive(Debug)]
pub enum MarkdownEvent {
    Start(MarkdownConstruct),
    End(MarkdownConstruct),
    Text(String),
    Point(MarkdownConstruct),
}

/// Why a render refused its input.
///
/// A malformed event sequence is a contract violation by the upstream
/// parser; the renderer reports it and leaves the output untouched
/// rather than emitting unbalanced markup.
#[derive(Debug, Clone, Copy, PartialEq, Eq, Structural)]
pub enum RenderError {
    /// An end event arrived while no construct was open; `construct` is
    /// the construct that end event named.
    UnmatchedClose { construct: MarkdownConstruct },
    /// The stream ended while constructs were still open; `construct` is
    /// the innermost one and `depth` the number left open.
    UnclosedConstruct { construct: MarkdownConstruct, depth: usize },
}

/// The fragment emitted where a construct starts or occurs: the hook's
/// opening fragment when one is registered, else the default registry
/// tag's opening fragment.
pub open spec fn opening_emission(hooks: RenderHooks, c: MarkdownConstruct) -> Seq<char> {
    match hook_of(hooks.entries@, c) {
        Some(h) => h.0,
        None => opening_fragment(tag_of(c), discipline_of(c)),
    }
}

/// The fragment emitted where a construct ends: the hook's closing
/// fragment when one is registered, else the default registry tag's
/// closing fragment.
pub open spec fn closing_emission(hooks: RenderHooks, c: MarkdownConstruct) -> Seq<char> {
    match hook_of(hooks.entries@, c) {
        Some(h) => h.1,
        None => closing_fragment(tag_of(c), discipline_of(c)),
    }
}

/// The output and the stack of still-open constructs after consuming an
/// event sequence, or the error on which the pass stops.
///
/// Each start event appends its construct's opening emission and pushes
/// the construct; each end event pops the innermost open construct and
/// appends that construct's closing emission, so closes always mirror
/// opens in reverse order; text is escaped and appended; a point
/// construct appends its opening emission with no stack interaction.
/// An end event with nothing open is a precondition violation.
pub open spec fn render_steps(events: Seq<MarkdownEvent>, hooks: RenderHooks) -> Result<
    (Seq<char>, Seq<MarkdownConstruct>),
    RenderError,
>
    decreases events.len(),
{
    if events.len() == 0 {
        Ok((Seq::<char>::empty(), Seq::<MarkdownConstruct>::empty()))
    } else {
        match render_steps(events.drop_last(), hooks) {
            Err(e) => Err(e),
            Ok(st) => match events.last() {
                MarkdownEvent::Start(c) => Ok((st.0 + opening_emission(hooks, c), st.1.push(c))),
                MarkdownEvent::End(c) => if st.1.len() == 0 {
                    Err(RenderError::UnmatchedClose { construct: c })
                } else {
                    Ok((st.0 + closing_emission(hooks, st.1.last()), st.1.drop_last()))
                },
                MarkdownEvent::Text(t) => Ok((st.0 + escaped(t@), st.1)),
                MarkdownEvent::Point(c) => Ok((st.0 + opening_emission(hooks, c), st.1)),
            },
        }
    }
}

/// The markup a well-formed event sequence renders to, or the error a
/// malformed one is refused with.
///
/// A sequence is well formed exactly when no end event arrives with
/// nothing open and nothing is left open at the end of the stream; on
/// such input the result is the concatenation of the per-event
/// emissions.  A sequence that leaves constructs open is refused with
/// the innermost open construct and the depth left open.
pub open spec fn spec_render(events: Seq<MarkdownEvent>, hooks: RenderHooks) -> Result<
    Seq<char>,
    RenderError,
> {
    match render_steps(events, hooks) {
        Err(e) => Err(e),
        Ok(st) => if st.1.len() == 0 {
            Ok(st.0)
        } else {
            Err(
                RenderError::UnclosedConstruct {
                    construct: st.1.last(),
                    depth: st.1.len() as usize,
                },
            )
        },
    }
}

/// The opening and closing fragments in force for a construct: the
/// hook's pair when one is registered, else the default registry tag
/// rendered by the emitter.
pub fn emissions(hooks: &RenderHooks, c: MarkdownConstruct) -> (r: (String, String))
    ensures
        r.0@ == opening_emission(*hooks, c),
        r.1@ == closing_emission(*hooks, c),
{
    match hooks.get(c) {
        Some(pair) => pair,
        None => {
            let def = lookup(c);
            (open_tag(def.tag, def.discipline), close_tag(def.tag, def.discipline))
        },
    }
}

/// One frame of the open-construct stack: the construct and the closing
/// fragment recorded when it was opened, so the close always matches the
/// open.
struct StackFrame {
    construct: MarkdownConstruct,
    closing: String,
}

/// The constructs a stack holds, innermost last.
spec fn open_constructs(stack: Seq<StackFrame>) -> Seq<MarkdownConstruct> {
    stack.map_values(|f: StackFrame| f.construct)
}

/// An error reached on a prefix stands for the whole sequence: once a
/// pass stops, later events change nothing.
proof fn lemma_error_persists(events: Seq<MarkdownEvent>, hooks: RenderHooks, k: int)
    requires
        0 <= k <= events.len(),
        render_steps(events.take(k), hooks) is Err,
    ensures
        render_steps(events, hooks) == render_steps(events.take(k), hooks),
    decreases events.len() - k,
{
    if k == events.len() {
        assert(events.take(k) =~= events);
    } else {
        assert(events.take(k + 1).drop_last() =~= events.take(k));
        lemma_error_persists(events, hooks, k + 1);
    }
}

/// Renders an event sequence into the caller's output buffer.
///
/// On well-formed input the markup is appended, in event order, and the
/// bytes appended are a pure function of the events and the hooks: the
/// concatenation `spec_render` gives.  On malformed input (an end event
/// with nothing open, or constructs left open at the end of the stream)
/// the matching `RenderError` is returned and the output buffer is left
/// exactly as it was.
pub fn render(events: &Vec<MarkdownEvent>, hooks: &RenderHooks, output: &mut String) -> (r: Result<
    (),
    RenderError,
>)
    ensures
        match spec_render(events@, *hooks) {
            Ok(markup) => r == Ok::<(), RenderError>(()) && final(output)@ == old(output)@
                + markup,
            Err(e) => r == Err::<(), RenderError>(e) && final(output)@ == old(output)@,
        },
{
    let mut buf = String::new();
    let mut stack: Vec<StackFrame> = Vec::new();
    let n = events.len();
    let mut i: usize = 0;
    proof {
        assert(events@.take(0) =~= Seq::<MarkdownEvent>::empty());
        assert(open_constructs(stack@) =~= Seq::<MarkdownConstruct>::empty());
    }
    while i < n
        invariant
            n == events@.len(),
            i <= n,
            render_steps(events@.take(i as int), *hooks) == Ok::<
                (Seq<char>, Seq<MarkdownConstruct>),
                RenderError,
            >((buf@, open_constructs(stack@))),
            forall|j: int|
                0 <= j < stack@.len() ==> (#[trigger] stack@[j]).closing@ == closing_emission(
                    *hooks,
                    stack@[j].construct,
                ),
            output@ == old(output)@,
        decreases n - i,
    {
        proof {
            assert(events@.take(i + 1).drop_last() =~= events@.take(i as int));
            assert(events@.take(i + 1).last() == events@[i as int]);
        }
        let ev = &events[i];
        match ev {
            MarkdownEvent::Start(c) => {
                let ghost prev = stack@;
                let pair = emissions(hooks, *c);
                buf.append(pair.0.as_str());
                stack.push(StackFrame { construct: *c, closing: pair.1 });
                proof {
                    assert(open_constructs(stack@) =~= open_constructs(prev).push(*c));
                }
            },
            MarkdownEvent::End(c) => {
                if stack.len() == 0 {
                    proof {
                        lemma_error_persists(events@, *hooks, i + 1);
                    }
                    return Err(RenderError::UnmatchedClose { construct: *c });
                }
                let ghost prev = stack@;
                let frame = stack.pop().unwrap();
                buf.append(frame.closing.as_str());
                proof {
                    assert(open_constructs(prev).last() == frame.construct);
                    assert(open_constructs(stack@) =~= open_constructs(prev).drop_last());
                }
            },
            MarkdownEvent::Text(t) => {
                let esc = escape_text(t.as_str());
                buf.append(esc.as_str());
            },
            MarkdownEvent::Point(c) => {
                let pair = emissions(hooks, *c);
                buf.append(pair.0.as_str());
            },
        }
        i = i + 1;
    }
    proof {
        assert(events@.take(n as int) =~= events@);
    }
    if stack.len() == 0 {
        proof {
            assert(open_constructs(stack@) =~= Seq::<MarkdownConstruct>::empty());
        }
        output.append(buf.as_str());
        Ok(())
    } else {
        let top_index = stack.len() - 1;
        let top = &stack[top_index];
        Err(RenderError::UnclosedConstruct { construct: top.construct, depth: stack.len() })
    }
}

/// Serializes a parsed Markdown document into `output`: the classic
/// entry point, taking the buffer first and the event stream second.
///
/// Behaves exactly as [`render`]: on well-formed input the markup is
/// appended to `output`; on malformed input the error is returned and
/// `output` is left as it was.
pub fn push_html(output: &mut String, events: &Vec<MarkdownEvent>, render_hooks: &RenderHooks) -> (r:
    Result<(), RenderError>)
    ensures
        match spec_render(events@, *render_hooks) {
            Ok(markup) => r == Ok::<(), RenderError>(()) && final(output)@ == old(output)@
                + markup,
            Err(e) => r == Err::<(), RenderError>(e) && final(output)@ == old(output)@,
        },
{
    render(events, render_hooks, output)
}

/// The number of start events in a sequence.
pub open spec fn start_count(events: Seq<MarkdownEvent>) -> int
    decreases events.len(),
{
    if events.len() == 0 {
        0
    } else {
        start_count(events.drop_last()) + if (events.last() matches MarkdownEvent::Start(_)) {
            1int
        } else {
            0int
        }
    }
}

/// The number of end events in a sequence.
pub open spec fn end_count(events: Seq<MarkdownEvent>) -> int
    decreases events.len(),
{
    if events.len() == 0 {
        0
    } else {
        end_count(events.drop_last()) + if (events.last() matches MarkdownEvent::End(_)) {
            1int
        } else {
            0int
        }
    }
}

/// A pass that consumes a whole sequence without stopping consumes every
/// prefix of it without stopping.
pub proof fn lemma_prefix_ok(events: Seq<MarkdownEvent>, hooks: RenderHooks, k: int)
    requires
        0 <= k <= events.len(),
        render_steps(events, hooks) is Ok,
    ensures
        render_steps(events.take(k), hooks) is Ok,
    decreases events.len() - k,
{
    if k == events.len() {
        assert(events.take(k) =~= events);
    } else {
        lemma_prefix_ok(events, hooks, k + 1);
        assert(events.take(k + 1).drop_last() =~= events.take(k));
    }
}

/// After a pass that does not stop, the number of constructs still open
/// is the number of start events minus the number of end events.
proof fn lemma_stack_counts(events: Seq<MarkdownEvent>, hooks: RenderHooks)
    requires
        render_steps(events, hooks) is Ok,
    ensures
        render_steps(events, hooks)->Ok_0.1.len() + end_count(events) == start_count(events),
    decreases events.len(),
{
    if events.len() > 0 {
        lemma_stack_counts(events.drop_last(), hooks);
    }
}

/// Stack discipline of a balanced input: every construct opened by a
/// start event is closed by exactly one end event — the number of
/// closing emissions equals the number of opening emissions — and in no
/// prefix of the stream have more constructs been closed than opened.
pub proof fn lemma_balanced_opens_and_closes(events: Seq<MarkdownEvent>, hooks: RenderHooks)
    requires
        spec_render(events, hooks) is Ok,
    ensures
        start_count(events) == end_count(events),
        forall|k: int|
            0 <= k <= events.len() ==> end_count(#[trigger] events.take(k)) <= start_count(
                events.take(k),
            ),
{
    lemma_stack_counts(events, hooks);
    assert forall|k: int| 0 <= k <= events.len() implies end_count(#[trigger] events.take(k))
        <= start_count(events.take(k)) by {
        lemma_prefix_ok(events, hooks, k);
        lemma_stack_counts(events.take(k), hooks);
    }
}

/// Prepending a start event to a pass leaves the whole pass above that
/// construct: the opening emission comes first and the construct stays
/// at the bottom of the stack.
#[verifier::rlimit(60)]
proof fn lemma_start_prefix(c: MarkdownConstruct, events: Seq<MarkdownEvent>, hooks: RenderHooks)
    requires
        render_steps(events, hooks) is Ok,
    ensures
        render_steps(seq![MarkdownEvent::Start(c)] + events, hooks) == Ok::<
            (Seq<char>, Seq<MarkdownConstruct>),
            RenderError,
        >(
            (
                opening_emission(hooks, c) + render_steps(events, hooks)->Ok_0.0,
                seq![c] + render_steps(events, hooks)->Ok_0.1,
            ),
        ),
    decreases events.len(),
{
    let whole = seq![MarkdownEvent::Start(c)] + events;
    if events.len() == 0 {
        assert(whole.drop_last() =~= Seq::<MarkdownEvent>::empty());
        assert(whole.last() == MarkdownEvent::Start(c));
        assert(render_steps(whole.drop_last(), hooks) == Ok::<
            (Seq<char>, Seq<MarkdownConstruct>),
            RenderError,
        >((Seq::<char>::empty(), Seq::<MarkdownConstruct>::empty())));
        assert(render_steps(whole, hooks) == Ok::<
            (Seq<char>, Seq<MarkdownConstruct>),
            RenderError,
        >((Seq::<char>::empty() + opening_emission(hooks, c), Seq::<
            MarkdownConstruct,
        >::empty().push(c))));
        assert(Seq::<char>::empty() + opening_emission(hooks, c) =~= opening_emission(hooks, c)
            + Seq::<char>::empty());
        assert(Seq::<MarkdownConstruct>::empty().push(c) =~= seq![c] + Seq::<
            MarkdownConstruct,
        >::empty());
    } else {
        let pre = events.drop_last();
        assert(render_steps(pre, hooks) is Ok);
        lemma_start_prefix(c, pre, hooks);
        let wpre = seq![MarkdownEvent::Start(c)] + pre;
        assert(whole.drop_last() =~= wpre);
        assert(whole.last() == events.last());
        let st = render_steps(pre, hooks)->Ok_0;
        let o = opening_emission(hooks, c) + st.0;
        let stk = seq![c] + st.1;
        assert(render_steps(wpre, hooks) == Ok::<(Seq<char>, Seq<MarkdownConstruct>), RenderError>(
            (o, stk),
        ));
        match events.last() {
            MarkdownEvent::Start(d) => {
                assert(o + opening_emission(hooks, d) =~= opening_emission(hooks, c) + (st.0
                    + opening_emission(hooks, d)));
                assert(stk.push(d) =~= seq![c] + st.1.push(d));
            },
            MarkdownEvent::End(d) => {
                assert(st.1.len() > 0);
                assert(stk.last() == st.1.last());
                assert(o + closing_emission(hooks, st.1.last()) =~= opening_emission(hooks, c) + (
                st.0 + closing_emission(hooks, st.1.last())));
                assert(stk.drop_last() =~= seq![c] + st.1.drop_last());
            },
            MarkdownEvent::Text(t) => {
                assert(o + escaped(t@) =~= opening_emission(hooks, c) + (st.0 + escaped(t@)));
            },
            MarkdownEvent::Point(d) => {
                assert(o + opening_emission(hooks, d) =~= opening_emission(hooks, c) + (st.0
                    + opening_emission(hooks, d)));
            },
        }
    }
}

/// A paired construct brackets whatever it contains: around any
/// well-formed inner sequence, the construct's opening emission comes
/// before the inner markup and its closing emission after it, so closes
/// appear in strict reverse order of opens.
pub proof fn lemma_paired_nesting(
    c: MarkdownConstruct,
    inner: Seq<MarkdownEvent>,
    hooks: RenderHooks,
)
    requires
        spec_render(inner, hooks) is Ok,
    ensures
        spec_render(
            seq![MarkdownEvent::Start(c)] + inner + seq![MarkdownEvent::End(c)],
            hooks,
        ) == Ok::<Seq<char>, RenderError>(
            opening_emission(hooks, c) + spec_render(inner, hooks)->Ok_0 + closing_emission(
                hooks,
                c,
            ),
        ),
{
    lemma_start_prefix(c, inner, hooks);
    let opened = seq![MarkdownEvent::Start(c)] + inner;
    let whole = opened + seq![MarkdownEvent::End(c)];
    let m = render_steps(inner, hooks)->Ok_0.0;
    assert(whole.drop_last() =~= opened);
    assert(whole.last() == MarkdownEvent::End(c));
    assert(render_steps(inner, hooks)->Ok_0.1.len() == 0);
    let stk = seq![c] + render_steps(inner, hooks)->Ok_0.1;
    assert(stk.len() == 1);
    assert(stk.last() == c);
    assert(stk.drop_last() =~= Seq::<MarkdownConstruct>::empty());
    assert((opening_emission(hooks, c) + m) + closing_emission(hooks, c) =~= opening_emission(
        hooks,
        c,
    ) + m + closing_emission(hooks, c));
    assert(seq![MarkdownEvent::Start(c)] + inner + seq![MarkdownEvent::End(c)] =~= whole);
}

/// A registered hook overrides the default: wherever the construct is
/// emitted, the hook's fragments stand in place of the default registry
/// tag's fragments.
pub proof fn lemma_hook_overrides_default(
    hooks: RenderHooks,
    c: MarkdownConstruct,
    opening: Seq<char>,
    closing: Seq<char>,
)
    requires
        hook_of(hooks.entries@, c) == Some::<(Seq<char>, Seq<char>)>((opening, closing)),
    ensures
        opening_emission(hooks, c) == opening,
        closing_emission(hooks, c) == closing,
{
}

/// Rendering is deterministic and a pure function of the events and the
/// hooks: the same event sequence under the same hooks always yields the
/// same markup, whatever buffer it is later appended to.
pub proof fn lemma_render_deterministic(
    events1: Seq<MarkdownEvent>,
    hooks1: RenderHooks,
    events2: Seq<MarkdownEvent>,
    hooks2: RenderHooks,
)
    requires
        events1 == events2,
        hooks1 == hooks2,
    ensures
        spec_render(events1, hooks1) == spec_render(events2, hooks2),
{
}

} // verus!
