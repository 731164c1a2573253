//! Caller-supplied overrides of the default markup emission.

use vstd::prelude::*;
use vstd::string::StringExecFns;
use crate::construct::MarkdownConstruct;

verus! {

/// The replacement markup a hook supplies for one construct: the
/// fragment emitted where the construct starts and the fragment emitted
/// where it ends.
pub struct HookEmission {
    pub opening: String,
    pub closing: String,
}

/// A caller-supplied table of per-construct overrides.
///
/// A construct with an entry is rendered with that entry's fragments in
/// place of the default registry tag; a construct without one falls back
/// to the default.  Registering a construct twice lets the later entry
/// win.  The renderer only reads the table.
pub struct RenderHooks {
    pub entries: Vec<(MarkdownConstruct, HookEmission)>,
}

/// The override in force for a construct: the latest registered entry
/// for it, if any.
pub open spec fn hook_of(
    entries: Seq<(MarkdownConstruct, HookEmission)>,
    c: MarkdownConstruct,
) -> Option<(Seq<char>, Seq<char>)>
    decreases entries.len(),
{
    if entries.len() == 0 {
        None
    } else if entries.last().0 == c {
        Some((entries.last().1.opening@, entries.last().1.closing@))
    } else {
        hook_of(entries.drop_last(), c)
    }
}

impl RenderHooks {
    /// An empty table: every construct falls back to the default
    /// registry.
    pub fn new() -> (h: RenderHooks)
        ensures
            h.entries@.len() == 0,
            forall|c: MarkdownConstruct| hook_of(h.entries@, c) is None,
    {
        RenderHooks { entries: Vec::new() }
    }

    /// Registers an override for a construct, shadowing any earlier
    /// entry for the same construct and leaving every other construct's
    /// override unchanged.
    pub fn register(&mut self, c: MarkdownConstruct, opening: String, closing: String)
        ensures
            final(self).entries@ == old(self).entries@.push(
                (c, HookEmission { opening, closing }),
            ),
            hook_of(final(self).entries@, c) == Some::<(Seq<char>, Seq<char>)>(
                (opening@, closing@),
            ),
            forall|x: MarkdownConstruct|
                x != c ==> hook_of(final(self).entries@, x) == hook_of(old(self).entries@, x),
    {
        self.entries.push((c, HookEmission { opening, closing }));
        proof {
            assert forall|x: MarkdownConstruct| x != c implies hook_of(self.entries@, x)
                == hook_of(old(self).entries@, x) by {
                assert(self.entries@.drop_last() =~= old(self).entries@);
            }
        }
    }

    /// The override registered for a construct, if any, as owned copies
    /// of its two fragments.
    pub fn get(&self, c: MarkdownConstruct) -> (r: Option<(String, String)>)
        ensures
            match r {
                Some(pair) => hook_of(self.entries@, c) == Some::<(Seq<char>, Seq<char>)>(
                    (pair.0@, pair.1@),
                ),
                None => hook_of(self.entries@, c) is None,
            },
    {
        let mut j: usize = self.entries.len();
        proof {
            assert(self.entries@.take(j as int) =~= self.entries@);
        }
        while j > 0
            invariant
                j <= self.entries@.len(),
                hook_of(self.entries@.take(j as int), c) == hook_of(self.entries@, c),
            decreases j,
        {
            j = j - 1;
            proof {
                assert(self.entries@.take(j + 1).drop_last() =~= self.entries@.take(j as int));
                assert(self.entries@.take(j + 1).last() == self.entries@[j as int]);
            }
            let pair = &self.entries[j];
            if pair.0 == c {
                return Some((pair.1.opening.clone(), pair.1.closing.clone()));
            }
        }
        None
    }
}

} // verus!
