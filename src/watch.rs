//! Change notifications for the shader sources.

use vstd::prelude::*;
use crate::diagnostic::ShaderStage;

verus! {

/// What a notification says changed about a watched source.
#[derive(Clone, Copy, Debug, PartialEq, Eq, Structural)]
pub enum ChangeKind {
    /// The file's content was modified.
    ContentModified,
    /// Only the file's metadata changed (times, permissions).
    MetadataOnly,
    /// Any other notification: creation, removal, access, rename.
    Other,
}

/// One notification about one of the two shader sources.
#[derive(Clone, Copy, Debug, PartialEq, Eq, Structural)]
pub struct WatchEvent {
    pub source: ShaderStage,
    pub kind: ChangeKind,
}

/// A notification that owes a reload.
pub open spec fn is_content_change(e: WatchEvent) -> bool {
    e.kind == ChangeKind::ContentModified
}

impl WatchEvent {
    /// Whether this notification owes a reload.
    pub fn changes_content(&self) -> (r: bool)
        ensures
            r == is_content_change(*self),
    {
        self.kind == ChangeKind::ContentModified
    }
}

/// The distinct notifications of `s`, each once, in the order in which each
/// first came.
pub open spec fn distinct(s: Seq<WatchEvent>) -> Seq<WatchEvent>
    decreases s.len(),
{
    if s.len() == 0 {
        Seq::empty()
    } else {
        let d = distinct(s.drop_last());
        if d.contains(s.last()) {
            d
        } else {
            d.push(s.last())
        }
    }
}

/// The distinct notifications of `events`, each once, in the order in which
/// each first came. Repeats carry nothing new, so a queue of them can be
/// collapsed before it is handled.
pub fn coalesce(events: &Vec<WatchEvent>) -> (r: Vec<WatchEvent>)
    ensures
        r@ == distinct(events@),
        r@.no_duplicates(),
        forall|e: WatchEvent| r@.contains(e) <==> events@.contains(e),
{
    let mut r: Vec<WatchEvent> = Vec::new();
    let mut i: usize = 0;
    while i < events.len()
        invariant
            i <= events.len(),
            r@ == distinct(events@.take(i as int)),
            r@.no_duplicates(),
            forall|e: WatchEvent| r@.contains(e) <==> events@.take(i as int).contains(e),
        decreases events.len() - i,
    {
        let e = events[i];
        let mut seen = false;
        let mut j: usize = 0;
        while j < r.len()
            invariant
                j <= r.len(),
                seen <==> exists|x: int| 0 <= x < j && r@[x] == e,
            decreases r.len() - j,
        {
            if r[j] == e {
                seen = true;
            }
            j = j + 1;
        }
        proof {
            assert(events@.take(i + 1) =~= events@.take(i as int).push(e));
        }
        let ghost r0 = r@;
        if !seen {
            proof {
                assert(!r@.contains(e));
            }
            r.push(e);
        }
        proof {
            let before = events@.take(i as int);
            let after = events@.take(i + 1);
            assert(after.drop_last() =~= before);
            assert(seen <==> r0.contains(e));
            assert(after =~= before.push(e));
            assert(seen ==> r@ == r0 && r0.contains(e));
            assert(!seen ==> r@ == r0.push(e));
            assert forall|x: WatchEvent| r@.contains(x) implies after.contains(x) by {
                let k = choose|k: int| 0 <= k < r.len() && r@[k] == x;
                if k < r0.len() {
                    assert(r0[k] == x);
                    assert(r0.contains(x));
                    assert(before.contains(x));
                    let k2 = choose|k2: int| 0 <= k2 < before.len() && before[k2] == x;
                    assert(after[k2] == x);
                } else {
                    assert(after[i as int] == x);
                }
            }
            assert forall|x: WatchEvent| after.contains(x) implies r@.contains(x) by {
                let k = choose|k: int| 0 <= k < after.len() && after[k] == x;
                if k < i {
                    assert(before[k] == x);
                    assert(before.contains(x));
                    assert(r0.contains(x));
                    let k2 = choose|k2: int| 0 <= k2 < r0.len() && r0[k2] == x;
                    assert(r@[k2] == x);
                } else if !seen {
                    assert(r@[r0.len() as int] == x);
                }
            }
        }
        i = i + 1;
    }
    proof {
        assert(events@.take(events.len() as int) =~= events@);
    }
    r
}

} // verus!
