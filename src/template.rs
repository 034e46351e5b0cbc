//! Substitution of the edited shader body into the fragment template.
//!
//! The placeholder is the literal token `{content}`. Every other character of
//! the template, braces included, is copied unchanged, so ordinary shading
//! language text needs no escaping.

use vstd::prelude::*;
use crate::diagnostic::{Diagnostic, DiagnosticKind};

verus! {

/// Number of characters in the placeholder token.
pub const PLACEHOLDER_LEN: usize = 9;

/// The placeholder token, `{content}`.
pub open spec fn placeholder() -> Seq<char> {
    seq!['{', 'c', 'o', 'n', 't', 'e', 'n', 't', '}']
}

/// The message for a template without the placeholder token.
pub open spec fn no_placeholder_message() -> Seq<char> {
    "the template holds no {content} placeholder"@
}

/// The placeholder token starts at position `i` of `t`.
pub open spec fn occurs_at(t: Seq<char>, i: int) -> bool {
    0 <= i && i + placeholder().len() <= t.len() && t.subrange(i, i + placeholder().len())
        == placeholder()
}

/// The template holds at least one placeholder token.
pub open spec fn has_placeholder(t: Seq<char>) -> bool {
    exists|i: int| occurs_at(t, i)
}

/// `t` with each placeholder token, scanned from the left and without
/// overlaps, replaced by `body`.
pub open spec fn substituted(t: Seq<char>, body: Seq<char>) -> Seq<char>
    decreases t.len(),
{
    if t.len() == 0 {
        Seq::empty()
    } else if occurs_at(t, 0) {
        body + substituted(t.skip(placeholder().len() as int), body)
    } else {
        seq![t[0]] + substituted(t.skip(1), body)
    }
}

/// Unfolds `substituted` at position `i` of `t`.
proof fn lemma_substituted_step(t: Seq<char>, body: Seq<char>, i: int)
    requires
        0 <= i < t.len(),
    ensures
        occurs_at(t, i) ==> substituted(t.subrange(i, t.len() as int), body) == body
            + substituted(t.subrange(i + 9, t.len() as int), body),
        !occurs_at(t, i) ==> substituted(t.subrange(i, t.len() as int), body) == seq![t[i]]
            + substituted(t.subrange(i + 1, t.len() as int), body),
{
    let rest = t.subrange(i, t.len() as int);
    assert(rest.len() > 0);
    if occurs_at(t, i) {
        assert(rest.subrange(0, 9) =~= t.subrange(i, i + 9));
        assert(rest.skip(9) =~= t.subrange(i + 9, t.len() as int));
    } else {
        if occurs_at(rest, 0) {
            assert(rest.subrange(0, 9) =~= t.subrange(i, i + 9));
        }
        assert(rest.skip(1) =~= t.subrange(i + 1, t.len() as int));
    }
}

/// The characters of `s`, in order.
pub(crate) fn chars_of(s: &str) -> (r: Vec<char>)
    ensures
        r@ == s@,
{
    let mut r: Vec<char> = Vec::new();
    for c in it: s.chars()
        invariant
            r@ == it.seq().take(it.index() as int),
    {
        r.push(c);
    }
    r
}

/// Whether the placeholder token starts at position `i` of `chars`.
fn placeholder_at(chars: &Vec<char>, i: usize) -> (r: bool)
    ensures
        r == occurs_at(chars@, i as int),
{
    if chars.len() < PLACEHOLDER_LEN || i > chars.len() - PLACEHOLDER_LEN {
        return false;
    }
    let r = chars[i] == '{' && chars[i + 1] == 'c' && chars[i + 2] == 'o' && chars[i + 3] == 'n'
        && chars[i + 4] == 't' && chars[i + 5] == 'e' && chars[i + 6] == 'n' && chars[i + 7]
        == 't' && chars[i + 8] == '}';
    proof {
        let w = chars@.subrange(i as int, i + 9);
        if r {
            assert(w =~= placeholder());
        } else if w == placeholder() {
            assert(w[0] == '{' && w[1] == 'c' && w[2] == 'o' && w[3] == 'n' && w[4] == 't');
            assert(w[5] == 'e' && w[6] == 'n' && w[7] == 't' && w[8] == '}');
        }
    }
    r
}

/// Whether `template` holds the placeholder token.
pub fn contains_placeholder(template: &str) -> (r: bool)
    ensures
        r == has_placeholder(template@),
{
    let chars = chars_of(template);
    let n = chars.len();
    let mut i: usize = 0;
    while i < n
        invariant
            chars@ == template@,
            n == chars@.len(),
            i <= n,
            forall|j: int| 0 <= j < i ==> !occurs_at(template@, j),
        decreases n - i,
    {
        if placeholder_at(&chars, i) {
            return true;
        }
        i = i + 1;
    }
    assert forall|j: int| !occurs_at(template@, j) by {
        if j >= n {
            assert(!occurs_at(template@, j));
        }
    }
    false
}

/// The fragment source: `template` with its placeholder token replaced by
/// `body`. A template without the token is refused rather than handed back
/// unchanged.
pub fn materialize(template: &str, body: &str) -> (r: Result<String, Diagnostic>)
    ensures
        r is Ok <==> has_placeholder(template@),
        r matches Ok(s) ==> s@ == substituted(template@, body@),
        r matches Err(d) ==> d.kind == DiagnosticKind::TemplateError && d.message@
            == no_placeholder_message() && d.span is None,
{
    let chars = chars_of(template);
    let n = chars.len();
    let ghost t = template@;
    let mut out = String::new();
    let mut found = false;
    let mut run_start: usize = 0;
    let mut i: usize = 0;
    proof {
        assert(t.subrange(0, n as int) =~= t);
    }
    while i < n
        invariant
            chars@ == t,
            t == template@,
            n == t.len(),
            run_start <= i <= n,
            out@ + t.subrange(run_start as int, i as int) + substituted(
                t.subrange(i as int, n as int),
                body@,
            ) == substituted(t, body@),
            found <==> exists|j: int| 0 <= j < i && occurs_at(t, j),
            !found ==> forall|j: int| 0 <= j < i ==> !occurs_at(t, j),
        decreases n - i,
    {
        proof {
            lemma_substituted_step(t, body@, i as int);
        }
        if placeholder_at(&chars, i) {
            let run = template.substring_char(run_start, i);
            proof {
                assert(t.subrange(run_start as int, i as int + 9) =~= t.subrange(
                    run_start as int,
                    i as int,
                ) + placeholder());
            }
            out.append(run);
            out.append(body);
            proof {
                assert(out@ + t.subrange(i + 9, i + 9) =~= out@);
            }
            found = true;
            i = i + PLACEHOLDER_LEN;
            run_start = i;
        } else {
            proof {
                assert(t.subrange(run_start as int, i + 1) =~= t.subrange(run_start as int, i as int)
                    + seq![t[i as int]]);
            }
            i = i + 1;
        }
    }
    if !found {
        assert forall|j: int| !occurs_at(t, j) by {
            if j >= n {
                assert(!occurs_at(t, j));
            }
        }
        return Err(
            Diagnostic::new(
                DiagnosticKind::TemplateError,
                String::from_str("the template holds no {content} placeholder"),
            ),
        );
    }
    let tail = template.substring_char(run_start, n);
    out.append(tail);
    proof {
        assert(t.subrange(n as int, n as int) =~= Seq::<char>::empty());
        assert(substituted(Seq::<char>::empty(), body@) == Seq::<char>::empty());
        assert(out@ =~= out@ + Seq::<char>::empty());
    }
    Ok(out)
}

/// Substitution depends on the template and the body alone: two
/// materializations of one template with one body agree, in outcome and in
/// text.
pub proof fn lemma_materialize_deterministic(
    template: Seq<char>,
    body: Seq<char>,
    first: Result<String, Diagnostic>,
    second: Result<String, Diagnostic>,
)
    requires
        first is Ok <==> has_placeholder(template),
        first matches Ok(s) ==> s@ == substituted(template, body),
        second is Ok <==> has_placeholder(template),
        second matches Ok(s) ==> s@ == substituted(template, body),
    ensures
        first is Ok <==> second is Ok,
        first is Ok ==> first->Ok_0@ == second->Ok_0@,
{
}

} // verus!
