//! Synthesis of stable diagnostic codes from an action's type identity.

use vstd::prelude::*;
use crate::text::{str_eq, texts_of};

verus! {

/// Index of the first `::` separator in `s`, or the length when none.
pub open spec fn spec_sep_idx(s: Seq<char>) -> nat
    decreases s.len(),
{
    if s.len() < 2 {
        s.len()
    } else if s[0] == ':' && s[1] == ':' {
        0
    } else {
        1 + spec_sep_idx(s.drop_first())
    }
}

/// The separator index never passes the end, and a found separator
/// leaves room for its two characters.
pub proof fn lemma_sep_idx_bounds(s: Seq<char>)
    ensures
        spec_sep_idx(s) <= s.len(),
        spec_sep_idx(s) < s.len() ==> spec_sep_idx(s) + 2 <= s.len(),
    decreases s.len(),
{
    if s.len() < 2 {
    } else if s[0] == ':' && s[1] == ':' {
    } else {
        lemma_sep_idx_bounds(s.drop_first());
    }
}

/// The segments of a `::`-separated path, split greedily from the left;
/// a path without separators is one segment.
pub open spec fn spec_split(s: Seq<char>) -> Seq<Seq<char>>
    decreases s.len(),
{
    let i = spec_sep_idx(s);
    if i + 2 <= s.len() {
        seq![s.take(i as int)] + spec_split(s.skip(i as int + 2))
    } else {
        seq![s]
    }
}

/// Whether a character ends the variant word of a debug rendering.
pub open spec fn spec_is_delim(c: char) -> bool {
    c == ' ' || c == '(' || c == '{'
}

/// Index of the first delimiter in `d`, or the length when none.
pub open spec fn spec_word_idx(d: Seq<char>) -> nat
    decreases d.len(),
{
    if d.len() == 0 {
        0
    } else if spec_is_delim(d[0]) {
        0
    } else {
        1 + spec_word_idx(d.drop_first())
    }
}

/// The word index never passes the end, everything before it is free of
/// delimiters, and when inside the text it sits on a delimiter.
pub proof fn lemma_word_idx_bounds(d: Seq<char>)
    ensures
        spec_word_idx(d) <= d.len(),
        forall|j: int| 0 <= j < spec_word_idx(d) ==> !spec_is_delim(d[j]),
        spec_word_idx(d) < d.len() ==> spec_is_delim(d[spec_word_idx(d) as int]),
    decreases d.len(),
{
    if d.len() == 0 {
    } else if spec_is_delim(d[0]) {
    } else {
        lemma_word_idx_bounds(d.drop_first());
        assert forall|j: int| 0 <= j < spec_word_idx(d) implies !spec_is_delim(d[j]) by {
            if j >= 1 {
                assert(d.drop_first()[j - 1] == d[j]);
                assert(!spec_is_delim(d.drop_first()[j - 1]));
            }
        }
    }
}

/// A text without delimiters is all one word.
pub proof fn lemma_word_idx_no_delim(d: Seq<char>)
    requires
        forall|j: int| 0 <= j < d.len() ==> !spec_is_delim(d[j]),
    ensures
        spec_word_idx(d) == d.len(),
    decreases d.len(),
{
    if d.len() == 0 {
    } else {
        assert(forall|j: int|
            0 <= j < d.drop_first().len() ==> d.drop_first()[j] == d[j + 1] && !spec_is_delim(
                d.drop_first()[j],
            ));
        lemma_word_idx_no_delim(d.drop_first());
    }
}

/// The first word of a debug rendering: everything before the first
/// space, `(` or `{`; the payload after the cut is discarded.
pub open spec fn spec_first_word(d: Seq<char>) -> Seq<char> {
    d.take(spec_word_idx(d) as int)
}

/// The synthesised diagnostic code for an action whose type path is `t`
/// and whose debug rendering is `d`.
///
/// A value whose debug text starts with its own type name is struct-like:
/// its code is the crate segment and the type segment, with the parent
/// segment between them when the path is deeper than two segments. Any
/// other value is an enum variant: its code is the crate segment, the
/// type segment, and the variant word.
pub open spec fn spec_code(t: Seq<char>, d: Seq<char>) -> Seq<char> {
    let segs = spec_split(t);
    let crate_name = segs[0];
    let type_seg = segs[segs.len() - 1];
    let w = spec_first_word(d);
    if w == type_seg {
        if segs.len() > 2 {
            crate_name + "::"@ + segs[segs.len() - 2] + "::"@ + type_seg
        } else {
            crate_name + "::"@ + type_seg
        }
    } else {
        crate_name + "::"@ + type_seg + "::"@ + w
    }
}

/// The code is stable across payloads: two debug renderings with the
/// same first word synthesise the same code.
pub proof fn lemma_code_stability(t: Seq<char>, d1: Seq<char>, d2: Seq<char>)
    requires
        spec_first_word(d1) == spec_first_word(d2),
    ensures
        spec_code(t, d1) == spec_code(t, d2),
{
}

/// The code never draws on the payload: it equals the code synthesised
/// from the payload-free first word alone.
pub proof fn lemma_code_payload_free(t: Seq<char>, d: Seq<char>)
    ensures
        spec_code(t, d) == spec_code(t, spec_first_word(d)),
{
    lemma_word_idx_bounds(d);
    let w = spec_first_word(d);
    assert(forall|j: int| 0 <= j < w.len() ==> w[j] == d[j] && !spec_is_delim(w[j]));
    lemma_word_idx_no_delim(w);
    assert(spec_first_word(w) =~= w);
    lemma_code_stability(t, d, w);
}

fn sep_idx(s: &str) -> (r: usize)
    ensures
        r as nat == spec_sep_idx(s@),
    decreases s@.len(),
{
    let n = s.unicode_len();
    if n < 2 {
        return n;
    }
    if s.get_char(0) == ':' && s.get_char(1) == ':' {
        return 0;
    }
    let tail = s.substring_char(1, n);
    proof {
        assert(tail@ =~= s@.drop_first());
        lemma_sep_idx_bounds(tail@);
    }
    1 + sep_idx(tail)
}

fn word_idx_exec(s: &str) -> (r: usize)
    ensures
        r as nat == spec_word_idx(s@),
    decreases s@.len(),
{
    let n = s.unicode_len();
    if n == 0 {
        return 0;
    }
    let c = s.get_char(0);
    if c == ' ' || c == '(' || c == '{' {
        return 0;
    }
    let tail = s.substring_char(1, n);
    proof {
        assert(tail@ =~= s@.drop_first());
        lemma_word_idx_bounds(tail@);
    }
    1 + word_idx_exec(tail)
}

/// The first word of a debug rendering.
pub fn first_word(s: &str) -> (r: String)
    ensures
        r@ == spec_first_word(s@),
{
    proof {
        lemma_word_idx_bounds(s@);
    }
    let i = word_idx_exec(s);
    s.substring_char(0, i).to_owned()
}

/// Split a `::`-separated path into its segments.
pub fn split_path(s: &str) -> (r: Vec<String>)
    ensures
        texts_of(r@) == spec_split(s@),
    decreases s@.len(),
{
    proof {
        lemma_sep_idx_bounds(s@);
    }
    let n = s.unicode_len();
    let i = sep_idx(s);
    if i < n {
        let head = s.substring_char(0, i).to_owned();
        let rest = s.substring_char(i + 2, n);
        proof {
            assert(rest@ =~= s@.skip(i as int + 2));
        }
        let mut segs = split_path(rest);
        segs.insert(0, head);
        proof {
            assert(texts_of(segs@) =~= spec_split(s@));
        }
        segs
    } else {
        let mut segs: Vec<String> = Vec::new();
        segs.push(s.to_owned());
        proof {
            assert(texts_of(segs@) =~= spec_split(s@));
        }
        segs
    }
}

/// Synthesise the diagnostic code from a type path and a debug text.
pub fn synthesize_code(type_path: &str, debug_text: &str) -> (r: String)
    ensures
        r@ == spec_code(type_path@, debug_text@),
{
    let ghost segs_spec = spec_split(type_path@);
    let segs = split_path(type_path);
    proof {
        assert(segs_spec.len() >= 1);
        assert(segs@.len() == segs_spec.len());
        assert(forall|j: int| 0 <= j < segs@.len() ==> (#[trigger] segs@[j])@ == segs_spec[j]);
    }
    let w = first_word(debug_text);
    let last = segs.len() - 1;
    let is_struct = str_eq(w.as_str(), segs[last].as_str());
    let mut r = segs[0].clone();
    r.append("::");
    if is_struct {
        if segs.len() > 2 {
            r.append(segs[segs.len() - 2].as_str());
            r.append("::");
        }
        r.append(segs[last].as_str());
        proof {
            assert(r@ =~= spec_code(type_path@, debug_text@));
        }
    } else {
        r.append(segs[last].as_str());
        r.append("::");
        r.append(w.as_str());
        proof {
            assert(r@ =~= spec_code(type_path@, debug_text@));
        }
    }
    r
}

} // verus!
