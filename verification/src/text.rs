//! Verified helpers for building and comparing strings.

use vstd::prelude::*;

verus! {

/// Whether two string slices hold the same characters.
pub fn str_eq(a: &str, b: &str) -> (r: bool)
    ensures
        r == (a@ == b@),
{
    let an = a.unicode_len();
    let bn = b.unicode_len();
    if an != bn {
        return false;
    }
    let mut i: usize = 0;
    while i < an
        invariant
            an == a@.len(),
            bn == b@.len(),
            an == bn,
            i <= an,
            forall|j: int| 0 <= j < i ==> a@[j] == b@[j],
        decreases an - i,
    {
        if a.get_char(i) != b.get_char(i) {
            return false;
        }
        i += 1;
    }
    proof {
        assert(a@ =~= b@);
    }
    true
}

/// Whether `s` starts with `p`.
pub fn str_starts_with(s: &str, p: &str) -> (r: bool)
    ensures
        r == p@.is_prefix_of(s@),
{
    let pn = p.unicode_len();
    let sn = s.unicode_len();
    if pn > sn {
        return false;
    }
    let mut i: usize = 0;
    while i < pn
        invariant
            pn == p@.len(),
            sn == s@.len(),
            pn <= sn,
            i <= pn,
            forall|j: int| 0 <= j < i ==> p@[j] == s@[j],
        decreases pn - i,
    {
        if p.get_char(i) != s.get_char(i) {
            assert(!p@.is_prefix_of(s@)) by {
                if p@.is_prefix_of(s@) {
                    assert(p@[i as int] == s@.subrange(0, pn as int)[i as int]);
                }
            }
            return false;
        }
        i += 1;
    }
    proof {
        assert(p@ =~= s@.subrange(0, pn as int));
    }
    true
}

/// The character for one decimal digit.
pub open spec fn spec_digit(d: nat) -> char {
    if d == 0 {
        '0'
    } else if d == 1 {
        '1'
    } else if d == 2 {
        '2'
    } else if d == 3 {
        '3'
    } else if d == 4 {
        '4'
    } else if d == 5 {
        '5'
    } else if d == 6 {
        '6'
    } else if d == 7 {
        '7'
    } else if d == 8 {
        '8'
    } else {
        '9'
    }
}

/// The decimal numeral of `n`, most significant digit first.
pub open spec fn spec_dec(n: nat) -> Seq<char>
    decreases n,
{
    if n < 10 {
        seq![spec_digit(n)]
    } else {
        spec_dec(n / 10) + seq![spec_digit(n % 10)]
    }
}

/// The one-character string of a decimal digit.
fn digit_str(d: u64) -> (r: &'static str)
    requires
        d < 10,
    ensures
        r@ == seq![spec_digit(d as nat)],
{
    proof {
        reveal_strlit("0");
        reveal_strlit("1");
        reveal_strlit("2");
        reveal_strlit("3");
        reveal_strlit("4");
        reveal_strlit("5");
        reveal_strlit("6");
        reveal_strlit("7");
        reveal_strlit("8");
        reveal_strlit("9");
    }
    let r = if d == 0 {
        "0"
    } else if d == 1 {
        "1"
    } else if d == 2 {
        "2"
    } else if d == 3 {
        "3"
    } else if d == 4 {
        "4"
    } else if d == 5 {
        "5"
    } else if d == 6 {
        "6"
    } else if d == 7 {
        "7"
    } else if d == 8 {
        "8"
    } else {
        "9"
    };
    proof {
        assert(r@ =~= seq![spec_digit(d as nat)]);
    }
    r
}

/// Render `n` in decimal.
pub fn u64_to_dec(n: u64) -> (r: String)
    ensures
        r@ == spec_dec(n as nat),
    decreases n,
{
    if n < 10 {
        digit_str(n).to_owned()
    } else {
        proof {
            assert(n / 10 < n) by (nonlinear_arith)
                requires
                    n >= 10,
            ;
        }
        let mut r = u64_to_dec(n / 10);
        r.append(digit_str(n % 10));
        r
    }
}

/// Whether a character is a decimal digit.
pub open spec fn spec_is_digit(c: char) -> bool {
    '0' <= c && c <= '9'
}

/// The number a digit sequence denotes, most significant digit first.
pub open spec fn spec_digits_val(s: Seq<char>) -> int
    decreases s.len(),
{
    if s.len() == 0 {
        0
    } else {
        spec_digits_val(s.drop_last()) * 10 + (s.last() as int - '0' as int)
    }
}

/// A digit sequence denotes at least as much as any of its prefixes.
pub proof fn lemma_digits_val_prefix(s: Seq<char>, k: int)
    requires
        0 <= k <= s.len(),
        forall|j: int| 0 <= j < s.len() ==> spec_is_digit(#[trigger] s[j]),
    ensures
        spec_digits_val(s.take(k)) >= 0,
        spec_digits_val(s) >= spec_digits_val(s.take(k)),
    decreases s.len() - k,
{
    if k == 0 {
        assert(s.take(0) =~= Seq::empty());
        lemma_digits_val_nonneg(s);
    } else if k == s.len() {
        assert(s.take(k) =~= s);
        lemma_digits_val_nonneg(s);
    } else {
        lemma_digits_val_prefix(s, k + 1);
        assert(s.take(k + 1).drop_last() =~= s.take(k));
        assert(s.take(k + 1).last() == s[k]);
        lemma_digits_val_nonneg(s.take(k));
        assert(spec_digits_val(s.take(k + 1)) == spec_digits_val(s.take(k)) * 10 + (s[k] as int
            - '0' as int));
    }
}

/// A sequence of digits denotes a number, never a negative value.
pub proof fn lemma_digits_val_nonneg(s: Seq<char>)
    requires
        forall|j: int| 0 <= j < s.len() ==> spec_is_digit(#[trigger] s[j]),
    ensures
        spec_digits_val(s) >= 0,
    decreases s.len(),
{
    if s.len() > 0 {
        assert(forall|j: int|
            0 <= j < s.drop_last().len() ==> spec_is_digit(#[trigger] s.drop_last()[j]));
        lemma_digits_val_nonneg(s.drop_last());
    }
}

/// The decimal numeral of a number is all digits and denotes it back.
pub proof fn lemma_dec_val(n: nat)
    ensures
        forall|j: int|
            0 <= j < spec_dec(n).len() ==> spec_is_digit(#[trigger] spec_dec(n)[j]),
        spec_digits_val(spec_dec(n)) == n,
    decreases n,
{
    if n < 10 {
        assert(spec_digit(n) as int == '0' as int + n);
        assert(spec_is_digit(spec_digit(n)));
        assert(spec_dec(n) =~= seq![spec_digit(n)]);
        assert(spec_dec(n).drop_last() =~= Seq::<char>::empty());
        assert(spec_dec(n).last() == spec_digit(n));
        assert(spec_digits_val(Seq::<char>::empty()) == 0);
        assert(spec_digits_val(spec_dec(n)) == spec_digits_val(Seq::<char>::empty()) * 10 + (
        spec_digit(n) as int - '0' as int));
    } else {
        assert(spec_digit(n % 10) as int == '0' as int + (n % 10));
        assert(spec_is_digit(spec_digit(n % 10)));
        lemma_dec_val(n / 10);
        assert(spec_dec(n) == spec_dec(n / 10) + seq![spec_digit(n % 10)]);
        assert(spec_dec(n).drop_last() =~= spec_dec(n / 10));
        assert(spec_dec(n).last() == spec_digit(n % 10));
        assert(spec_digits_val(spec_dec(n)) == spec_digits_val(spec_dec(n / 10)) * 10 + (
        spec_digit(n % 10) as int - '0' as int));
        assert(n / 10 * 10 + n % 10 == n);
        assert(forall|j: int|
            0 <= j < spec_dec(n).len() ==> spec_is_digit(#[trigger] spec_dec(n)[j])) by {
            assert(forall|j: int|
                0 <= j < spec_dec(n / 10).len() ==> spec_dec(n)[j] == spec_dec(n / 10)[j]);
        }
    }
}

/// `count` copies of one character.
pub open spec fn spec_repeat(c: char, count: nat) -> Seq<char>
    decreases count,
{
    if count == 0 {
        Seq::empty()
    } else {
        spec_repeat(c, (count - 1) as nat) + seq![c]
    }
}

/// `s` padded on the left with spaces to at least `width` characters.
pub open spec fn spec_pad_left(s: Seq<char>, width: nat) -> Seq<char> {
    if s.len() >= width {
        s
    } else {
        spec_repeat(' ', (width - s.len()) as nat) + s
    }
}

/// `s` padded on the left with zeros to at least `width` characters.
pub open spec fn spec_pad_zeros(s: Seq<char>, width: nat) -> Seq<char> {
    if s.len() >= width {
        s
    } else {
        spec_repeat('0', (width - s.len()) as nat) + s
    }
}

/// Pad `s` on the left with spaces to at least `width` characters.
pub fn pad_left(s: &str, width: usize) -> (r: String)
    ensures
        r@ == spec_pad_left(s@, width as nat),
{
    proof {
        reveal_strlit(" ");
    }
    let n = s.unicode_len();
    let mut r = String::new();
    if n < width {
        let mut i: usize = 0;
        while i < width - n
            invariant
                n == s@.len(),
                n < width,
                i <= width - n,
                r@ == spec_repeat(' ', i as nat),
            decreases width - n - i,
        {
            r.append(" ");
            proof {
                reveal_strlit(" ");
                assert(" "@ =~= seq![' ']);
                assert(r@ == spec_repeat(' ', i as nat) + seq![' ']);
                assert(r@ == spec_repeat(' ', (i + 1) as nat));
            }
            i += 1;
        }
    }
    r.append(s);
    proof {
        if n >= width {
            assert(r@ =~= s@);
        }
    }
    r
}

/// Pad `s` on the left with zeros to at least `width` characters.
pub fn pad_zeros(s: &str, width: usize) -> (r: String)
    ensures
        r@ == spec_pad_zeros(s@, width as nat),
{
    proof {
        reveal_strlit("0");
    }
    let n = s.unicode_len();
    let mut r = String::new();
    if n < width {
        let mut i: usize = 0;
        while i < width - n
            invariant
                n == s@.len(),
                n < width,
                i <= width - n,
                r@ == spec_repeat('0', i as nat),
            decreases width - n - i,
        {
            r.append("0");
            proof {
                reveal_strlit("0");
                assert("0"@ =~= seq!['0']);
                assert(r@ == spec_repeat('0', i as nat) + seq!['0']);
                assert(r@ == spec_repeat('0', (i + 1) as nat));
            }
            i += 1;
        }
    }
    r.append(s);
    proof {
        if n >= width {
            assert(r@ =~= s@);
        }
    }
    r
}

/// The character sequences of a list of strings.
pub open spec fn texts_of(lines: Seq<String>) -> Seq<Seq<char>> {
    lines.map_values(|s: String| s@)
}

/// The character sequences of a list of key/value string pairs.
pub open spec fn kv_texts(entries: Seq<(String, String)>) -> Seq<(Seq<char>, Seq<char>)> {
    entries.map_values(|p: (String, String)| (p.0@, p.1@))
}

/// The texts joined by single newlines, with no trailing newline,
/// starting at index `i`.
pub open spec fn spec_join_from(texts: Seq<Seq<char>>, i: int) -> Seq<char>
    decreases texts.len() - i,
{
    if i < 0 || i >= texts.len() {
        Seq::empty()
    } else if i == texts.len() - 1 {
        texts[i]
    } else {
        texts[i] + "\n"@ + spec_join_from(texts, i + 1)
    }
}

/// The texts joined by single newlines, with no trailing newline.
pub open spec fn spec_join(texts: Seq<Seq<char>>) -> Seq<char> {
    spec_join_from(texts, 0)
}

fn join_from(lines: &Vec<String>, i: usize) -> (r: String)
    requires
        i <= lines@.len(),
    ensures
        r@ == spec_join_from(texts_of(lines@), i as int),
    decreases lines@.len() - i,
{
    if i >= lines.len() {
        String::new()
    } else if i == lines.len() - 1 {
        lines[i].clone()
    } else {
        let mut r = lines[i].clone();
        r.append("\n");
        let rest = join_from(lines, i + 1);
        r.append(rest.as_str());
        proof {
            assert(r@ =~= texts_of(lines@)[i as int] + "\n"@ + spec_join_from(
                texts_of(lines@),
                i + 1,
            ));
        }
        r
    }
}

/// Join the lines with single newlines, with no trailing newline.
pub fn join_lines(lines: &Vec<String>) -> (r: String)
    ensures
        r@ == spec_join(texts_of(lines@)),
{
    join_from(lines, 0)
}

/// The value of the first entry whose key is `k`, if any.
pub open spec fn spec_lookup(entries: Seq<(Seq<char>, Seq<char>)>, k: Seq<char>) -> Option<
    Seq<char>,
>
    decreases entries.len(),
{
    if entries.len() == 0 {
        None
    } else if entries[0].0 == k {
        Some(entries[0].1)
    } else {
        spec_lookup(entries.drop_first(), k)
    }
}

/// Entries whose first `i` keys all differ from `k` look up as their tail does.
pub proof fn lemma_lookup_skip(entries: Seq<(Seq<char>, Seq<char>)>, k: Seq<char>, i: int)
    requires
        0 <= i <= entries.len(),
        forall|j: int| 0 <= j < i ==> (#[trigger] entries[j]).0 != k,
    ensures
        spec_lookup(entries, k) == spec_lookup(entries.skip(i), k),
    decreases i,
{
    if i > 0 {
        assert(entries[0].0 != k);
        lemma_lookup_skip(entries.drop_first(), k, i - 1);
        assert(entries.drop_first().skip(i - 1) =~= entries.skip(i));
    } else {
        assert(entries.skip(0) =~= entries);
    }
}

/// Find the value of the first entry whose key is `key`, if any.
pub fn lookup_first(entries: &Vec<(String, String)>, key: &str) -> (r: Option<String>)
    ensures
        match r {
            Some(v) => spec_lookup(kv_texts(entries@), key@) == Some(v@),
            None => spec_lookup(kv_texts(entries@), key@) is None,
        },
{
    let ghost kv = kv_texts(entries@);
    let mut i: usize = 0;
    while i < entries.len()
        invariant
            kv == kv_texts(entries@),
            i <= entries@.len(),
            forall|j: int| 0 <= j < i ==> (#[trigger] kv[j]).0 != key@,
        decreases entries@.len() - i,
    {
        if str_eq(entries[i].0.as_str(), key) {
            proof {
                lemma_lookup_skip(kv, key@, i as int);
                assert(kv.skip(i as int)[0] == kv[i as int]);
            }
            return Some(entries[i].1.clone());
        }
        i += 1;
    }
    proof {
        lemma_lookup_skip(kv, key@, entries@.len() as int);
        assert(kv.skip(entries@.len() as int) =~= Seq::<(Seq<char>, Seq<char>)>::empty());
    }
    None
}

} // verus!
