//! Plain text helpers: comparing, trimming, splitting and number parsing.
use vstd::prelude::*;
use vstd::view::View as _;

use crate::traits::push_char;

verus! {

/// Whether two string slices read the same.
pub fn str_eq(a: &str, b: &str) -> (r: bool)
    ensures
        r == (a@ == b@),
{
    let n = a.unicode_len();
    let m = b.unicode_len();
    if n != m {
        return false;
    }
    let mut i: usize = 0;
    while i < n
        invariant
            n == a@.len(),
            n == b@.len(),
            i <= n,
            forall|j: int| 0 <= j < i ==> a@[j] == b@[j],
        decreases n - i,
    {
        if a.get_char(i) != b.get_char(i) {
            return false;
        }
        i = i + 1;
    }
    proof {
        assert(a@ =~= b@);
    }
    true
}

/// The blank characters trimmed from the edges of input.
pub open spec fn is_blank(c: char) -> bool {
    c == ' ' || c == '\t' || c == '\r' || c == '\n'
}

/// `s` without leading blanks.
pub open spec fn trim_left(s: Seq<char>) -> Seq<char>
    decreases s.len(),
{
    if s.len() > 0 && is_blank(s[0]) {
        trim_left(s.drop_first())
    } else {
        s
    }
}

/// `s` without trailing blanks.
pub open spec fn trim_right(s: Seq<char>) -> Seq<char>
    decreases s.len(),
{
    if s.len() > 0 && is_blank(s.last()) {
        trim_right(s.drop_last())
    } else {
        s
    }
}

/// `s` without blanks on either edge.
pub open spec fn trim(s: Seq<char>) -> Seq<char> {
    trim_right(trim_left(s))
}

/// Trimming from the right keeps any prefix that ends in a non-blank.
proof fn lemma_trim_right_stops(s: Seq<char>, i: int)
    requires
        0 <= i <= s.len(),
        forall|j: int| i <= j < s.len() ==> is_blank(s[j]),
        i == 0 || !is_blank(s[i - 1]),
    ensures
        trim_right(s) == s.take(i),
    decreases s.len() - i,
{
    if i == s.len() {
        if s.len() == 0 || !is_blank(s.last()) {
            assert(s.take(i) =~= s);
        } else {
            assert(false);
        }
    } else {
        assert(is_blank(s.last()));
        assert(s.drop_last() =~= s.take(s.len() - 1));
        lemma_trim_right_stops(s.take(s.len() - 1), i);
        assert(s.take(s.len() - 1).take(i) =~= s.take(i));
    }
}

/// Trimming from the left skips exactly the leading blanks.
proof fn lemma_trim_left_stops(s: Seq<char>, i: int)
    requires
        0 <= i <= s.len(),
        forall|j: int| 0 <= j < i ==> is_blank(s[j]),
        i == s.len() || !is_blank(s[i]),
    ensures
        trim_left(s) == s.skip(i),
    decreases i,
{
    if i == 0 {
        if s.len() == 0 || !is_blank(s[0]) {
            assert(s.skip(0) =~= s);
        } else {
            assert(false);
        }
    } else {
        assert(is_blank(s[0]));
        lemma_trim_left_stops(s.drop_first(), i - 1);
        assert(s.drop_first().skip(i - 1) =~= s.skip(i));
    }
}

/// Copies `s` trimmed of blanks on both edges.
pub fn trim_str(s: &str) -> (r: String)
    ensures
        r@ == trim(s@),
{
    let n = s.unicode_len();
    let mut start: usize = 0;
    while start < n && is_blank_char(s.get_char(start))
        invariant
            n == s@.len(),
            start <= n,
            forall|j: int| 0 <= j < start ==> is_blank(s@[j]),
        decreases n - start,
    {
        start = start + 1;
    }
    proof {
        lemma_trim_left_stops(s@, start as int);
    }
    let mut end: usize = n;
    while end > start && is_blank_char(s.get_char(end - 1))
        invariant
            n == s@.len(),
            start <= end <= n,
            forall|j: int| end <= j < n ==> is_blank(s@[j]),
        decreases end,
    {
        end = end - 1;
    }
    let piece = s.substring_char(start, end);
    proof {
        let left = s@.skip(start as int);
        if end == start {
            assert(forall|j: int| start <= j < n ==> is_blank(s@[j]));
            assert(forall|j: int| 0 <= j < left.len() ==> is_blank(left[j]));
            lemma_trim_right_stops(left, 0);
        } else {
            assert(!is_blank(s@[end - 1]));
            assert(forall|j: int|
                end - start <= j < left.len() ==> is_blank(#[trigger] left[j]));
            lemma_trim_right_stops(left, end - start);
        }
        assert(left.take(end - start) =~= s@.subrange(start as int, end as int));
    }
    piece.to_owned()
}

/// Whether `c` is one of the blank characters.
pub fn is_blank_char(c: char) -> (r: bool)
    ensures
        r == is_blank(c),
{
    c == ' ' || c == '\t' || c == '\r' || c == '\n'
}

/// The pieces of `s` between occurrences of `sep`, empty pieces dropped.
pub open spec fn split_parts(s: Seq<char>, sep: char) -> Seq<Seq<char>>
    decreases s.len(),
{
    if s.len() == 0 {
        seq![]
    } else if s[0] == sep {
        split_parts(s.drop_first(), sep)
    } else {
        let rest = split_parts(s.drop_first(), sep);
        if s.len() > 1 && s[1] != sep {
            if rest.len() > 0 {
                rest.update(0, seq![s[0]] + rest[0])
            } else {
                seq![seq![s[0]]]
            }
        } else {
            seq![seq![s[0]]] + rest
        }
    }
}

/// Splits `s` at `sep`, dropping empty pieces.
pub fn split_str(s: &str, sep: char) -> (r: Vec<String>)
    ensures
        r@.map_values(|t: String| t@) == split_parts(s@, sep),
    decreases s@.len(),
{
    proof {
        assert(s@.skip(0) =~= s@);
    }
    split_from(s, sep, 0)
}

/// Splits the suffix of `s` that starts at `from`.
fn split_from(s: &str, sep: char, from: usize) -> (r: Vec<String>)
    requires
        from <= s@.len(),
    ensures
        r@.map_values(|t: String| t@) == split_parts(s@.skip(from as int), sep),
    decreases s@.len() - from,
{
    let n = s.unicode_len();
    let ghost suffix = s@.skip(from as int);
    if from == n {
        let r: Vec<String> = Vec::new();
        proof {
            assert(suffix =~= Seq::<char>::empty());
            assert(r@.map_values(|t: String| t@) =~= split_parts(suffix, sep));
        }
        return r;
    }
    let c = s.get_char(from);
    proof {
        assert(suffix[0] == s@[from as int]);
        assert(suffix.drop_first() =~= s@.skip(from as int + 1));
    }
    if c == sep {
        split_from(s, sep, from + 1)
    } else {
        let mut rest = split_from(s, sep, from + 1);
        let joined = from + 1 < n && s.get_char(from + 1) != sep;
        proof {
            if from as int + 1 < n {
                assert(suffix[1] == s@[from as int + 1]);
            }
        }
        if joined {
            if rest.len() > 0 {
                let head = rest.remove(0);
                let mut w = String::new();
                push_char(&mut w, c);
                w.append(head.as_str());
                rest.insert(0, w);
                proof {
                    let parts = split_parts(suffix.drop_first(), sep);
                    assert(rest@.map_values(|t: String| t@) =~= parts.update(
                        0,
                        seq![c] + parts[0],
                    ));
                }
                rest
            } else {
                let mut w = String::new();
                push_char(&mut w, c);
                let mut out: Vec<String> = Vec::new();
                out.push(w);
                proof {
                    assert(out@.map_values(|t: String| t@) =~= seq![seq![c]]);
                }
                out
            }
        } else {
            let mut w = String::new();
            push_char(&mut w, c);
            let mut out: Vec<String> = Vec::new();
            out.push(w);
            let mut rest = rest;
            let ghost rest_view = rest@;
            out.append(&mut rest);
            proof {
                let parts = split_parts(suffix.drop_first(), sep);
                assert(out@.map_values(|t: String| t@) =~= seq![seq![c]] + rest_view.map_values(
                    |t: String| t@,
                ));
            }
            out
        }
    }
}

/// The first run of non-space characters of `s`.
pub open spec fn head_word(s: Seq<char>) -> Seq<char>
    decreases s.len(),
{
    if s.len() == 0 || s[0] == ' ' {
        Seq::empty()
    } else {
        seq![s[0]] + head_word(s.drop_first())
    }
}

/// What follows the first word and the space after it; empty when the
/// first word runs to the end.
pub open spec fn tail_after_word(s: Seq<char>) -> Seq<char> {
    if head_word(s).len() >= s.len() {
        Seq::empty()
    } else {
        s.skip(head_word(s).len() as int + 1)
    }
}

/// The first word runs up to the first space.
proof fn lemma_head_word_stops(s: Seq<char>, p: int)
    requires
        0 <= p <= s.len(),
        forall|j: int| 0 <= j < p ==> s[j] != ' ',
        p == s.len() || s[p] == ' ',
    ensures
        head_word(s) == s.take(p),
    decreases p,
{
    if p == 0 {
        assert(s.take(0) =~= Seq::<char>::empty());
        if s.len() > 0 {
            assert(s[0] == ' ');
        }
    } else {
        assert(s[0] != ' ');
        lemma_head_word_stops(s.drop_first(), p - 1);
        assert(s.drop_first().take(p - 1) =~= s.take(p).drop_first());
        assert(seq![s[0]] + s.take(p).drop_first() =~= s.take(p));
    }
}

/// Splits `s` into its first word and whatever follows the separating
/// space, trimmed.
pub fn split_first_word(s: &str) -> (r: (String, String))
    ensures
        r.0@ == head_word(s@),
        r.1@ == trim(tail_after_word(s@)),
{
    let n = s.unicode_len();
    let mut p: usize = 0;
    while p < n && s.get_char(p) != ' '
        invariant
            n == s@.len(),
            p <= n,
            forall|j: int| 0 <= j < p ==> s@[j] != ' ',
        decreases n - p,
    {
        p = p + 1;
    }
    proof {
        lemma_head_word_stops(s@, p as int);
        assert(s@.take(p as int) =~= s@.subrange(0, p as int));
    }
    let word = s.substring_char(0, p).to_owned();
    let rest = if p < n {
        proof {
            assert(s@.skip(p as int + 1) =~= s@.subrange(p as int + 1, n as int));
        }
        trim_str(s.substring_char(p + 1, n))
    } else {
        proof {
            assert(trim_left(Seq::<char>::empty()) =~= Seq::<char>::empty());
            assert(trim(Seq::<char>::empty()) == Seq::<char>::empty());
        }
        String::new()
    };
    (word, rest)
}

/// The numeric value of a decimal digit character; ten for anything else.
pub open spec fn digit_val(c: char) -> int {
    if 48 <= c as int <= 57 {
        c as int - 48
    } else {
        10
    }
}

/// Whether `c` is a decimal digit.
pub open spec fn is_digit(c: char) -> bool {
    48 <= c as int <= 57
}

/// The value of `s` read as a decimal number.
pub open spec fn dec_value(s: Seq<char>) -> int
    decreases s.len(),
{
    if s.len() == 0 {
        0
    } else {
        dec_value(s.drop_last()) * 10 + digit_val(s.last())
    }
}

/// A decimal reading is never negative.
pub proof fn lemma_dec_value_nonneg(s: Seq<char>)
    ensures
        dec_value(s) >= 0,
    decreases s.len(),
{
    if s.len() > 0 {
        lemma_dec_value_nonneg(s.drop_last());
    }
}

/// Reading more digits never shrinks the value.
pub proof fn lemma_dec_value_prefix_le(s: Seq<char>, i: int)
    requires
        0 <= i <= s.len(),
    ensures
        dec_value(s.take(i)) <= dec_value(s),
    decreases s.len() - i,
{
    if i == s.len() {
        assert(s.take(i) =~= s);
    } else {
        assert(s.take(i + 1).drop_last() =~= s.take(i));
        lemma_dec_value_nonneg(s.take(i));
        lemma_dec_value_prefix_le(s, i + 1);
    }
}

/// Whether `s` reads as a decimal number that fits the given bound.
pub open spec fn is_dec_u64(s: Seq<char>, bound: int) -> bool {
    &&& s.len() > 0
    &&& forall|j: int| 0 <= j < s.len() ==> is_digit(s[j])
    &&& dec_value(s) <= bound
}

/// Reads `s` as a decimal number of at most `bound`; rejects anything
/// else: an empty string, a non-digit, or a value past the bound.
pub fn parse_dec(s: &str, bound: u64) -> (r: Option<u64>)
    ensures
        match r {
            Some(v) => is_dec_u64(s@, bound as int) && v == dec_value(s@),
            None => !is_dec_u64(s@, bound as int),
        },
{
    let n = s.unicode_len();
    if n == 0 {
        return None;
    }
    let mut acc: u64 = 0;
    let mut i: usize = 0;
    while i < n
        invariant
            n == s@.len(),
            i <= n,
            forall|j: int| 0 <= j < i ==> is_digit(s@[j]),
            acc == dec_value(s@.take(i as int)),
            acc <= bound,
            bound <= u64::MAX,
        decreases n - i,
    {
        let c = s.get_char(i);
        let v = c as u32;
        if v < 48 || v > 57 {
            return None;
        }
        let d = (v - 48) as u64;
        proof {
            assert(s@.take(i as int + 1).drop_last() =~= s@.take(i as int));
            lemma_dec_value_nonneg(s@.take(i as int));
        }
        let next = match acc.checked_mul(10) {
            Some(x) => match x.checked_add(d) {
                Some(y) => y,
                None => {
                    proof {
                        lemma_dec_value_prefix_le(s@, i as int + 1);
                    }
                    return None;
                },
            },
            None => {
                proof {
                    lemma_dec_value_prefix_le(s@, i as int + 1);
                }
                return None;
            },
        };
        if next > bound {
            proof {
                lemma_dec_value_prefix_le(s@, i as int + 1);
            }
            return None;
        }
        acc = next;
        i = i + 1;
    }
    proof {
        assert(s@.take(n as int) =~= s@);
    }
    Some(acc)
}

} // verus!
