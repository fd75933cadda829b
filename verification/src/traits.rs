//! Behaviours shared across the crate's types: rendering a duration
//! readably, moving an element of a container, and shuffling one.
use vstd::prelude::*;
use vstd::multiset::Multiset;

use core::mem;
use rand::Rng;

verus! {

/// Relies on rand::Rng::gen_range over `0..n`: returns one value of that
/// range; nothing is promised about which.
#[verifier::external_body]
fn rand_below(n: usize) -> (r: usize)
    requires
        n > 0,
    ensures
        r < n,
{
    rand::thread_rng().gen_range(0..n)
}

/// Relies on String::push: appends exactly one character.
#[verifier::external_body]
pub(crate) fn push_char(s: &mut String, c: char)
    ensures
        final(s)@ == old(s)@.push(c),
{
    s.push(c);
}

/// The character for one decimal digit.
pub open spec fn digit_char(d: int) -> char {
    if d == 0 {
        '0'
    } else if d == 1 {
        '1'
    } else if d == 2 {
        '2'
    } else if d == 3 {
        '3'
    } else if d == 4 {
        '4'
    } else if d == 5 {
        '5'
    } else if d == 6 {
        '6'
    } else if d == 7 {
        '7'
    } else if d == 8 {
        '8'
    } else {
        '9'
    }
}

/// The decimal digits of `n`, most significant first.
pub open spec fn dec_digits(n: int) -> Seq<char>
    decreases n,
{
    if n < 10 {
        seq![digit_char(n)]
    } else {
        dec_digits(n / 10).push(digit_char(n % 10))
    }
}

/// Appends the decimal digit `d` to `out`.
fn push_digit(out: &mut String, d: u64)
    requires
        d < 10,
    ensures
        final(out)@ == old(out)@.push(digit_char(d as int)),
{
    let c: char = match d {
        0 => '0',
        1 => '1',
        2 => '2',
        3 => '3',
        4 => '4',
        5 => '5',
        6 => '6',
        7 => '7',
        8 => '8',
        _ => '9',
    };
    push_char(out, c);
}

/// Appends the decimal digits of `n` to `out`.
fn push_decimal(out: &mut String, n: u64)
    ensures
        final(out)@ == old(out)@ + dec_digits(n as int),
    decreases n,
{
    if n >= 10 {
        push_decimal(out, n / 10);
        push_digit(out, n % 10);
        proof {
            assert(old(out)@ + dec_digits(n as int) =~= (old(out)@ + dec_digits(n as int / 10))
                .push(digit_char(n as int % 10)));
        }
    } else {
        push_digit(out, n);
        proof {
            assert(old(out)@ + dec_digits(n as int) =~= old(out)@.push(digit_char(n as int)));
        }
    }
}

/// Readable rendering of a duration given in milliseconds: `M:SS`, or
/// `H:MM:SS` from one hour up, with seconds (and then minutes) padded to
/// two digits.
pub open spec fn readable_spec(ms: u64) -> Seq<char> {
    let total = ms as int / 1000;
    let mins = total / 60;
    let hours = mins / 60;
    let s = total % 60;
    let m = mins % 60;
    let sec_txt = if s <= 9 {
        seq!['0'] + dec_digits(s)
    } else {
        dec_digits(s)
    };
    if hours == 0 {
        dec_digits(m) + seq![':'] + sec_txt
    } else {
        let min_txt = if m <= 9 {
            seq!['0'] + dec_digits(m)
        } else {
            dec_digits(m)
        };
        dec_digits(hours) + seq![':'] + min_txt + seq![':'] + sec_txt
    }
}

/// Rendering a value as a short human-readable time.
pub trait ToReadable {
    spec fn spec_readable(&self) -> Seq<char>;

    /// Renders the value as `M:SS` or `H:MM:SS`.
    fn to_readable(&self) -> (r: String)
        ensures
            r@ == self.spec_readable(),
    ;
}

impl ToReadable for u64 {
    /// A duration in milliseconds reads as `M:SS` or `H:MM:SS`.
    open spec fn spec_readable(&self) -> Seq<char> {
        readable_spec(*self)
    }

    fn to_readable(&self) -> (r: String) {
        let total = *self / 1000;
        let mins = total / 60;
        let hours = mins / 60;
        let secs = total % 60;
        let m = mins % 60;

        let mut out = String::new();
        if hours == 0 {
            push_decimal(&mut out, m);
            push_char(&mut out, ':');
            if secs <= 9 {
                push_char(&mut out, '0');
            }
            push_decimal(&mut out, secs);
        } else {
            push_decimal(&mut out, hours);
            push_char(&mut out, ':');
            if m <= 9 {
                push_char(&mut out, '0');
            }
            push_decimal(&mut out, m);
            push_char(&mut out, ':');
            if secs <= 9 {
                push_char(&mut out, '0');
            }
            push_decimal(&mut out, secs);
        }
        proof {
            assert(out@ =~= readable_spec(*self));
        }
        out
    }
}

/// Moving an element of a sequence to another position.
pub trait MoveTo {
    type Item;

    spec fn items(&self) -> Seq<Self::Item>;

    /// Takes the element at `from_index` out and re-inserts it at
    /// `to_index`; everything else keeps its relative order.
    fn move_to(&mut self, from_index: usize, to_index: usize)
        requires
            from_index < old(self).items().len(),
            to_index < old(self).items().len(),
        ensures
            final(self).items() == old(self).items().remove(from_index as int).insert(
                to_index as int,
                old(self).items()[from_index as int],
            ),
    ;
}

impl<T> MoveTo for Vec<T> {
    type Item = T;

    open spec fn items(&self) -> Seq<T> {
        self@
    }

    fn move_to(&mut self, from_index: usize, to_index: usize) {
        let item = self.remove(from_index);
        self.insert(to_index, item);
    }
}

/// Reordering a sequence at random.
pub trait Shuffle {
    type Item;

    spec fn items(&self) -> Seq<Self::Item>;

    /// Puts the elements in a random order: the same elements remain, as a
    /// multiset, and nothing is promised about the order.
    fn shuffle(&mut self)
        ensures
            final(self).items().to_multiset() == old(self).items().to_multiset(),
    ;
}

impl<T> Shuffle for Vec<T> {
    type Item = T;

    open spec fn items(&self) -> Seq<T> {
        self@
    }

    fn shuffle(&mut self) {
        broadcast use vstd::seq_lib::group_to_multiset_ensures;
        broadcast use vstd::multiset::group_multiset_axioms;
        broadcast use vstd::multiset::group_multiset_properties;

        let mut src: Vec<T> = Vec::new();
        mem::swap(self, &mut src);
        let ghost orig = src@;

        let mut out: Vec<T> = Vec::new();
        while src.len() > 0
            invariant
                out@.to_multiset().add(src@.to_multiset()) =~= orig.to_multiset(),
            decreases src.len(),
        {
            let j = rand_below(src.len());
            let ghost before = src@;
            let ghost out_before = out@;
            let picked = src.remove(j);
            out.push(picked);
            proof {
                assert(src@ == before.remove(j as int));
                assert(out@ == out_before.push(picked));
                vstd::seq_lib::to_multiset_build(out_before, picked);
                vstd::seq_lib::to_multiset_remove(before, j as int);
                assert(out@.to_multiset() =~= out_before.to_multiset().insert(picked));
                assert(src@.to_multiset() =~= before.to_multiset().remove(picked));
                assert(before.contains(picked)) by {
                    assert(before[j as int] == picked);
                }
                vstd::seq_lib::to_multiset_contains(before, picked);
                assert(before.to_multiset().count(picked) > 0);
                assert(out@.to_multiset().add(src@.to_multiset()) =~= orig.to_multiset());
            }
        }
        proof {
            assert(src@.to_multiset() =~= Multiset::<T>::empty());
            assert(out@.to_multiset() =~= orig.to_multiset());
        }
        mem::swap(self, &mut out);
    }
}

} // verus!
