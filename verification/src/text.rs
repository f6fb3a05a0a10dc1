//! Small operations on text that the interpreters and the protocol share.

use vstd::prelude::*;
use vstd::utf8::{decode_utf8, encode_utf8, encode_utf8_decode_utf8};

verus! {

/// `String::push` of the standard library appends one character: the text
/// afterwards is the text before with `c` at its end.
pub assume_specification[ String::push ](s: &mut String, c: char)
    ensures
        final(s)@ == old(s)@.push(c),
;

/// Whether two texts are the same.
pub fn str_eq(a: &str, b: &str) -> (same: bool)
    ensures
        same == (a@ == b@),
{
    let a_bytes = a.as_bytes();
    let b_bytes = b.as_bytes();
    proof {
        encode_utf8_decode_utf8(a@);
        encode_utf8_decode_utf8(b@);
    }
    if a_bytes.len() != b_bytes.len() {
        return false;
    }
    let mut i: usize = 0;
    while i < a_bytes.len()
        invariant
            i <= a_bytes@.len(),
            a_bytes@.len() == b_bytes@.len(),
            a_bytes@.take(i as int) == b_bytes@.take(i as int),
            a_bytes@ == encode_utf8(a@),
            b_bytes@ == encode_utf8(b@),
            decode_utf8(encode_utf8(a@)) == a@,
            decode_utf8(encode_utf8(b@)) == b@,
        decreases a_bytes@.len() - i,
    {
        if a_bytes[i] != b_bytes[i] {
            assert(a_bytes@[i as int] != b_bytes@[i as int]);
            return false;
        }
        i += 1;
        assert(a_bytes@.take(i as int) =~= a_bytes@.take(i - 1).push(a_bytes@[i - 1]));
        assert(b_bytes@.take(i as int) =~= b_bytes@.take(i - 1).push(b_bytes@[i - 1]));
    }
    assert(a_bytes@ =~= a_bytes@.take(i as int));
    assert(b_bytes@ =~= b_bytes@.take(i as int));
    true
}

/// The character that stands for the decimal digit `d`.
pub open spec fn digit(d: nat) -> char
    recommends
        d < 10,
{
    (48 + d) as u8 as char
}

/// `n` written in decimal, without leading zeros.
pub open spec fn decimal(n: nat) -> Seq<char>
    decreases n,
{
    if n < 10 {
        seq![digit(n)]
    } else {
        decimal(n / 10).push(digit(n % 10))
    }
}

/// Appends to `s` the decimal form of `n`.
pub fn push_decimal(s: &mut String, n: u64)
    ensures
        final(s)@ == old(s)@ + decimal(n as nat),
    decreases n,
{
    if n >= 10 {
        push_decimal(s, n / 10);
    }
    let d: u8 = (n % 10) as u8;
    s.push((48 + d) as char);
    assert(final(s)@ =~= old(s)@ + decimal(n as nat));
}

/// The last `width` decimal digits of `n`, with zeros in front where it has
/// fewer.
pub open spec fn decimal_padded(n: nat, width: nat) -> Seq<char>
    decreases width,
{
    if width == 0 {
        Seq::empty()
    } else {
        decimal_padded(n / 10, (width - 1) as nat).push(digit(n % 10))
    }
}

/// Appends to `s` the last `width` decimal digits of `n`.
pub fn push_decimal_padded(s: &mut String, n: u64, width: u8)
    ensures
        final(s)@ == old(s)@ + decimal_padded(n as nat, width as nat),
    decreases width,
{
    if width > 0 {
        push_decimal_padded(s, n / 10, width - 1);
        let d: u8 = (n % 10) as u8;
        s.push((48 + d) as char);
    }
    assert(final(s)@ =~= old(s)@ + decimal_padded(n as nat, width as nat));
}

/// The characters of `s`, in order.
pub fn chars_of(s: &str) -> (chars: Vec<char>)
    ensures
        chars@ == s@,
{
    let mut chars: Vec<char> = Vec::new();
    for c in it: s.chars()
        invariant
            chars@ == it.seq().take(it.index() as int),
            it.seq() == s@,
    {
        chars.push(c);
        assert(chars@ =~= it.seq().take(it.index() + 1));
    }
    assert(chars@ =~= s@);
    chars
}

/// The text made of the characters `chars[from..to]`.
pub fn string_of(chars: &Vec<char>, from: usize, to: usize) -> (s: String)
    requires
        from <= to <= chars@.len(),
    ensures
        s@ == chars@.subrange(from as int, to as int),
{
    let mut s = String::new();
    let mut i: usize = from;
    while i < to
        invariant
            from <= i <= to <= chars@.len(),
            s@ == chars@.subrange(from as int, i as int),
        decreases to - i,
    {
        s.push(chars[i]);
        i += 1;
        assert(s@ =~= chars@.subrange(from as int, i as int));
    }
    s
}

/// Whether `patt` stands in `text` at index `at`.
pub open spec fn occurs_at(text: Seq<char>, patt: Seq<char>, at: int) -> bool {
    0 <= at && at + patt.len() <= text.len() && text.subrange(at, at + patt.len()) == patt
}

/// Whether `patt` stands anywhere in `text`.
pub open spec fn occurs(text: Seq<char>, patt: Seq<char>) -> bool {
    exists|at: int| occurs_at(text, patt, at)
}

/// `text` with `repl` in front of every character and at the end.
pub open spec fn spread(text: Seq<char>, repl: Seq<char>) -> Seq<char>
    decreases text.len(),
{
    if text.len() == 0 {
        repl
    } else {
        repl + seq![text[0]] + spread(text.skip(1), repl)
    }
}

/// `text` with `repl` in place of `patt`, wherever `patt` stands, going from
/// the left and never looking back into what was already replaced. An empty
/// `patt` stands in front of every character and at the end.
pub open spec fn replace_all(text: Seq<char>, patt: Seq<char>, repl: Seq<char>) -> Seq<char>
    decreases text.len(),
{
    if patt.len() == 0 {
        spread(text, repl)
    } else if text.len() < patt.len() {
        text
    } else if occurs_at(text, patt, 0) {
        repl + replace_all(text.skip(patt.len() as int), patt, repl)
    } else {
        seq![text[0]] + replace_all(text.skip(1), patt, repl)
    }
}

/// Whether `patt` stands in `text` at index `at`.
pub fn matches_at(text: &Vec<char>, patt: &Vec<char>, at: usize) -> (found: bool)
    ensures
        found == occurs_at(text@, patt@, at as int),
{
    if at > text.len() || patt.len() > text.len() - at {
        return false;
    }
    let mut k: usize = 0;
    while k < patt.len()
        invariant
            k <= patt@.len(),
            at + patt@.len() <= text@.len() <= usize::MAX,
            text@.subrange(at as int, at + k) == patt@.take(k as int),
        decreases patt@.len() - k,
    {
        if text[at + k] != patt[k] {
            assert(text@.subrange(at as int, at + patt@.len())[k as int] != patt@[k as int]);
            return false;
        }
        k += 1;
        assert(text@.subrange(at as int, at + k) =~= text@.subrange(at as int, at + k - 1).push(
            text@[at + k - 1],
        ));
        assert(patt@.take(k as int) =~= patt@.take(k - 1).push(patt@[k - 1]));
    }
    assert(patt@.take(k as int) =~= patt@);
    true
}

/// Whether `patt` stands anywhere in `text`.
pub fn contains(text: &Vec<char>, patt: &Vec<char>) -> (found: bool)
    ensures
        found == occurs(text@, patt@),
{
    let mut at: usize = 0;
    while at < text.len()
        invariant
            at <= text@.len(),
            forall|i: int| 0 <= i < at ==> !occurs_at(text@, patt@, i),
        decreases text@.len() - at,
    {
        if matches_at(text, patt, at) {
            return true;
        }
        at += 1;
    }
    if matches_at(text, patt, at) {
        return true;
    }
    assert(!occurs(text@, patt@)) by {
        if occurs(text@, patt@) {
            let i = choose|i: int| occurs_at(text@, patt@, i);
            assert(occurs_at(text@, patt@, i));
        }
    }
    false
}

/// `text` with `repl` in place of `patt` wherever it stands.
#[verifier::rlimit(50)]
pub fn replace(text: &Vec<char>, patt: &Vec<char>, repl: &Vec<char>) -> (replaced: Vec<char>)
    ensures
        replaced@ == replace_all(text@, patt@, repl@),
{
    let mut replaced: Vec<char> = Vec::new();
    let mut at: usize = 0;
    assert(text@.skip(0) =~= text@);
    assert(repl@.skip(0) =~= repl@);
    if patt.len() == 0 {
        while at < text.len()
            invariant
                at <= text@.len(),
                repl@.skip(0) == repl@,
                replaced@ + spread(text@.skip(at as int), repl@) == spread(text@, repl@),
            decreases text@.len() - at,
        {
            let ghost before = replaced@;
            let ghost rest = text@.skip(at as int);
            copy_from(&mut replaced, repl, 0);
            replaced.push(text[at]);
            at += 1;
            assert(rest.skip(1) =~= text@.skip(at as int));
            assert(replaced@ + spread(text@.skip(at as int), repl@) =~= before + (repl@
                + seq![rest[0]] + spread(rest.skip(1), repl@)));
        }
        let ghost before = replaced@;
        copy_from(&mut replaced, repl, 0);
        assert(text@.skip(at as int) =~= Seq::<char>::empty());
        assert(replaced@ =~= before + spread(text@.skip(at as int), repl@));
        return replaced;
    }
    while at < text.len()
        invariant
            at <= text@.len(),
            patt@.len() > 0,
            replaced@ + replace_all(text@.skip(at as int), patt@, repl@) == replace_all(
                text@,
                patt@,
                repl@,
            ),
        decreases text@.len() - at,
    {
        let ghost rest = text@.skip(at as int);
        if matches_at(text, patt, at) {
            assert(rest.subrange(0, patt@.len() as int) =~= text@.subrange(
                at as int,
                at + patt@.len(),
            ));
            assert(rest.skip(patt@.len() as int) =~= text@.skip(at + patt@.len()));
            let ghost before = replaced@;
            copy_from(&mut replaced, repl, 0);
            assert(repl@.skip(0) =~= repl@);
            at += patt.len();
            assert(replaced@ + replace_all(text@.skip(at as int), patt@, repl@) =~= before + (repl@
                + replace_all(text@.skip(at as int), patt@, repl@)));
        } else {
            assert(rest.len() >= patt@.len() ==> rest.subrange(0, patt@.len() as int)
                =~= text@.subrange(at as int, at + patt@.len()));
            assert(rest.skip(1) =~= text@.skip(at + 1));
            let ghost before = replaced@;
            if text.len() - at < patt.len() {
                copy_from(&mut replaced, text, at);
                at = text.len();
                assert(replace_all(text@.skip(at as int), patt@, repl@) =~= Seq::<char>::empty());
                assert(replaced@ + replace_all(text@.skip(at as int), patt@, repl@) =~= before
                    + rest);
            } else {
                replaced.push(text[at]);
                at += 1;
                assert(replaced@ + replace_all(text@.skip(at as int), patt@, repl@) =~= before + (
                seq![rest[0]] + replace_all(text@.skip(at as int), patt@, repl@)));
            }
        }
    }
    assert(text@.skip(at as int) =~= Seq::<char>::empty());
    assert(replaced@ =~= replaced@ + replace_all(text@.skip(at as int), patt@, repl@));
    replaced
}

/// Appends to `to` the characters of `from` from index `start` on.
pub fn copy_from(to: &mut Vec<char>, from: &Vec<char>, start: usize)
    ensures
        final(to)@ == old(to)@ + if start <= from@.len() {
            from@.skip(start as int)
        } else {
            Seq::empty()
        },
{
    if start > from.len() {
        assert(to@ =~= old(to)@ + Seq::<char>::empty());
        return ;
    }
    let mut i: usize = start;
    while i < from.len()
        invariant
            start <= i <= from@.len(),
            to@ == old(to)@ + from@.subrange(start as int, i as int),
        decreases from@.len() - i,
    {
        to.push(from[i]);
        i += 1;
        assert(to@ =~= old(to)@ + from@.subrange(start as int, i as int));
    }
    assert(from@.subrange(start as int, i as int) =~= from@.skip(start as int));
}

/// Whether `text` ends with `tail`.
pub fn ends_with(text: &Vec<char>, tail: &Vec<char>) -> (yes: bool)
    ensures
        yes == (tail@.len() <= text@.len() && occurs_at(text@, tail@, text@.len() - tail@.len())),
{
    if tail.len() > text.len() {
        return false;
    }
    matches_at(text, tail, text.len() - tail.len())
}

} // verus!
