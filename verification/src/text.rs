//! Character and string utilities shared by the formatters: whitespace
//! classification and trimming, `Vec<char>`/`String` conversion, decimal
//! rendering, separator joins, substring search, and concatenation.

use vstd::prelude::*;
use vstd::string::*;

verus! {

/// The characters with the Unicode `White_Space` property.
pub open spec fn is_white(c: char) -> bool {
    c == ' ' || c == '\t' || c == '\n' || c == '\u{b}' || c == '\u{c}' || c == '\r' || c
        == '\u{85}' || c == '\u{a0}' || c == '\u{1680}' || ('\u{2000}' <= c && c <= '\u{200a}') || c
        == '\u{2028}' || c == '\u{2029}' || c == '\u{202f}' || c == '\u{205f}' || c == '\u{3000}'
}

/// Relies on `char::is_whitespace` (std): true exactly for the characters
/// with the Unicode `White_Space` property, the set written out in
/// [`is_white`].
#[verifier::external_body]
pub(crate) fn char_is_whitespace(c: char) -> (r: bool)
    ensures
        r == is_white(c),
{
    c.is_whitespace()
}

/// Relies on `String::push` (std): appends the given character to the end of
/// the string.
#[verifier::external_body]
pub(crate) fn push_char(s: &mut String, c: char)
    ensures
        final(s)@ == old(s)@.push(c),
{
    s.push(c)
}

/// Build a `String` holding exactly the given characters.
pub fn chars_to_string(v: &Vec<char>) -> (s: String)
    ensures
        s@ == v@,
{
    let mut s = String::new();
    let mut i: usize = 0;
    while i < v.len()
        invariant
            i <= v@.len(),
            s@ == v@.take(i as int),
        decreases v@.len() - i,
    {
        push_char(&mut s, v[i]);
        proof {
            assert(v@.take(i as int).push(v@[i as int]) =~= v@.take(i + 1 as int));
        }
        i += 1;
    }
    proof {
        assert(v@.take(v@.len() as int) =~= v@);
    }
    s
}

/// The characters of a string slice, in order.
pub fn string_to_chars(s: &str) -> (v: Vec<char>)
    ensures
        v@ == s@,
{
    let n = s.unicode_len();
    let mut v: Vec<char> = Vec::new();
    let mut i: usize = 0;
    while i < n
        invariant
            i <= n,
            n == s@.len(),
            v@ == s@.take(i as int),
        decreases n - i,
    {
        v.push(s.get_char(i));
        proof {
            assert(s@.take(i as int).push(s@[i as int]) =~= s@.take(i + 1 as int));
        }
        i += 1;
    }
    proof {
        assert(s@.take(s@.len() as int) =~= s@);
    }
    v
}

/// The sequence with its trailing `White_Space` characters removed.
pub open spec fn trim_end_white(s: Seq<char>) -> Seq<char>
    decreases s.len(),
{
    if s.len() > 0 && is_white(s.last()) {
        trim_end_white(s.drop_last())
    } else {
        s
    }
}

/// The trimmed sequence is a prefix of the sequence it came from.
pub proof fn lemma_trim_end_is_prefix(s: Seq<char>)
    ensures
        trim_end_white(s).is_prefix_of(s),
    decreases s.len(),
{
    if s.len() > 0 && is_white(s.last()) {
        lemma_trim_end_is_prefix(s.drop_last());
        let t = trim_end_white(s);
        assert(s.drop_last().subrange(0, t.len() as int) =~= s.subrange(0, t.len() as int));
    }
}

/// The sequence with its leading `White_Space` characters removed.
pub open spec fn trim_start_white(s: Seq<char>) -> Seq<char>
    decreases s.len(),
{
    if s.len() > 0 && is_white(s.first()) {
        trim_start_white(s.drop_first())
    } else {
        s
    }
}

/// The sequence with `White_Space` removed from both ends.
pub open spec fn trim_white(s: Seq<char>) -> Seq<char> {
    trim_start_white(trim_end_white(s))
}

/// A trimmed sequence never ends in whitespace.
pub proof fn lemma_trim_end_no_trailing_white(s: Seq<char>)
    ensures
        trim_end_white(s).len() == 0 || !is_white(trim_end_white(s).last()),
    decreases s.len(),
{
    if s.len() > 0 && is_white(s.last()) {
        lemma_trim_end_no_trailing_white(s.drop_last());
    }
}

/// Remove the trailing whitespace characters of `v`.
pub fn trim_end_chars(v: Vec<char>) -> (r: Vec<char>)
    ensures
        r@ == trim_end_white(v@),
{
    let ghost orig: Seq<char> = v@;
    let mut r = v;
    loop
        invariant
            trim_end_white(r@) == trim_end_white(orig),
        ensures
            trim_end_white(r@) == trim_end_white(orig),
            r@.len() == 0 || !is_white(r@.last()),
        decreases r@.len(),
    {
        let n = r.len();
        if n == 0 {
            break ;
        }
        if !char_is_whitespace(r[n - 1]) {
            break ;
        }
        r.pop();
    }
    r
}

/// Remove the leading whitespace characters of `v`.
pub fn trim_start_chars(v: Vec<char>) -> (r: Vec<char>)
    ensures
        r@ == trim_start_white(v@),
{
    let ghost orig: Seq<char> = v@;
    proof {
        assert(orig.skip(0) =~= orig);
    }
    let mut i: usize = 0;
    loop
        invariant
            i <= orig.len(),
            orig == v@,
            trim_start_white(orig.skip(i as int)) == trim_start_white(orig),
        ensures
            i <= orig.len(),
            orig == v@,
            trim_start_white(orig) == orig.skip(i as int),
        decreases orig.len() - i,
    {
        if i == v.len() {
            proof {
                assert(orig.skip(i as int) =~= Seq::<char>::empty());
            }
            break ;
        }
        if !char_is_whitespace(v[i]) {
            proof {
                assert(orig.skip(i as int).first() == orig[i as int]);
            }
            break ;
        }
        proof {
            assert(orig.skip(i as int).drop_first() =~= orig.skip(i + 1 as int));
            assert(orig.skip(i as int).first() == orig[i as int]);
        }
        i += 1;
    }
    let mut r: Vec<char> = Vec::new();
    let mut j: usize = i;
    while j < v.len()
        invariant
            i <= j <= orig.len(),
            orig == v@,
            r@ == orig.subrange(i as int, j as int),
        decreases orig.len() - j,
    {
        r.push(v[j]);
        proof {
            assert(orig.subrange(i as int, j as int).push(orig[j as int]) =~= orig.subrange(
                i as int,
                j + 1 as int,
            ));
        }
        j += 1;
    }
    proof {
        assert(orig.subrange(i as int, orig.len() as int) =~= orig.skip(i as int));
    }
    r
}

/// The character for a single decimal digit.
pub open spec fn digit_char(d: int) -> char {
    if d == 0 {
        '0'
    } else if d == 1 {
        '1'
    } else if d == 2 {
        '2'
    } else if d == 3 {
        '3'
    } else if d == 4 {
        '4'
    } else if d == 5 {
        '5'
    } else if d == 6 {
        '6'
    } else if d == 7 {
        '7'
    } else if d == 8 {
        '8'
    } else {
        '9'
    }
}

/// The decimal rendering of `n`, without leading zeros (a lone zero for 0).
pub open spec fn dec_digits(n: nat) -> Seq<char>
    decreases n,
{
    if n < 10 {
        seq![digit_char(n as int)]
    } else {
        dec_digits(n / 10) + seq![digit_char((n % 10) as int)]
    }
}

/// The decimal rendering of `n`, zero-padded on the left to two digits.
pub open spec fn pad2(n: nat) -> Seq<char> {
    if n < 10 {
        seq!['0', digit_char(n as int)]
    } else {
        dec_digits(n)
    }
}

fn digit_to_char(d: u64) -> (c: char)
    requires
        d < 10,
    ensures
        c == digit_char(d as int),
{
    match d {
        0 => '0',
        1 => '1',
        2 => '2',
        3 => '3',
        4 => '4',
        5 => '5',
        6 => '6',
        7 => '7',
        8 => '8',
        _ => '9',
    }
}

/// The decimal digits of `n`, most significant first.
pub fn dec_chars(n: u64) -> (v: Vec<char>)
    ensures
        v@ == dec_digits(n as nat),
    decreases n,
{
    if n < 10 {
        let mut v: Vec<char> = Vec::new();
        v.push(digit_to_char(n));
        proof {
            assert(v@ =~= seq![digit_char(n as int)]);
        }
        v
    } else {
        proof {
            assert(n / 10 < n) by (nonlinear_arith)
                requires
                    n >= 10,
            ;
        }
        let mut v = dec_chars(n / 10);
        v.push(digit_to_char(n % 10));
        proof {
            assert(v@ =~= dec_digits((n / 10) as nat) + seq![digit_char((n % 10) as int)]);
        }
        v
    }
}

/// The two-digit zero-padded decimal rendering of `n`.
pub fn two_digit_chars(n: u64) -> (v: Vec<char>)
    ensures
        v@ == pad2(n as nat),
{
    if n < 10 {
        let mut v: Vec<char> = Vec::new();
        v.push('0');
        v.push(digit_to_char(n));
        proof {
            assert(v@ =~= seq!['0', digit_char(n as int)]);
        }
        v
    } else {
        dec_chars(n)
    }
}

/// The concatenation of a sequence of character sequences, in order.
pub open spec fn concat_of(gs: Seq<Seq<char>>) -> Seq<char>
    decreases gs.len(),
{
    if gs.len() == 0 {
        Seq::empty()
    } else {
        concat_of(gs.drop_last()) + gs.last()
    }
}

/// Concatenating only the first `k` pieces yields a prefix of the whole
/// concatenation.
pub proof fn lemma_concat_take_prefix(gs: Seq<Seq<char>>, k: int)
    requires
        0 <= k <= gs.len(),
    ensures
        concat_of(gs.take(k)).is_prefix_of(concat_of(gs)),
    decreases gs.len(),
{
    if k == gs.len() {
        assert(gs.take(k) =~= gs);
    } else {
        lemma_concat_take_prefix(gs.drop_last(), k);
        assert(gs.drop_last().take(k) =~= gs.take(k));
        let p = concat_of(gs.take(k));
        let body = concat_of(gs.drop_last());
        assert(concat_of(gs) == body + gs.last());
        assert((body + gs.last()).subrange(0, p.len() as int) =~= body.subrange(
            0,
            p.len() as int,
        ));
    }
}

/// The views of a vector of strings.
pub open spec fn views_of(v: Seq<String>) -> Seq<Seq<char>> {
    v.map_values(|s: String| s@)
}

/// Concatenate the first `k` strings of `gs`.
pub fn concat_first(gs: &Vec<String>, k: usize) -> (r: String)
    requires
        k <= gs@.len(),
    ensures
        r@ == concat_of(views_of(gs@).take(k as int)),
{
    let mut r = String::new();
    let mut i: usize = 0;
    while i < k
        invariant
            i <= k <= gs@.len(),
            r@ == concat_of(views_of(gs@).take(i as int)),
        decreases k - i,
    {
        r.append(gs[i].as_str());
        proof {
            let vs = views_of(gs@);
            assert(vs.take(i + 1 as int).drop_last() =~= vs.take(i as int));
            assert(vs.take(i + 1 as int).last() == gs@[i as int]@);
        }
        i += 1;
    }
    r
}

/// The parts joined with `sep` between neighbours.
pub open spec fn join_with(parts: Seq<Seq<char>>, sep: Seq<char>) -> Seq<char>
    decreases parts.len(),
{
    if parts.len() == 0 {
        Seq::empty()
    } else if parts.len() == 1 {
        parts[0]
    } else {
        join_with(parts.drop_last(), sep) + sep + parts.last()
    }
}

/// Join the strings of `parts` with `sep` between neighbours.
pub fn join_strings(parts: &Vec<String>, sep: &str) -> (r: String)
    ensures
        r@ == join_with(views_of(parts@), sep@),
{
    let mut r = String::new();
    let mut i: usize = 0;
    while i < parts.len()
        invariant
            i <= parts@.len(),
            r@ == join_with(views_of(parts@).take(i as int), sep@),
        decreases parts@.len() - i,
    {
        if i > 0 {
            r.append(sep);
        }
        r.append(parts[i].as_str());
        proof {
            let vs = views_of(parts@);
            assert(vs.take(i + 1 as int).drop_last() =~= vs.take(i as int));
            assert(vs.take(i + 1 as int).last() == parts@[i as int]@);
            if i == 0 {
                assert(vs.take(1).len() == 1);
            }
        }
        i += 1;
    }
    proof {
        assert(views_of(parts@).take(parts@.len() as int) =~= views_of(parts@));
    }
    r
}

/// `needle` occurs somewhere in `hay`.
pub open spec fn contains_seq(hay: Seq<char>, needle: Seq<char>) -> bool {
    exists|i: int|
        0 <= i && i + needle.len() <= hay.len() && #[trigger] hay.subrange(i, i + needle.len())
            == needle
}

/// Whether `needle` occurs as a contiguous run of characters in `hay`.
pub fn contains_chars(hay: &Vec<char>, needle: &Vec<char>) -> (r: bool)
    ensures
        r == contains_seq(hay@, needle@),
{
    let nlen = needle.len();
    let hlen = hay.len();
    if nlen > hlen {
        return false;
    }
    if nlen == 0 {
        proof {
            assert(contains_seq(hay@, needle@)) by {
                assert(hay@.subrange(0, 0 + needle@.len() as int) =~= needle@);
            }
        }
        return true;
    }
    let mut i: usize = 0;
    while i <= hlen - nlen
        invariant
            nlen == needle@.len(),
            hlen == hay@.len(),
            1 <= nlen <= hlen,
            i <= hlen - nlen + 1,
            forall|k: int|
                0 <= k < i ==> #[trigger] hay@.subrange(k, k + needle@.len()) != needle@,
        decreases hlen - i,
    {
        let mut j: usize = 0;
        let mut is_match = true;
        loop
            invariant_except_break
                nlen == needle@.len(),
                hlen == hay@.len(),
                i + nlen <= hlen,
                j <= nlen,
                is_match,
                hay@.subrange(i as int, i + j as int) =~= needle@.subrange(0, j as int),
            ensures
                nlen == needle@.len(),
                hlen == hay@.len(),
                i + nlen <= hlen,
                is_match == (hay@.subrange(i as int, i + nlen as int) == needle@),
            decreases nlen - j,
        {
            if j == nlen {
                proof {
                    assert(needle@.subrange(0, nlen as int) =~= needle@);
                }
                break ;
            }
            if hay[i + j] != needle[j] {
                is_match = false;
                proof {
                    assert(hay@.subrange(i as int, i + nlen as int) != needle@) by {
                        assert(hay@.subrange(i as int, i + nlen as int)[j as int] == hay@[i + j]);
                    }
                }
                break ;
            }
            proof {
                assert(hay@.subrange(i as int, i + (j + 1) as int) =~= hay@.subrange(
                    i as int,
                    i + j as int,
                ).push(hay@[i + j]));
                assert(needle@.subrange(0, (j + 1) as int) =~= needle@.subrange(0, j as int).push(
                    needle@[j as int],
                ));
            }
            j += 1;
        }
        if is_match {
            return true;
        }
        i += 1;
    }
    proof {
        assert(forall|k: int|
            0 <= k && k + needle@.len() <= hay@.len() ==> #[trigger] hay@.subrange(
                k,
                k + needle@.len(),
            ) != needle@);
    }
    false
}

} // verus!
