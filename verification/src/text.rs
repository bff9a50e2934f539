//! Text helpers: trimming, splitting, path segments, prefixes and decimal
//! numerals, each with its meaning stated over sequences of characters.

use vstd::prelude::*;
use vstd::string::*;

verus! {

/// Whether `c` has the Unicode property `White_Space`.
pub open spec fn spec_is_whitespace(c: char) -> bool {
    let n = c as u32;
    ||| 0x09 <= n <= 0x0d
    ||| n == 0x20
    ||| n == 0x85
    ||| n == 0xa0
    ||| n == 0x1680
    ||| 0x2000 <= n <= 0x200a
    ||| n == 0x2028
    ||| n == 0x2029
    ||| n == 0x202f
    ||| n == 0x205f
    ||| n == 0x3000
}

/// `s` without its leading white space.
pub open spec fn spec_trim_start(s: Seq<char>) -> Seq<char>
    decreases s.len(),
{
    if s.len() > 0 && spec_is_whitespace(s[0]) {
        spec_trim_start(s.drop_first())
    } else {
        s
    }
}

/// `s` without its trailing white space.
pub open spec fn spec_trim_end(s: Seq<char>) -> Seq<char>
    decreases s.len(),
{
    if s.len() > 0 && spec_is_whitespace(s.last()) {
        spec_trim_end(s.drop_last())
    } else {
        s
    }
}

/// `s` without its leading and trailing white space.
pub open spec fn spec_trim(s: Seq<char>) -> Seq<char> {
    spec_trim_end(spec_trim_start(s))
}

/// Whether every character of `s` is white space.
pub open spec fn all_whitespace(s: Seq<char>) -> bool {
    forall|i: int| 0 <= i < s.len() ==> spec_is_whitespace(#[trigger] s[i])
}

/// Trimming at the front removes a run of white space and stops at the first
/// other character.
pub proof fn lemma_trim_start(s: Seq<char>, k: int)
    requires
        0 <= k <= s.len(),
        all_whitespace(s.subrange(0, k)),
        k < s.len() ==> !spec_is_whitespace(s[k]),
    ensures
        spec_trim_start(s) == s.subrange(k, s.len() as int),
    decreases k,
{
    if k == 0 {
        assert(s.subrange(0, s.len() as int) =~= s);
    } else {
        assert(s.subrange(0, k)[0] == s[0]);
        let rest = s.drop_first();
        assert forall|i: int| 0 <= i < k - 1 implies spec_is_whitespace(
            #[trigger] rest.subrange(0, k - 1)[i],
        ) by {
            assert(rest.subrange(0, k - 1)[i] == s.subrange(0, k)[i + 1]);
        }
        lemma_trim_start(rest, k - 1);
        assert(rest.subrange(k - 1, rest.len() as int) =~= s.subrange(k, s.len() as int));
    }
}

/// Trimming at the back removes a run of white space and stops at the last
/// other character.
pub proof fn lemma_trim_end(s: Seq<char>, k: int)
    requires
        0 <= k <= s.len(),
        all_whitespace(s.subrange(k, s.len() as int)),
        k > 0 ==> !spec_is_whitespace(s[k - 1]),
    ensures
        spec_trim_end(s) == s.subrange(0, k),
    decreases s.len() - k,
{
    if k == s.len() {
        assert(s.subrange(0, k) =~= s);
    } else {
        assert(s.subrange(k, s.len() as int)[s.len() - k - 1] == s.last());
        let rest = s.drop_last();
        assert forall|i: int| 0 <= i < rest.len() - k implies spec_is_whitespace(
            #[trigger] rest.subrange(k, rest.len() as int)[i],
        ) by {
            assert(rest.subrange(k, rest.len() as int)[i] == s.subrange(k, s.len() as int)[i]);
        }
        lemma_trim_end(rest, k);
        assert(rest.subrange(0, k) =~= s.subrange(0, k));
    }
}

/// Tells whether `c` is white space.
pub fn is_whitespace(c: char) -> (ws: bool)
    ensures
        ws == spec_is_whitespace(c),
{
    let n: u32 = c as u32;
    (0x09 <= n && n <= 0x0d) || n == 0x20 || n == 0x85 || n == 0xa0 || n == 0x1680 || (0x2000 <= n
        && n <= 0x200a) || n == 0x2028 || n == 0x2029 || n == 0x202f || n == 0x205f || n == 0x3000
}

/// The characters of `s`, one by one.
pub fn chars_of(s: &str) -> (chars: Vec<char>)
    ensures
        chars@ == s@,
{
    let mut chars: Vec<char> = Vec::new();
    for c in it: s.chars()
        invariant
            it.seq() == s@,
            chars@ == s@.take(it.index()),
    {
        chars.push(c);
        assert(s@.take(it.index() + 1) =~= s@.take(it.index()).push(c));
    }
    assert(s@.take(s@.len() as int) =~= s@);
    chars
}

/// Removes leading and trailing white space.
pub fn trim(s: &str) -> (trimmed: &str)
    ensures
        trimmed@ == spec_trim(s@),
{
    let chars = chars_of(s);
    let n: usize = chars.len();
    let mut start: usize = 0;
    while start < n && is_whitespace(chars[start])
        invariant
            chars@ == s@,
            n == chars.len(),
            start <= n,
            all_whitespace(s@.subrange(0, start as int)),
        decreases n - start,
    {
        start += 1;
    }
    let mut end: usize = n;
    while end > start && is_whitespace(chars[end - 1])
        invariant
            chars@ == s@,
            n == chars.len(),
            start <= end <= n,
            all_whitespace(s@.subrange(end as int, n as int)),
        decreases end,
    {
        end -= 1;
        assert forall|i: int| 0 <= i < n - end implies spec_is_whitespace(
            #[trigger] s@.subrange(end as int, n as int)[i],
        ) by {
            if i > 0 {
                assert(s@.subrange(end as int, n as int)[i] == s@.subrange(end + 1, n as int)[i
                    - 1]);
            }
        }
    }
    proof {
        let front = s@.subrange(start as int, n as int);
        lemma_trim_start(s@, start as int);
        assert forall|i: int| 0 <= i < n - end implies spec_is_whitespace(
            #[trigger] front.subrange(end - start, front.len() as int)[i],
        ) by {
            assert(front.subrange(end - start, front.len() as int)[i] == s@.subrange(
                end as int,
                n as int,
            )[i]);
        }
        if end > start {
            assert(front[end - start - 1] == s@[end - 1]);
        }
        lemma_trim_end(front, end - start);
        assert(front.subrange(0, end - start) =~= s@.subrange(start as int, end as int));
    }
    s.substring_char(start, end)
}

/// The pieces of `s` between occurrences of `sep`, in order. There is always
/// at least one piece; a piece may be empty.
pub open spec fn spec_split(s: Seq<char>, sep: char) -> Seq<Seq<char>>
    decreases s.len(),
{
    if s.len() == 0 {
        seq![Seq::<char>::empty()]
    } else {
        let init = spec_split(s.drop_last(), sep);
        if s.last() == sep {
            init.push(Seq::<char>::empty())
        } else {
            init.drop_last().push(init.last().push(s.last()))
        }
    }
}

/// `pieces` written one after the other with `sep` between neighbours.
pub open spec fn spec_join(pieces: Seq<Seq<char>>, sep: char) -> Seq<char>
    decreases pieces.len(),
{
    if pieces.len() == 0 {
        Seq::<char>::empty()
    } else if pieces.len() == 1 {
        pieces[0]
    } else {
        spec_join(pieces.drop_last(), sep).push(sep) + pieces.last()
    }
}

/// What follows the last `sep` in `s`; all of `s` where `sep` does not occur.
pub open spec fn spec_last_segment(s: Seq<char>, sep: char) -> Seq<char>
    decreases s.len(),
{
    if s.len() == 0 || s.last() == sep {
        Seq::<char>::empty()
    } else {
        spec_last_segment(s.drop_last(), sep).push(s.last())
    }
}

/// The extension of a file name that holds no path separator: what follows
/// its final `.`, unless the name is `..`, has no `.`, or has its only `.`
/// in front.
pub open spec fn spec_extension(name: Seq<char>) -> Option<Seq<char>> {
    let ext = spec_last_segment(name, '.');
    let dot = name.len() - ext.len() - 1;
    if name == seq!['.', '.'] || dot <= 0 {
        None
    } else {
        Some(ext)
    }
}

/// The decimal digit for `d`.
pub open spec fn spec_digit(d: int) -> char {
    seq!['0', '1', '2', '3', '4', '5', '6', '7', '8', '9'][d]
}

/// The decimal numeral of `n`, without leading zeros.
pub open spec fn spec_digits(n: nat) -> Seq<char>
    decreases n,
{
    if n < 10 {
        seq![spec_digit(n as int)]
    } else {
        spec_digits(n / 10).push(spec_digit((n % 10) as int))
    }
}

/// The decimal numeral of `n`, with a leading `-` where `n` is negative.
pub open spec fn spec_decimal(n: int) -> Seq<char> {
    if n < 0 {
        seq!['-'] + spec_digits((-n) as nat)
    } else {
        spec_digits(n as nat)
    }
}

/// Splitting always yields a piece, no piece holds the separator, and
/// joining the pieces gives the text back.
pub proof fn lemma_split_joins(s: Seq<char>, sep: char)
    ensures
        spec_split(s, sep).len() >= 1,
        forall|i: int|
            0 <= i < spec_split(s, sep).len() ==> !(#[trigger] spec_split(s, sep)[i]).contains(
                sep,
            ),
        spec_join(spec_split(s, sep), sep) == s,
    decreases s.len(),
{
    let pieces = spec_split(s, sep);
    if s.len() == 0 {
        assert(pieces[0] =~= s);
    } else {
        let init = spec_split(s.drop_last(), sep);
        lemma_split_joins(s.drop_last(), sep);
        if s.last() == sep {
            assert(pieces.drop_last() =~= init);
            assert(spec_join(pieces, sep) =~= s);
        } else {
            let grown = init.last().push(s.last());
            assert(!init.last().contains(sep));
            assert forall|j: int| 0 <= j < grown.len() implies grown[j] != sep by {
                if j < init.last().len() {
                    assert(init.last().contains(grown[j]));
                }
            }
            if init.len() > 1 {
                assert(pieces.drop_last() =~= init.drop_last());
                let front = spec_join(init.drop_last(), sep).push(sep);
                assert(front + grown =~= (front + init.last()).push(s.last()));
            } else {
                assert(init.last() == init[0]);
            }
            assert(spec_join(pieces, sep) =~= s);
        }
    }
}

/// The last piece of a split is the last segment.
pub proof fn lemma_last_piece(s: Seq<char>, sep: char)
    ensures
        spec_split(s, sep).len() >= 1,
        spec_split(s, sep).last() == spec_last_segment(s, sep),
    decreases s.len(),
{
    if s.len() > 0 {
        lemma_last_piece(s.drop_last(), sep);
    }
}

/// The last segment starts right after the last separator.
pub proof fn lemma_last_segment(s: Seq<char>, sep: char, k: int)
    requires
        0 <= k <= s.len(),
        !s.subrange(k, s.len() as int).contains(sep),
        k > 0 ==> s[k - 1] == sep,
    ensures
        spec_last_segment(s, sep) == s.subrange(k, s.len() as int),
    decreases s.len() - k,
{
    let tail = s.subrange(k, s.len() as int);
    if k == s.len() {
        assert(spec_last_segment(s, sep) =~= tail);
    } else {
        assert(tail[tail.len() - 1] == s.last());
        let rest = s.drop_last();
        assert forall|i: int| 0 <= i < rest.len() - k implies rest.subrange(
            k,
            rest.len() as int,
        )[i] != sep by {
            assert(tail[i] == rest.subrange(k, rest.len() as int)[i]);
        }
        lemma_last_segment(rest, sep, k);
        assert(rest.subrange(k, rest.len() as int).push(s.last()) =~= tail);
    }
}

/// Tells whether two texts hold the same characters.
pub fn equal(a: &str, b: &str) -> (same: bool)
    ensures
        same == (a@ == b@),
{
    let x = chars_of(a);
    let y = chars_of(b);
    if x.len() != y.len() {
        return false;
    }
    let mut i: usize = 0;
    while i < x.len()
        invariant
            x@ == a@,
            y@ == b@,
            x.len() == y.len(),
            i <= x.len(),
            a@.take(i as int) == b@.take(i as int),
        decreases x.len() - i,
    {
        if x[i] != y[i] {
            return false;
        }
        i += 1;
        assert(a@.take(i as int) =~= a@.take(i - 1).push(x[i - 1]));
        assert(b@.take(i as int) =~= b@.take(i - 1).push(y[i - 1]));
    }
    assert(a@.take(i as int) =~= a@);
    assert(b@.take(i as int) =~= b@);
    true
}

/// Tells whether `s` begins with `prefix`.
pub fn starts_with(s: &str, prefix: &str) -> (yes: bool)
    ensures
        yes == prefix@.is_prefix_of(s@),
{
    let x = chars_of(s);
    let p = chars_of(prefix);
    if p.len() > x.len() {
        return false;
    }
    let mut i: usize = 0;
    while i < p.len()
        invariant
            x@ == s@,
            p@ == prefix@,
            p.len() <= x.len(),
            i <= p.len(),
            prefix@.take(i as int) == s@.take(i as int),
        decreases p.len() - i,
    {
        if x[i] != p[i] {
            assert(s@.subrange(0, p.len() as int)[i as int] != prefix@[i as int]);
            return false;
        }
        i += 1;
        assert(prefix@.take(i as int) =~= prefix@.take(i - 1).push(p[i - 1]));
        assert(s@.take(i as int) =~= s@.take(i - 1).push(x[i - 1]));
    }
    assert(prefix@.take(i as int) =~= prefix@);
    true
}

/// Splits `s` at every `sep`.
pub fn split(s: &str, sep: char) -> (pieces: Vec<String>)
    ensures
        pieces.deep_view() == spec_split(s@, sep),
        pieces.len() >= 1,
        forall|i: int| 0 <= i < pieces.len() ==> !(#[trigger] pieces[i])@.contains(sep),
        spec_join(pieces.deep_view(), sep) == s@,
{
    let chars = chars_of(s);
    let n: usize = chars.len();
    let mut pieces: Vec<String> = Vec::new();
    let mut start: usize = 0;
    let mut i: usize = 0;
    assert(pieces.deep_view().push(s@.subrange(0, 0)) =~~= spec_split(s@.take(0), sep));
    while i < n
        invariant
            chars@ == s@,
            n == chars.len(),
            start <= i <= n,
            spec_split(s@.take(i as int), sep) == pieces.deep_view().push(
                s@.subrange(start as int, i as int),
            ),
        decreases n - i,
    {
        let ghost before = pieces.deep_view();
        let ghost current = s@.subrange(start as int, i as int);
        assert(s@.take(i + 1).drop_last() =~= s@.take(i as int));
        if chars[i] == sep {
            let piece = s.substring_char(start, i).to_owned();
            pieces.push(piece);
            start = i + 1;
            assert(pieces.deep_view() =~= before.push(current));
            assert(s@.subrange(start as int, i + 1) =~= Seq::<char>::empty());
        } else {
            assert(before.push(current).drop_last() =~= before);
            assert(s@.subrange(start as int, i + 1) =~= current.push(chars[i as int]));
        }
        i += 1;
    }
    let ghost before = pieces.deep_view();
    let piece = s.substring_char(start, n).to_owned();
    pieces.push(piece);
    assert(s@.take(n as int) =~= s@);
    assert(pieces.deep_view() =~= before.push(s@.subrange(start as int, n as int)));
    proof {
        lemma_split_joins(s@, sep);
        assert forall|k: int| 0 <= k < pieces.len() implies !(#[trigger] pieces[k])@.contains(
            sep,
        ) by {
            assert(pieces.deep_view()[k] == pieces[k]@);
        }
    }
    pieces
}

/// What follows the last `sep` in `s`.
pub fn last_segment(s: &str, sep: char) -> (segment: &str)
    ensures
        segment@ == spec_last_segment(s@, sep),
        segment@ == spec_split(s@, sep).last(),
        !segment@.contains(sep),
{
    let chars = chars_of(s);
    let n: usize = chars.len();
    let mut start: usize = n;
    while start > 0 && chars[start - 1] != sep
        invariant
            chars@ == s@,
            n == chars.len(),
            start <= n,
            !s@.subrange(start as int, n as int).contains(sep),
        decreases start,
    {
        start -= 1;
        assert forall|i: int| 0 <= i < n - start implies s@.subrange(start as int, n as int)[i]
            != sep by {
            if i > 0 {
                assert(s@.subrange(start + 1, n as int).contains(
                    s@.subrange(start + 1, n as int)[i - 1],
                ));
            }
        }
    }
    proof {
        lemma_last_segment(s@, sep, start as int);
        lemma_last_piece(s@, sep);
    }
    s.substring_char(start, n)
}

/// The extension of a file name that holds no path separator.
pub fn extension(name: &str) -> (ext: Option<&str>)
    ensures
        ext.deep_view() == spec_extension(name@),
{
    let ext = last_segment(name, '.');
    let total: usize = name.unicode_len();
    let tail: usize = ext.unicode_len();
    proof {
        reveal_strlit("..");
        assert(".."@ =~= seq!['.', '.']);
        lemma_last_segment_is_suffix(name@, '.');
    }
    if equal(name, "..") || total - tail <= 1 {
        None
    } else {
        Some(ext)
    }
}

/// A last segment is never longer than the text it was taken from.
pub proof fn lemma_last_segment_is_suffix(s: Seq<char>, sep: char)
    ensures
        spec_last_segment(s, sep).len() <= s.len(),
    decreases s.len(),
{
    if s.len() > 0 && s.last() != sep {
        lemma_last_segment_is_suffix(s.drop_last(), sep);
    }
}

/// The text of one decimal digit.
fn digit_text(d: u32) -> (text: &'static str)
    requires
        d < 10,
    ensures
        text@ == seq![spec_digit(d as int)],
{
    proof {
        reveal_strlit("0");
        reveal_strlit("1");
        reveal_strlit("2");
        reveal_strlit("3");
        reveal_strlit("4");
        reveal_strlit("5");
        reveal_strlit("6");
        reveal_strlit("7");
        reveal_strlit("8");
        reveal_strlit("9");
    }
    let text = if d == 0 {
        "0"
    } else if d == 1 {
        "1"
    } else if d == 2 {
        "2"
    } else if d == 3 {
        "3"
    } else if d == 4 {
        "4"
    } else if d == 5 {
        "5"
    } else if d == 6 {
        "6"
    } else if d == 7 {
        "7"
    } else if d == 8 {
        "8"
    } else {
        "9"
    };
    assert(text@ =~= seq![spec_digit(d as int)]);
    text
}

/// Appends the decimal numeral of `n` to `out`.
fn push_digits(out: &mut String, n: u32)
    ensures
        final(out)@ == old(out)@ + spec_digits(n as nat),
    decreases n,
{
    if n >= 10 {
        push_digits(out, n / 10);
    }
    out.append(digit_text(n % 10));
    assert(out@ =~= old(out)@ + spec_digits(n as nat));
}

/// Writes `n` in decimal.
pub fn decimal(n: i32) -> (text: String)
    ensures
        text@ == spec_decimal(n as int),
{
    let mut text = String::new();
    if n < 0 {
        proof {
            reveal_strlit("-");
        }
        text.append("-");
        let magnitude: i64 = 0 - (n as i64);
        push_digits(&mut text, magnitude as u32);
        assert(text@ =~= spec_decimal(n as int));
    } else {
        push_digits(&mut text, n as u32);
        assert(text@ =~= spec_decimal(n as int));
    }
    text
}

} // verus!
