//! Character-sequence helpers: whitespace, trimming, searching and splitting.
//!
//! Every operation has a mathematical definition over `Seq<char>` and an
//! executable counterpart over `Vec<char>` that is proved to compute it.

use vstd::prelude::*;
use vstd::string::StringExecFns;

verus! {

/// Whether `c` has the Unicode `White_Space` property.
pub open spec fn spec_is_whitespace(c: char) -> bool {
    let n = c as u32;
    (0x09 <= n <= 0x0D) || n == 0x20 || n == 0x85 || n == 0xA0 || n == 0x1680 || (0x2000 <= n
        <= 0x200A) || n == 0x2028 || n == 0x2029 || n == 0x202F || n == 0x205F || n == 0x3000
}

/// `s` without its leading whitespace.
pub open spec fn spec_trim_start(s: Seq<char>) -> Seq<char>
    decreases s.len(),
{
    if s.len() > 0 && spec_is_whitespace(s[0]) {
        spec_trim_start(s.drop_first())
    } else {
        s
    }
}

/// `s` without its trailing whitespace.
pub open spec fn spec_trim_end(s: Seq<char>) -> Seq<char>
    decreases s.len(),
{
    if s.len() > 0 && spec_is_whitespace(s.last()) {
        spec_trim_end(s.drop_last())
    } else {
        s
    }
}

/// `s` without leading and trailing whitespace.
pub open spec fn spec_trim(s: Seq<char>) -> Seq<char> {
    spec_trim_end(spec_trim_start(s))
}

/// Whether `s` begins with `p`.
pub open spec fn spec_starts_with(s: Seq<char>, p: Seq<char>) -> bool {
    p.len() <= s.len() && s.take(p.len() as int) == p
}

/// `o` moved right by `k` positions.
pub open spec fn spec_shift(o: Option<int>, k: int) -> Option<int> {
    match o {
        Some(i) => Some(i + k),
        None => None,
    }
}

/// The position of the first occurrence of `p` in `s`.
pub open spec fn spec_find(s: Seq<char>, p: Seq<char>) -> Option<int>
    decreases s.len(),
{
    if spec_starts_with(s, p) {
        Some(0)
    } else if s.len() == 0 {
        None
    } else {
        spec_shift(spec_find(s.drop_first(), p), 1)
    }
}

/// Whether `p` occurs somewhere in `s`.
pub open spec fn spec_contains(s: Seq<char>, p: Seq<char>) -> bool {
    spec_find(s, p) is Some
}

/// The position of the last occurrence of the character `c` in `s`.
pub open spec fn spec_rfind_char(s: Seq<char>, c: char) -> Option<int>
    decreases s.len(),
{
    if s.len() == 0 {
        None
    } else if s.last() == c {
        Some(s.len() - 1)
    } else {
        spec_rfind_char(s.drop_last(), c)
    }
}

/// `s` after removing the prefix `p` as often as it occurs at the front.
pub open spec fn spec_strip_prefix_all(s: Seq<char>, p: Seq<char>) -> Seq<char>
    decreases s.len(),
{
    if p.len() > 0 && spec_starts_with(s, p) {
        spec_strip_prefix_all(s.skip(p.len() as int), p)
    } else {
        s
    }
}

/// `s` after removing every trailing `c`.
pub open spec fn spec_strip_suffix_char_all(s: Seq<char>, c: char) -> Seq<char>
    decreases s.len(),
{
    if s.len() > 0 && s.last() == c {
        spec_strip_suffix_char_all(s.drop_last(), c)
    } else {
        s
    }
}

/// The pieces of `s` between occurrences of the separator `sep`.
///
/// There is always at least one piece; a separator at the very end is
/// followed by an empty piece.
pub open spec fn spec_split(s: Seq<char>, sep: char) -> Seq<Seq<char>>
    decreases s.len(),
{
    match spec_find(s, seq![sep]) {
        Some(i) => if 0 <= i < s.len() {
            seq![s.take(i)] + spec_split(s.skip(i + 1), sep)
        } else {
            seq![s]
        },
        None => seq![s],
    }
}

/// Tests for the Unicode `White_Space` property.
pub fn is_whitespace(c: char) -> (r: bool)
    ensures
        r == spec_is_whitespace(c),
{
    let n: u32 = c as u32;
    (0x09 <= n && n <= 0x0D) || n == 0x20 || n == 0x85 || n == 0xA0 || n == 0x1680 || (0x2000
        <= n && n <= 0x200A) || n == 0x2028 || n == 0x2029 || n == 0x202F || n == 0x205F || n
        == 0x3000
}

/// `String::push` of the standard library: after the call the string holds
/// the characters that it held before, followed by `ch`; nothing else
/// changes, and the call always returns.
pub assume_specification[ String::push ](s: &mut String, ch: char)
    ensures
        final(s)@ == old(s)@.push(ch),
;

/// The text `lead` followed by `rest`.
pub fn joined(lead: &str, rest: &str) -> (s: String)
    ensures
        s@ == lead@ + rest@,
{
    let mut s = lead.to_owned();
    s.append(rest);
    s
}

/// The characters of `s`, in order.
pub fn chars_of(s: &str) -> (v: Vec<char>)
    ensures
        v@ == s@,
{
    let mut v: Vec<char> = Vec::new();
    for c in it: s.chars()
        invariant
            v@ == s@.take(it.index() as int),
            it.seq() == s@,
    {
        v.push(c);
    }
    v
}

/// The string made of the characters of `v`.
pub fn string_of(v: &Vec<char>) -> (s: String)
    ensures
        s@ == v@,
{
    let mut s = String::new();
    let mut i: usize = 0;
    while i < v.len()
        invariant
            i <= v.len(),
            s@ == v@.take(i as int),
        decreases v.len() - i,
    {
        s.push(v[i]);
        i = i + 1;
    }
    s
}

/// The characters `v[lo..hi]`.
pub fn slice_of(v: &Vec<char>, lo: usize, hi: usize) -> (r: Vec<char>)
    requires
        lo <= hi <= v.len(),
    ensures
        r@ == v@.subrange(lo as int, hi as int),
{
    let mut r: Vec<char> = Vec::new();
    let mut i: usize = lo;
    while i < hi
        invariant
            lo <= i <= hi <= v.len(),
            r@ == v@.subrange(lo as int, i as int),
        decreases hi - i,
    {
        r.push(v[i]);
        i = i + 1;
    }
    r
}

/// Whether the characters of `v` from position `at` on begin with `p`.
pub fn starts_with_at(v: &Vec<char>, at: usize, p: &Vec<char>) -> (r: bool)
    requires
        at <= v.len(),
    ensures
        r == spec_starts_with(v@.skip(at as int), p@),
{
    if p.len() > v.len() - at {
        return false;
    }
    let mut i: usize = 0;
    while i < p.len()
        invariant
            at <= v.len(),
            p.len() <= v.len() - at,
            i <= p.len(),
            forall|k: int| 0 <= k < i ==> v@[at + k] == p@[k],
        decreases p.len() - i,
    {
        if v[at + i] != p[i] {
            proof {
                let t = v@.skip(at as int).take(p.len() as int);
                assert(t[i as int] != p@[i as int]);
            }
            return false;
        }
        i = i + 1;
    }
    proof {
        assert(v@.skip(at as int).take(p.len() as int) =~= p@);
    }
    true
}

/// Whether `v` begins with `p`.
pub fn starts_with(v: &Vec<char>, p: &Vec<char>) -> (r: bool)
    ensures
        r == spec_starts_with(v@, p@),
{
    proof {
        assert(v@.skip(0) =~= v@);
    }
    starts_with_at(v, 0, p)
}

/// The position of the first occurrence of `p` in `v`.
pub fn find(v: &Vec<char>, p: &Vec<char>) -> (r: Option<usize>)
    ensures
        spec_find(v@, p@) == match r {
            Some(i) => Some(i as int),
            None => None,
        },
        r matches Some(i) ==> i <= v.len(),
{
    let mut i: usize = 0;
    proof {
        assert(v@.skip(0) =~= v@);
    }
    loop
        invariant
            i <= v.len(),
            spec_find(v@, p@) == spec_shift(spec_find(v@.skip(i as int), p@), i as int),
        decreases v.len() - i,
    {
        if starts_with_at(v, i, p) {
            return Some(i);
        }
        if i == v.len() {
            return None;
        }
        proof {
            assert(v@.skip(i as int).drop_first() =~= v@.skip(i + 1));
        }
        i = i + 1;
    }
}

/// Whether `p` occurs somewhere in `v`.
pub fn contains(v: &Vec<char>, p: &Vec<char>) -> (r: bool)
    ensures
        r == spec_contains(v@, p@),
{
    find(v, p).is_some()
}

/// The position of the last occurrence of `c` in `v`.
pub fn rfind_char(v: &Vec<char>, c: char) -> (r: Option<usize>)
    ensures
        spec_rfind_char(v@, c) == match r {
            Some(i) => Some(i as int),
            None => None,
        },
        r matches Some(i) ==> i < v.len(),
{
    let mut i: usize = v.len();
    proof {
        assert(v@.take(v.len() as int) =~= v@);
    }
    while i > 0
        invariant
            i <= v.len(),
            spec_rfind_char(v@, c) == spec_rfind_char(v@.take(i as int), c),
        decreases i,
    {
        if v[i - 1] == c {
            return Some(i - 1);
        }
        proof {
            assert(v@.take(i as int).drop_last() =~= v@.take(i - 1));
        }
        i = i - 1;
    }
    None
}

/// `v` without its leading whitespace.
pub fn trim_start(v: &Vec<char>) -> (r: Vec<char>)
    ensures
        r@ == spec_trim_start(v@),
{
    let mut i: usize = 0;
    proof {
        assert(v@.skip(0) =~= v@);
    }
    while i < v.len() && is_whitespace(v[i])
        invariant
            i <= v.len(),
            spec_trim_start(v@) == spec_trim_start(v@.skip(i as int)),
        decreases v.len() - i,
    {
        proof {
            assert(v@.skip(i as int).drop_first() =~= v@.skip(i + 1));
        }
        i = i + 1;
    }
    proof {
        assert(v@.subrange(i as int, v.len() as int) =~= v@.skip(i as int));
    }
    slice_of(v, i, v.len())
}

/// `v` without its trailing whitespace.
pub fn trim_end(v: &Vec<char>) -> (r: Vec<char>)
    ensures
        r@ == spec_trim_end(v@),
{
    let mut i: usize = v.len();
    proof {
        assert(v@.take(v.len() as int) =~= v@);
    }
    while i > 0 && is_whitespace(v[i - 1])
        invariant
            i <= v.len(),
            spec_trim_end(v@) == spec_trim_end(v@.take(i as int)),
        decreases i,
    {
        proof {
            assert(v@.take(i as int).drop_last() =~= v@.take(i - 1));
        }
        i = i - 1;
    }
    proof {
        assert(v@.subrange(0, i as int) =~= v@.take(i as int));
    }
    slice_of(v, 0, i)
}

/// `v` without leading and trailing whitespace.
pub fn trim(v: &Vec<char>) -> (r: Vec<char>)
    ensures
        r@ == spec_trim(v@),
{
    let front = trim_start(v);
    trim_end(&front)
}

/// `v` after removing the prefix `p` as often as it occurs at the front.
pub fn strip_prefix_all(v: &Vec<char>, p: &Vec<char>) -> (r: Vec<char>)
    ensures
        r@ == spec_strip_prefix_all(v@, p@),
{
    let mut i: usize = 0;
    proof {
        assert(v@.skip(0) =~= v@);
    }
    while p.len() > 0 && starts_with_at(v, i, p)
        invariant
            i <= v.len(),
            spec_strip_prefix_all(v@, p@) == spec_strip_prefix_all(v@.skip(i as int), p@),
        decreases v.len() - i,
    {
        proof {
            assert(v@.skip(i as int).skip(p.len() as int) =~= v@.skip(i + p.len()));
        }
        i = i + p.len();
    }
    proof {
        assert(v@.subrange(i as int, v.len() as int) =~= v@.skip(i as int));
    }
    slice_of(v, i, v.len())
}

/// `v` after removing every trailing `c`.
pub fn strip_suffix_char_all(v: &Vec<char>, c: char) -> (r: Vec<char>)
    ensures
        r@ == spec_strip_suffix_char_all(v@, c),
{
    let mut i: usize = v.len();
    proof {
        assert(v@.take(v.len() as int) =~= v@);
    }
    while i > 0 && v[i - 1] == c
        invariant
            i <= v.len(),
            spec_strip_suffix_char_all(v@, c) == spec_strip_suffix_char_all(v@.take(i as int), c),
        decreases i,
    {
        proof {
            assert(v@.take(i as int).drop_last() =~= v@.take(i - 1));
        }
        i = i - 1;
    }
    proof {
        assert(v@.subrange(0, i as int) =~= v@.take(i as int));
    }
    slice_of(v, 0, i)
}


/// The first occurrence of a character is where `spec_find` reports it.
pub proof fn lemma_find_char_first(s: Seq<char>, c: char, m: int)
    requires
        0 <= m < s.len(),
        s[m] == c,
        forall|k: int| 0 <= k < m ==> s[k] != c,
    ensures
        spec_find(s, seq![c]) == Some(m),
    decreases m,
{
    if m == 0 {
        assert(s.take(1) =~= seq![c]);
    } else {
        assert(s.take(1)[0] != seq![c][0]);
        lemma_find_char_first(s.drop_first(), c, m - 1);
    }
}

/// A character that occurs nowhere is not found.
pub proof fn lemma_find_char_none(s: Seq<char>, c: char)
    requires
        forall|k: int| 0 <= k < s.len() ==> s[k] != c,
    ensures
        spec_find(s, seq![c]) is None,
    decreases s.len(),
{
    if s.len() > 0 {
        assert(s.take(1)[0] != seq![c][0]);
        lemma_find_char_none(s.drop_first(), c);
    }
}

/// Whether `a` and `b` hold the same characters.
pub fn same_chars(a: &Vec<char>, b: &Vec<char>) -> (r: bool)
    ensures
        r == (a@ == b@),
{
    if a.len() != b.len() {
        return false;
    }
    let r = starts_with(a, b);
    proof {
        assert(a@.take(a.len() as int) =~= a@);
    }
    r
}

/// The character sequences held by `v`, in order.
pub open spec fn spec_pieces(v: Seq<Vec<char>>) -> Seq<Seq<char>> {
    Seq::new(v.len(), |i: int| v[i]@)
}

/// The pieces of `v` between occurrences of the separator `sep`.
pub fn split(v: &Vec<char>, sep: char) -> (r: Vec<Vec<char>>)
    ensures
        spec_pieces(r@) == spec_split(v@, sep),
{
    let mut out: Vec<Vec<char>> = Vec::new();
    let mut start: usize = 0;
    let mut i: usize = 0;
    proof {
        assert(v@.skip(0) =~= v@);
        assert(spec_pieces(out@) =~= Seq::<Seq<char>>::empty());
        assert(Seq::<Seq<char>>::empty() + spec_split(v@, sep) =~= spec_split(v@, sep));
    }
    while i < v.len()
        invariant
            start <= i <= v.len(),
            forall|k: int| start <= k < i ==> v@[k] != sep,
            spec_split(v@, sep) == spec_pieces(out@) + spec_split(v@.skip(start as int), sep),
        decreases v.len() - i,
    {
        if v[i] == sep {
            let piece = slice_of(v, start, i);
            let ghost before = spec_pieces(out@);
            proof {
                let rest = v@.skip(start as int);
                lemma_find_char_first(rest, sep, i - start);
                assert(rest.take(i - start) =~= piece@);
                assert(rest.skip(i - start + 1) =~= v@.skip(i + 1));
            }
            out.push(piece);
            proof {
                assert(spec_pieces(out@) =~= before.push(piece@));
                assert(before + (seq![piece@] + spec_split(v@.skip(i + 1), sep)) =~= before.push(
                    piece@,
                ) + spec_split(v@.skip(i + 1), sep));
            }
            start = i + 1;
        }
        i = i + 1;
    }
    let piece = slice_of(v, start, v.len());
    let ghost before = spec_pieces(out@);
    proof {
        let rest = v@.skip(start as int);
        lemma_find_char_none(rest, sep);
        assert(rest =~= piece@);
    }
    out.push(piece);
    proof {
        assert(spec_pieces(out@) =~= before.push(piece@));
        assert(before + seq![piece@] =~= before.push(piece@));
    }
    out
}


/// The decimal digit for `d`.
pub open spec fn spec_digit(d: int) -> char {
    if d == 0 {
        '0'
    } else if d == 1 {
        '1'
    } else if d == 2 {
        '2'
    } else if d == 3 {
        '3'
    } else if d == 4 {
        '4'
    } else if d == 5 {
        '5'
    } else if d == 6 {
        '6'
    } else if d == 7 {
        '7'
    } else if d == 8 {
        '8'
    } else {
        '9'
    }
}

/// The decimal digits of `n`, most significant first, without leading zeros.
pub open spec fn spec_digits(n: nat) -> Seq<char>
    decreases n,
{
    if n < 10 {
        seq![spec_digit(n as int)]
    } else {
        spec_digits(n / 10).push(spec_digit((n % 10) as int))
    }
}

/// The decimal notation of `i`, with a minus sign for negative numbers.
pub open spec fn spec_decimal(i: int) -> Seq<char> {
    if i < 0 {
        seq!['-'] + spec_digits((-i) as nat)
    } else {
        spec_digits(i as nat)
    }
}

/// The decimal digit for `d`.
fn digit(d: u64) -> (c: char)
    requires
        d < 10,
    ensures
        c == spec_digit(d as int),
{
    if d == 0 {
        '0'
    } else if d == 1 {
        '1'
    } else if d == 2 {
        '2'
    } else if d == 3 {
        '3'
    } else if d == 4 {
        '4'
    } else if d == 5 {
        '5'
    } else if d == 6 {
        '6'
    } else if d == 7 {
        '7'
    } else if d == 8 {
        '8'
    } else {
        '9'
    }
}

/// The decimal digits of `n`.
fn digits(n: u64) -> (v: Vec<char>)
    ensures
        v@ == spec_digits(n as nat),
    decreases n,
{
    if n < 10 {
        let mut v: Vec<char> = Vec::new();
        v.push(digit(n));
        proof {
            assert(v@ =~= seq![spec_digit(n as int)]);
        }
        v
    } else {
        let mut v = digits(n / 10);
        v.push(digit(n % 10));
        v
    }
}

/// The decimal notation of `i`.
pub fn decimal(i: i32) -> (s: String)
    ensures
        s@ == spec_decimal(i as int),
{
    let wide: i64 = i as i64;
    if wide < 0 {
        let magnitude: u64 = (0 - wide) as u64;
        let tail = digits(magnitude);
        let mut v: Vec<char> = Vec::new();
        v.push('-');
        let mut tail = tail;
        let ghost t = tail@;
        v.append(&mut tail);
        proof {
            assert(v@ =~= seq!['-'] + t);
        }
        string_of(&v)
    } else {
        let v = digits(wide as u64);
        string_of(&v)
    }
}


/// What `spec_find` reports for a single character: where it first stands,
/// or that it stands nowhere.
pub proof fn lemma_find_char(s: Seq<char>, c: char)
    ensures
        match spec_find(s, seq![c]) {
            Some(i) => 0 <= i < s.len() && s[i] == c && forall|k: int| 0 <= k < i ==> s[k] != c,
            None => forall|k: int| 0 <= k < s.len() ==> s[k] != c,
        },
    decreases s.len(),
{
    if spec_starts_with(s, seq![c]) {
        assert(s.take(1)[0] == c);
    } else if s.len() > 0 {
        lemma_find_char(s.drop_first(), c);
        assert(s[0] != c) by {
            if s[0] == c {
                assert(s.take(1) =~= seq![c]);
            }
        }
        match spec_find(s.drop_first(), seq![c]) {
            Some(i) => {
                assert forall|k: int| 0 <= k < i + 1 implies s[k] != c by {
                    if k > 0 {
                        assert(s.drop_first()[k - 1] == s[k]);
                    }
                }
            },
            None => {
                assert forall|k: int| 0 <= k < s.len() implies s[k] != c by {
                    if k > 0 {
                        assert(s.drop_first()[k - 1] == s[k]);
                    }
                }
            },
        }
    }
}

/// Text that nowhere holds the second of two characters does not contain
/// the two in a row.
pub proof fn lemma_find_pair_none(s: Seq<char>, a: char, b: char)
    requires
        forall|k: int| 0 <= k < s.len() ==> s[k] != b,
    ensures
        spec_find(s, seq![a, b]) is None,
    decreases s.len(),
{
    if s.len() >= 2 {
        assert(s.take(2)[1] != seq![a, b][1]);
    }
    if s.len() > 0 {
        lemma_find_pair_none(s.drop_first(), a, b);
    }
}

/// After a head that nowhere holds the second of two different characters,
/// the two in a row are first found right behind the head.
pub proof fn lemma_find_pair_after(head: Seq<char>, a: char, b: char, tail: Seq<char>)
    requires
        a != b,
        forall|k: int| 0 <= k < head.len() ==> head[k] != b,
    ensures
        spec_find(head + seq![a, b] + tail, seq![a, b]) == Some(head.len() as int),
    decreases head.len(),
{
    let s = head + seq![a, b] + tail;
    if head.len() == 0 {
        assert(s.take(2) =~= seq![a, b]);
    } else {
        assert(s.take(2)[1] != b) by {
            if head.len() == 1 {
                assert(s[1] == a);
            } else {
                assert(s[1] == head[1]);
            }
        }
        assert(s.drop_first() =~= head.drop_first() + seq![a, b] + tail);
        lemma_find_pair_after(head.drop_first(), a, b, tail);
    }
}

/// The last occurrence of a character that does not stand behind it.
pub proof fn lemma_rfind_char_before(head: Seq<char>, c: char, tail: Seq<char>)
    requires
        forall|k: int| 0 <= k < tail.len() ==> tail[k] != c,
    ensures
        spec_rfind_char(head + seq![c] + tail, c) == Some(head.len() as int),
    decreases tail.len(),
{
    let s = head + seq![c] + tail;
    if tail.len() == 0 {
        assert(s.last() == c);
    } else {
        assert(s.last() == tail.last());
        assert(s.drop_last() =~= head + seq![c] + tail.drop_last());
        lemma_rfind_char_before(head, c, tail.drop_last());
    }
}

/// Text that neither begins nor ends with whitespace is what trimming
/// leaves of it.
pub proof fn lemma_trim_nothing(s: Seq<char>)
    requires
        s.len() > 0 ==> !spec_is_whitespace(s.first()) && !spec_is_whitespace(s.last()),
    ensures
        spec_trim(s) == s,
{
}

/// Whitespace in front does not survive trimming.
pub proof fn lemma_trim_start_skips(c: char, s: Seq<char>)
    requires
        spec_is_whitespace(c),
    ensures
        spec_trim_start(seq![c] + s) == spec_trim_start(s),
{
    assert((seq![c] + s).drop_first() =~= s);
}

/// Whitespace at the end does not survive trimming.
pub proof fn lemma_trim_end_skips(s: Seq<char>, c: char)
    requires
        spec_is_whitespace(c),
    ensures
        spec_trim_end(s + seq![c]) == spec_trim_end(s),
{
    assert((s + seq![c]).drop_last() =~= s);
}

/// The last piece of text that ends with a separator and text free of it.
pub proof fn lemma_split_last(head: Seq<char>, sep: char, tail: Seq<char>)
    requires
        forall|k: int| 0 <= k < tail.len() ==> tail[k] != sep,
    ensures
        spec_split(head + seq![sep] + tail, sep) == spec_split(head, sep).push(tail),
    decreases head.len(),
{
    let s = head + seq![sep] + tail;
    lemma_find_char(head, sep);
    lemma_find_char_none(tail, sep);
    match spec_find(head, seq![sep]) {
        Some(i) => {
            assert(s[i] == sep);
            assert forall|k: int| 0 <= k < i implies s[k] != sep by {
                assert(s[k] == head[k]);
            }
            lemma_find_char_first(s, sep, i);
            assert(s.take(i) =~= head.take(i));
            assert(s.skip(i + 1) =~= head.skip(i + 1) + seq![sep] + tail);
            lemma_split_last(head.skip(i + 1), sep, tail);
            let inner = spec_split(head.skip(i + 1), sep);
            assert(spec_split(s, sep) == seq![s.take(i)] + spec_split(s.skip(i + 1), sep));
            assert(spec_split(head, sep) == seq![head.take(i)] + inner);
            assert(seq![head.take(i)] + inner.push(tail) =~= (seq![head.take(i)] + inner).push(
                tail,
            ));
        },
        None => {
            let m = head.len() as int;
            assert(s[m] == sep);
            assert forall|k: int| 0 <= k < m implies s[k] != sep by {
                assert(s[k] == head[k]);
            }
            lemma_find_char_first(s, sep, m);
            assert(s.take(m) =~= head);
            assert(s.skip(m + 1) =~= tail);
            assert(spec_split(s, sep) == seq![s.take(m)] + spec_split(s.skip(m + 1), sep));
            assert(spec_split(tail, sep) == seq![tail]);
            assert(spec_split(head, sep) == seq![head]);
            assert(seq![head] + seq![tail] =~= seq![head].push(tail));
        },
    }
}

/// The character sequences of the strings in `v`, in order.
pub open spec fn spec_texts(v: Seq<String>) -> Seq<Seq<char>> {
    Seq::new(v.len(), |i: int| v[i]@)
}

/// Whether `a` and `b` hold the same text.
pub fn same_text(a: &str, b: &str) -> (r: bool)
    ensures
        r == (a@ == b@),
{
    let x = chars_of(a);
    let y = chars_of(b);
    same_chars(&x, &y)
}

/// Where `spec_find` reports an occurrence, the whole pattern fits.
pub proof fn lemma_find_within(s: Seq<char>, p: Seq<char>, i: int)
    requires
        spec_find(s, p) == Some(i),
    ensures
        0 <= i,
        i + p.len() <= s.len(),
        s.subrange(i, i + p.len()) == p,
    decreases s.len(),
{
    if spec_starts_with(s, p) {
        assert(s.subrange(0, p.len() as int) =~= s.take(p.len() as int));
    } else {
        lemma_find_within(s.drop_first(), p, i - 1);
        assert(s.drop_first().subrange(i - 1, i - 1 + p.len()) =~= s.subrange(i, i + p.len()));
    }
}


/// Text that stands somewhere in other text is found in it.
pub proof fn lemma_occurrence_is_found(s: Seq<char>, p: Seq<char>, at: int)
    requires
        0 <= at,
        at + p.len() <= s.len(),
        s.subrange(at, at + p.len()) == p,
    ensures
        spec_contains(s, p),
    decreases at,
{
    if at == 0 {
        assert(s.take(p.len() as int) =~= s.subrange(0, p.len() as int));
    } else if !spec_starts_with(s, p) {
        assert(s.drop_first().subrange(at - 1, at - 1 + p.len()) =~= s.subrange(
            at,
            at + p.len(),
        ));
        lemma_occurrence_is_found(s.drop_first(), p, at - 1);
    }
}

/// A character is contained in text exactly if it stands somewhere in it.
pub proof fn lemma_contains_char(s: Seq<char>, c: char)
    ensures
        spec_contains(s, seq![c]) <==> exists|k: int| 0 <= k < s.len() && s[k] == c,
{
    lemma_find_char(s, c);
}

/// Trimming in front leaves no character that was not there.
pub proof fn lemma_trim_start_within(s: Seq<char>, c: char)
    requires
        forall|k: int| 0 <= k < s.len() ==> s[k] != c,
    ensures
        forall|k: int| 0 <= k < spec_trim_start(s).len() ==> spec_trim_start(s)[k] != c,
    decreases s.len(),
{
    let trimmed = spec_trim_start(s);
    if s.len() > 0 && spec_is_whitespace(s[0]) {
        let rest = s.drop_first();
        assert forall|k: int| 0 <= k < rest.len() implies rest[k] != c by {
            assert(rest[k] == s[k + 1]);
        }
        lemma_trim_start_within(rest, c);
        assert(trimmed == spec_trim_start(rest));
    } else {
        assert(trimmed == s);
    }
    assert forall|k: int| 0 <= k < trimmed.len() implies trimmed[k] != c by {}
}

/// Trimming at the end leaves no character that was not there.
pub proof fn lemma_trim_end_within(s: Seq<char>, c: char)
    requires
        forall|k: int| 0 <= k < s.len() ==> s[k] != c,
    ensures
        forall|k: int| 0 <= k < spec_trim_end(s).len() ==> spec_trim_end(s)[k] != c,
    decreases s.len(),
{
    let trimmed = spec_trim_end(s);
    if s.len() > 0 && spec_is_whitespace(s.last()) {
        let rest = s.drop_last();
        assert forall|k: int| 0 <= k < rest.len() implies rest[k] != c by {
            assert(rest[k] == s[k]);
        }
        lemma_trim_end_within(rest, c);
        assert(trimmed == spec_trim_end(rest));
    } else {
        assert(trimmed == s);
    }
    assert forall|k: int| 0 <= k < trimmed.len() implies trimmed[k] != c by {}
}

/// Removing a prefix that does not hold a character neither removes that
/// character from the text nor brings it in.
pub proof fn lemma_strip_prefix_keeps_char(s: Seq<char>, p: Seq<char>, c: char)
    requires
        forall|k: int| 0 <= k < p.len() ==> p[k] != c,
    ensures
        spec_contains(spec_strip_prefix_all(s, p), seq![c]) == spec_contains(s, seq![c]),
    decreases s.len(),
{
    if p.len() > 0 && spec_starts_with(s, p) {
        let rest = s.skip(p.len() as int);
        lemma_strip_prefix_keeps_char(rest, p, c);
        lemma_contains_char(s, c);
        lemma_contains_char(rest, c);
        if exists|k: int| 0 <= k < s.len() && s[k] == c {
            let k = choose|k: int| 0 <= k < s.len() && s[k] == c;
            if k < p.len() {
                assert(s.take(p.len() as int)[k] == p[k]);
            }
            assert(rest[k - p.len()] == c);
        }
        if exists|k: int| 0 <= k < rest.len() && rest[k] == c {
            let k = choose|k: int| 0 <= k < rest.len() && rest[k] == c;
            assert(s[k + p.len()] == c);
        }
    }
}

/// Removing trailing characters neither removes another character from
/// the text nor brings it in.
pub proof fn lemma_strip_suffix_keeps_char(s: Seq<char>, d: char, c: char)
    requires
        d != c,
    ensures
        spec_contains(spec_strip_suffix_char_all(s, d), seq![c]) == spec_contains(s, seq![c]),
    decreases s.len(),
{
    if s.len() > 0 && s.last() == d {
        let rest = s.drop_last();
        lemma_strip_suffix_keeps_char(rest, d, c);
        lemma_contains_char(s, c);
        lemma_contains_char(rest, c);
        if exists|k: int| 0 <= k < s.len() && s[k] == c {
            let k = choose|k: int| 0 <= k < s.len() && s[k] == c;
            assert(rest[k] == c);
        }
        if exists|k: int| 0 <= k < rest.len() && rest[k] == c {
            let k = choose|k: int| 0 <= k < rest.len() && rest[k] == c;
            assert(s[k] == c);
        }
    }
}

/// Text that stands nowhere in other text is not contained in it.
pub proof fn lemma_not_contained(s: Seq<char>, p: Seq<char>)
    requires
        forall|at: int|
            0 <= at && at + p.len() <= s.len() ==> #[trigger] s.subrange(at, at + p.len()) != p,
    ensures
        !spec_contains(s, p),
{
    if spec_contains(s, p) {
        let at = spec_find(s, p)->0;
        lemma_find_within(s, p, at);
    }
}

} // verus!
