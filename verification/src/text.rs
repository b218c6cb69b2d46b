//! String helpers shared by the modules: comparison and scanning of text
//! by character.

use vstd::prelude::*;

verus! {

/// The characters of a text that may be absent.
pub open spec fn text_view(s: Option<&str>) -> Option<Seq<char>> {
    match s {
        Some(t) => Some(t@),
        None => None,
    }
}

/// Whether two strings hold the same characters.
pub fn str_eq(a: &str, b: &str) -> (r: bool)
    ensures
        r == (a@ == b@),
{
    broadcast use vstd::utf8::encode_utf8_decode_utf8;

    let x = a.as_bytes();
    let y = b.as_bytes();
    if x.len() != y.len() {
        return false;
    }
    let n: usize = x.len();
    let mut i: usize = 0;
    while i < n
        invariant
            i <= n,
            n == x@.len(),
            n == y@.len(),
            x@ == vstd::utf8::encode_utf8(a@),
            y@ == vstd::utf8::encode_utf8(b@),
            forall|j: int| 0 <= j < i ==> x@[j] == y@[j],
        decreases n - i,
    {
        if x[i] != y[i] {
            return false;
        }
        i += 1;
    }
    assert(x@ =~= y@);
    assert(b@ == vstd::utf8::decode_utf8(y@));
    true
}

/// Position of the last `c` in `s`, or -1 where `s` holds none.
pub open spec fn last_index_of(s: Seq<char>, c: char) -> int
    decreases s.len(),
{
    if s.len() == 0 {
        -1
    } else if s.last() == c {
        s.len() - 1
    } else {
        last_index_of(s.drop_last(), c)
    }
}

/// What `last_index_of` finds: a position of `c` behind which no `c`
/// follows, or -1 exactly where `s` holds no `c`.
pub proof fn lemma_last_index_of(s: Seq<char>, c: char)
    ensures
        -1 <= last_index_of(s, c) < s.len(),
        last_index_of(s, c) >= 0 ==> s[last_index_of(s, c)] == c,
        forall|j: int| last_index_of(s, c) < j < s.len() ==> s[j] != c,
    decreases s.len(),
{
    if s.len() > 0 && s.last() != c {
        lemma_last_index_of(s.drop_last(), c);
        assert forall|j: int| last_index_of(s, c) < j < s.len() implies s[j] != c by {
            if j < s.len() - 1 {
                assert(s.drop_last()[j] == s[j]);
            }
        }
    }
}

/// Where `c` stands at `k` and nowhere behind, `k` is its last position.
pub proof fn lemma_last_index_of_at(s: Seq<char>, c: char, k: int)
    requires
        0 <= k < s.len(),
        s[k] == c,
        forall|j: int| k < j < s.len() ==> s[j] != c,
    ensures
        last_index_of(s, c) == k,
{
    lemma_last_index_of(s, c);
}

/// Where no `c` stands at `k` or behind, the last `c` stands before `k`,
/// if there is one at all.
pub proof fn lemma_last_index_of_before(s: Seq<char>, c: char, k: int)
    requires
        0 <= k <= s.len(),
        forall|j: int| k <= j < s.len() ==> s[j] != c,
    ensures
        last_index_of(s, c) < k,
{
    lemma_last_index_of(s, c);
}

/// A line ends at a line feed or at a carriage return.
pub open spec fn is_line_break(c: char) -> bool {
    c == '\n' || c == '\r'
}

/// Position of the first line break in `s`; the length of `s` where it
/// holds none.
pub open spec fn line_end(s: Seq<char>) -> int
    decreases s.len(),
{
    if s.len() == 0 || is_line_break(s[0]) {
        0
    } else {
        1 + line_end(s.drop_first())
    }
}

/// What `line_end` finds: a position within `s` or its length, before
/// which no line break stands, and at which one stands unless it is the
/// length.
pub proof fn lemma_line_end(s: Seq<char>)
    ensures
        0 <= line_end(s) <= s.len(),
        forall|j: int| 0 <= j < line_end(s) ==> !is_line_break(s[j]),
        line_end(s) < s.len() ==> is_line_break(s[line_end(s)]),
    decreases s.len(),
{
    if s.len() > 0 && !is_line_break(s[0]) {
        let rest = s.drop_first();
        lemma_line_end(rest);
        assert forall|j: int| 0 <= j < line_end(s) implies !is_line_break(s[j]) by {
            if j > 0 {
                assert(s[j] == rest[j - 1]);
            }
        }
    }
}

/// A position before which no line break stands, and at which one stands
/// unless it is the length, is the one that `line_end` finds.
pub proof fn lemma_line_end_is(s: Seq<char>, i: int)
    requires
        0 <= i <= s.len(),
        forall|j: int| 0 <= j < i ==> !is_line_break(s[j]),
        i < s.len() ==> is_line_break(s[i]),
    ensures
        line_end(s) == i,
{
    lemma_line_end(s);
}

/// Finds the first line break of `s`, counted in characters; the length
/// of `s` where it holds none.
pub fn find_line_break(s: &str) -> (i: usize)
    ensures
        i == line_end(s@),
{
    broadcast use vstd::string::group_string_axioms;

    let n: usize = s.unicode_len();
    let mut first: usize = n;
    let mut i: usize = 0;
    for ch in it: s.chars()
        invariant
            i == it.index(),
            it.seq() == s@,
            n == s@.len(),
            first <= n,
            first < n ==> first < i && is_line_break(s@[first as int]),
            forall|j: int| 0 <= j < i && j < first ==> !is_line_break(s@[j]),
    {
        if first == n && (ch == '\n' || ch == '\r') {
            first = i;
        }
        i += 1;
    }
    proof {
        lemma_line_end_is(s@, first as int);
    }
    first
}

/// Finds the last `c` in `s`, counted in characters.
pub fn rfind_char(s: &str, c: char) -> (r: Option<usize>)
    ensures
        match r {
            Some(i) => i == last_index_of(s@, c),
            None => last_index_of(s@, c) == -1,
        },
{
    broadcast use vstd::string::group_string_axioms;

    let n: usize = s.unicode_len();
    let mut found: Option<usize> = None;
    let mut i: usize = 0;
    for ch in it: s.chars()
        invariant
            i == it.index(),
            it.seq() == s@,
            n == s@.len(),
            match found {
                Some(k) => k == last_index_of(s@.subrange(0, i as int), c),
                None => last_index_of(s@.subrange(0, i as int), c) == -1,
            },
    {
        assert(s@.subrange(0, i + 1).drop_last() =~= s@.subrange(0, i as int));
        if ch == c {
            found = Some(i);
        }
        i += 1;
    }
    assert(s@.subrange(0, i as int) =~= s@);
    found
}

/// The value of a decimal digit; none for any other character.
pub open spec fn digit_value(c: char) -> Option<int> {
    if '0' <= c && c <= '9' {
        Some(c as int - '0' as int)
    } else {
        None
    }
}

/// Whether a text holds decimal digits only.
pub open spec fn all_digits(s: Seq<char>) -> bool {
    forall|i: int| 0 <= i < s.len() ==> digit_value(#[trigger] s[i]) is Some
}

/// The number that a text of decimal digits spells.
pub open spec fn decimal_value(s: Seq<char>) -> int
    decreases s.len(),
{
    if s.len() == 0 {
        0
    } else {
        decimal_value(s.drop_last()) * 10 + digit_value(s.last()).unwrap()
    }
}

/// The digits of a number: what follows its sign, if it has one.
pub open spec fn digits_of(s: Seq<char>) -> Seq<char> {
    if s.len() > 0 && (s[0] == '-' || s[0] == '+') {
        s.skip(1)
    } else {
        s
    }
}

/// The number that a text spells in decimal notation: a plus or a minus
/// sign or none, then one digit or more and nothing else. None where the
/// text is not of this form or the number is not one of 32 bits.
pub open spec fn decimal_i32(s: Seq<char>) -> Option<int> {
    let digits = digits_of(s);
    let value = if s.len() > 0 && s[0] == '-' {
        -decimal_value(digits)
    } else {
        decimal_value(digits)
    };
    if digits.len() > 0 && all_digits(digits) && i32::MIN <= value <= i32::MAX {
        Some(value)
    } else {
        None
    }
}

spec fn has_sign(s: Seq<char>) -> bool {
    s.len() > 0 && (s[0] == '-' || s[0] == '+')
}

/// The digits among the first `i` characters of a number.
spec fn digits_read(s: Seq<char>, i: int) -> Seq<char> {
    if has_sign(s) {
        if i >= 1 {
            s.subrange(1, i)
        } else {
            Seq::<char>::empty()
        }
    } else {
        s.subrange(0, i)
    }
}

proof fn lemma_digits_read_step(s: Seq<char>, i: int)
    requires
        0 <= i < s.len(),
    ensures
        i == 0 && has_sign(s) ==> digits_read(s, i + 1) == digits_read(s, i),
        !(i == 0 && has_sign(s)) ==> {
            &&& digits_read(s, i + 1) == digits_read(s, i).push(s[i])
            &&& all_digits(digits_read(s, i + 1)) == (all_digits(digits_read(s, i))
                && digit_value(s[i]) is Some)
            &&& decimal_value(digits_read(s, i + 1)) == decimal_value(digits_read(s, i)) * 10
                + digit_value(s[i]).unwrap()
        },
{
    let before = digits_read(s, i);
    let after = digits_read(s, i + 1);
    if !(i == 0 && has_sign(s)) {
        assert(after.drop_last() =~= before);
        if all_digits(after) {
            assert(digit_value(after[after.len() - 1]) is Some);
            assert forall|j: int| 0 <= j < before.len() implies digit_value(
                #[trigger] before[j],
            ) is Some by {
                assert(before[j] == after[j]);
            }
        }
    }
}

fn digit_of(c: char) -> (r: Option<i64>)
    ensures
        match r {
            Some(d) => digit_value(c) == Some(d as int) && 0 <= d <= 9,
            None => digit_value(c) is None,
        },
{
    match c {
        '0' => Some(0),
        '1' => Some(1),
        '2' => Some(2),
        '3' => Some(3),
        '4' => Some(4),
        '5' => Some(5),
        '6' => Some(6),
        '7' => Some(7),
        '8' => Some(8),
        '9' => Some(9),
        _ => None,
    }
}

/// Reads a number of 32 bits in decimal notation.
pub fn parse_i32(s: &str) -> (r: Option<i32>)
    ensures
        match r {
            Some(v) => decimal_i32(s@) == Some(v as int),
            None => decimal_i32(s@) is None,
        },
{
    broadcast use vstd::string::group_string_axioms;

    let n: usize = s.unicode_len();
    let mut negative: bool = false;
    let mut signed: bool = false;
    let mut well_formed: bool = true;
    // The value of the digits read, as long as it is at most 2^31; beyond
    // that only the fact is kept.
    let mut magnitude: i64 = 0;
    let mut too_large: bool = false;
    let mut i: usize = 0;
    for ch in it: s.chars()
        invariant
            i == it.index(),
            it.seq() == s@,
            n == s@.len(),
            i <= n,
            signed == (i > 0 && has_sign(s@)),
            negative == (i > 0 && s@[0] == '-'),
            well_formed == all_digits(digits_read(s@, i as int)),
            well_formed && !too_large ==> magnitude == decimal_value(digits_read(s@, i as int)),
            well_formed && too_large ==> decimal_value(digits_read(s@, i as int)) > 0x8000_0000,
            0 <= magnitude <= 0x8000_0000,
    {
        proof {
            lemma_digits_read_step(s@, i as int);
        }
        if i == 0 && (ch == '-' || ch == '+') {
            negative = ch == '-';
            signed = true;
        } else {
            match digit_of(ch) {
                Some(d) => {
                    if well_formed && !too_large {
                        let next: i64 = magnitude * 10 + d;
                        if next > 0x8000_0000 {
                            too_large = true;
                        } else {
                            magnitude = next;
                        }
                    }
                },
                None => {
                    well_formed = false;
                },
            }
        }
        i += 1;
    }
    assert(digits_read(s@, n as int) == digits_of(s@));
    let digits: usize = if signed {
        n - 1
    } else {
        n
    };
    if digits == 0 || !well_formed || too_large {
        return None;
    }
    if negative {
        Some((-magnitude) as i32)
    } else if magnitude <= 0x7fff_ffff {
        Some(magnitude as i32)
    } else {
        None
    }
}

} // verus!
