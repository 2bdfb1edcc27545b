//! Text helpers: the characters of a string, comparison by content, numbers
//! in decimal notation, UTF-16, and the contracts under which the standard
//! library's Unicode-aware string functions are called.

use vstd::prelude::*;

verus! {

/// The text that `str::trim` hands back for a text: the same text without
/// its leading and trailing Unicode white space.
pub uninterp spec fn trimmed(s: Seq<char>) -> Seq<char>;

/// The text that `str::to_uppercase` hands back for a text: its uppercase
/// equivalent by the Unicode case mapping.
pub uninterp spec fn uppercased(s: Seq<char>) -> Seq<char>;

/// The text that `str::to_lowercase` hands back for a text: its lowercase
/// equivalent by the Unicode case mapping.
pub uninterp spec fn lowercased(s: Seq<char>) -> Seq<char>;

/// `str::trim` returns a slice of its argument whose content depends on the
/// argument's content alone; that content is called `trimmed`.
pub assume_specification[ str::trim ](s: &str) -> (r: &str)
    ensures
        r@ == trimmed(s@),
;

/// `str::to_uppercase` returns a new string whose content depends on the
/// argument's content alone; that content is called `uppercased`.
pub assume_specification[ str::to_uppercase ](s: &str) -> (r: String)
    ensures
        r@ == uppercased(s@),
;

/// `str::to_lowercase` returns a new string whose content depends on the
/// argument's content alone; that content is called `lowercased`.
pub assume_specification[ str::to_lowercase ](s: &str) -> (r: String)
    ensures
        r@ == lowercased(s@),
;

/// The characters of `s`, in order.
pub fn chars_of(s: &str) -> (v: Vec<char>)
    ensures
        v@ == s@,
{
    let mut v: Vec<char> = Vec::new();
    for c in it: s.chars()
        invariant
            it.seq() == s@,
            v@ == it.seq().take(it.index()),
    {
        v.push(c);
    }
    v
}

/// Whether two character sequences are the same.
pub fn same_chars(a: &Vec<char>, b: &Vec<char>) -> (r: bool)
    ensures
        r == (a@ == b@),
{
    if a.len() != b.len() {
        return false;
    }
    let mut i: usize = 0;
    while i < a.len()
        invariant
            i <= a@.len(),
            a@.len() == b@.len(),
            a@.take(i as int) == b@.take(i as int),
        decreases a@.len() - i,
    {
        if a[i] != b[i] {
            assert(a@[i as int] != b@[i as int]);
            return false;
        }
        assert(a@.take(i + 1) =~= a@.take(i as int).push(a@[i as int]));
        assert(b@.take(i + 1) =~= b@.take(i as int).push(b@[i as int]));
        i = i + 1;
    }
    assert(a@.take(i as int) =~= a@);
    assert(b@.take(i as int) =~= b@);
    true
}

/// Whether the characters `a` spell the text `word`.
pub fn spells(a: &Vec<char>, word: &str) -> (r: bool)
    ensures
        r == (a@ == word@),
{
    let w: Vec<char> = chars_of(word);
    same_chars(a, &w)
}

/// Whether two texts have the same content.
pub fn same_text(a: &str, b: &str) -> (r: bool)
    ensures
        r == (a@ == b@),
{
    let va: Vec<char> = chars_of(a);
    spells(&va, b)
}

/// The UTF-16 code units of one character: the character's number where
/// that is below 0x10000, and else the two surrogates that share the twenty
/// bits of what it has above 0x10000, the upper ten first.
pub open spec fn utf16_of_char(c: char) -> Seq<u16> {
    let v = c as u32;
    if v < 0x10000 {
        seq![v as u16]
    } else {
        seq![(0xD800 + (v - 0x10000) / 0x400) as u16, (0xDC00 + (v - 0x10000) % 0x400) as u16]
    }
}

/// The UTF-16 code units of a text: those of its characters, in order.
pub open spec fn utf16_units(s: Seq<char>) -> Seq<u16>
    decreases s.len(),
{
    if s.len() == 0 {
        Seq::empty()
    } else {
        utf16_units(s.drop_last()) + utf16_of_char(s.last())
    }
}

/// A text has at least as many code units as characters, and at most twice
/// as many.
pub proof fn lemma_utf16_len(s: Seq<char>)
    ensures
        s.len() <= utf16_units(s).len() <= 2 * s.len(),
    decreases s.len(),
{
    if s.len() > 0 {
        lemma_utf16_len(s.drop_last());
    }
}

/// The text in UTF-16.
pub fn encode_utf16(s: &str) -> (r: Vec<u16>)
    ensures
        r@ == utf16_units(s@),
{
    let mut units: Vec<u16> = Vec::new();
    for c in it: s.chars()
        invariant
            it.seq() == s@,
            units@ == utf16_units(s@.take(it.index())),
    {
        proof {
            let longer = s@.take(it.index() + 1);
            assert(longer.drop_last() =~= s@.take(it.index()));
            assert(longer.last() == c);
        }
        let v: u32 = c as u32;
        if v < 0x10000 {
            units.push(v as u16);
        } else {
            let above: u32 = v - 0x10000;
            units.push((0xD800 + above / 0x400) as u16);
            units.push((0xDC00 + above % 0x400) as u16);
        }
        assert(units@ =~= utf16_units(s@.take(it.index())) + utf16_of_char(c));
    }
    assert(s@.take(s@.len() as int) =~= s@);
    units
}

/// The text as the platform's calls take it: in UTF-16, with a zero after
/// the last code unit.
pub fn wide_str(s: &str) -> (r: Vec<u16>)
    ensures
        r@ == utf16_units(s@).push(0u16),
{
    let mut units: Vec<u16> = encode_utf16(s);
    units.push(0);
    units
}

/// A buffer of `len` code units that starts with `units` and is zero from
/// there on, if `units` is no longer than `len`.
pub fn zero_padded(units: &Vec<u16>, len: usize) -> (r: Option<Vec<u16>>)
    ensures
        r is Some <==> units@.len() <= len,
        r matches Some(buffer) ==> buffer@ == units@ + Seq::new(
            (len - units@.len()) as nat,
            |i: int| 0u16,
        ),
{
    if units.len() > len {
        return None;
    }
    let mut buffer: Vec<u16> = Vec::new();
    let mut i: usize = 0;
    while i < len
        invariant
            i <= len,
            units@.len() <= len,
            buffer@.len() == i,
            forall|j: int| 0 <= j < i ==> buffer@[j] == (if j < units@.len() {
                units@[j]
            } else {
                0u16
            }),
        decreases len - i,
    {
        let unit: u16 = if i < units.len() {
            units[i]
        } else {
            0
        };
        buffer.push(unit);
        i = i + 1;
    }
    assert(buffer@ =~= units@ + Seq::new((len - units@.len()) as nat, |i: int| 0u16));
    Some(buffer)
}

/// The value of a digit character.
pub open spec fn digit_value(c: char) -> int {
    c as u32 - 0x30
}

/// Whether `c` is one of the digits `0` to `9`.
pub open spec fn is_digit(c: char) -> bool {
    0x30 <= c as u32 <= 0x39
}

/// The number that a sequence of digits denotes in decimal notation.
pub open spec fn decimal_value(digits: Seq<char>) -> nat
    decreases digits.len(),
{
    if digits.len() == 0 {
        0
    } else {
        (10 * decimal_value(digits.drop_last()) + digit_value(digits.last())) as nat
    }
}

/// Every character of `s` is a digit.
pub open spec fn all_digits(s: Seq<char>) -> bool {
    forall|i: int| 0 <= i < s.len() ==> is_digit(#[trigger] s[i])
}

/// The text without the `+` that it may start with.
pub open spec fn unsigned_part(s: Seq<char>) -> Seq<char> {
    if s.len() > 0 && s[0] == '+' {
        s.skip(1)
    } else {
        s
    }
}

/// The number that a text denotes: the text is an optional `+` and then
/// one digit or more, nothing else, and denotes no more than `usize::MAX`.
pub open spec fn parsed_number(s: Seq<char>) -> Option<usize> {
    let digits = unsigned_part(s);
    if digits.len() > 0 && all_digits(digits) && decimal_value(digits) <= usize::MAX {
        Some(decimal_value(digits) as usize)
    } else {
        None
    }
}

/// The value of a longer sequence of digits is no less than that of one it
/// starts with.
proof fn lemma_decimal_value_grows(digits: Seq<char>, k: int)
    requires
        0 <= k <= digits.len(),
        all_digits(digits),
    ensures
        decimal_value(digits.take(k)) <= decimal_value(digits),
    decreases digits.len() - k,
{
    if k == digits.len() {
        assert(digits.take(k) =~= digits);
    } else {
        lemma_decimal_value_grows(digits, k + 1);
        assert(digits.take(k + 1).drop_last() =~= digits.take(k));
        assert(digits.take(k + 1).last() == digits[k]);
    }
}

/// Reads a number in decimal notation: see `parsed_number`.
pub fn parse_number(s: &str) -> (r: Option<usize>)
    ensures
        r == parsed_number(s@),
{
    let chars: Vec<char> = chars_of(s);
    let n: usize = chars.len();
    let first: usize = if n > 0 && chars[0] == '+' {
        1
    } else {
        0
    };
    if first == n {
        return None;
    }
    let ghost digits = unsigned_part(s@);
    assert(digits =~= s@.skip(first as int));
    let mut value: usize = 0;
    let mut i: usize = first;
    assert(digits.take(0) =~= Seq::<char>::empty());
    while i < n
        invariant
            chars@ == s@,
            n == chars@.len(),
            first <= i <= n,
            first < n,
            digits == s@.skip(first as int),
            digits == unsigned_part(s@),
            all_digits(digits.take(i - first)),
            value == decimal_value(digits.take(i - first)),
        decreases n - i,
    {
        let c: char = chars[i];
        assert(c == digits[i - first]);
        let v: u32 = c as u32;
        if v < 0x30 || v > 0x39 {
            assert(!is_digit(digits[i - first]));
            return None;
        }
        let d: usize = (v - 0x30) as usize;
        proof {
            let longer = digits.take(i - first + 1);
            assert(longer.drop_last() =~= digits.take(i - first));
            assert(longer.last() == digits[i - first]);
            assert forall|j: int| 0 <= j < longer.len() implies is_digit(#[trigger] longer[j]) by {
                if j < i - first {
                    assert(longer[j] == digits.take(i - first)[j]);
                }
            }
        }
        if value > (usize::MAX - d) / 10 {
            proof {
                assert(decimal_value(digits.take(i - first + 1)) > usize::MAX);
                if all_digits(digits) {
                    lemma_decimal_value_grows(digits, i - first + 1);
                }
            }
            return None;
        }
        value = value * 10 + d;
        i = i + 1;
    }
    assert(digits.take(n - first) =~= digits);
    Some(value)
}

} // verus!
