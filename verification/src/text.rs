//! Text building blocks: decimal numbers, searching, splitting, letter case.

use vstd::prelude::*;

verus! {

/// `String::push` appends the character at the end.
pub assume_specification[ String::push ](s: &mut String, c: char)
    ensures
        final(s)@ == old(s)@.push(c),
;

/// The character that stands for the digit `d`.
pub open spec fn digit_char(d: int) -> char {
    ('0' as int + d) as char
}

/// The decimal notation of a natural number, without leading zeros.
pub open spec fn decimal_nat(n: nat) -> Seq<char>
    decreases n,
{
    if n < 10 {
        seq![digit_char(n as int)]
    } else {
        decimal_nat(n / 10).push(digit_char((n % 10) as int))
    }
}

/// The decimal notation of an integer, with a leading `-` where it is negative.
pub open spec fn decimal(n: int) -> Seq<char> {
    if n < 0 {
        seq!['-'] + decimal_nat((-n) as nat)
    } else {
        decimal_nat(n as nat)
    }
}

/// The digit `d` as a character.
fn digit(d: u64) -> (c: char)
    requires
        d < 10,
    ensures
        c == digit_char(d as int),
{
    let code: u8 = 48 + d as u8;
    code as char
}

/// Appends the decimal notation of `n` to `out`.
pub fn push_decimal(out: &mut String, n: u64)
    ensures
        final(out)@ == old(out)@ + decimal_nat(n as nat),
    decreases n,
{
    if n >= 10 {
        push_decimal(out, n / 10);
    }
    out.push(digit(n % 10));
}

/// The decimal notation of `n`.
pub fn decimal_string(n: i64) -> (res: String)
    ensures
        res@ == decimal(n as int),
{
    let mut out = String::new();
    if n < 0 {
        out.push('-');
        let size: u64 = if n == i64::MIN { 9223372036854775808 } else { (-n) as u64 };
        push_decimal(&mut out, size);
    } else {
        push_decimal(&mut out, n as u64);
    }
    out
}

/// The characters of `s`, one by one.
pub fn characters(s: &str) -> (res: Vec<char>)
    ensures
        res@ == s@,
{
    let mut res: Vec<char> = Vec::new();
    for c in it: s.chars()
        invariant
            res@ == it.seq().take(it.index() as int),
            it.seq() == s@,
    {
        res.push(c);
    }
    res
}

/// Whether `needle` stands somewhere in `hay`, without a gap.
pub open spec fn has_substring(hay: Seq<char>, needle: Seq<char>) -> bool {
    exists|i: int|
        0 <= i <= hay.len() - needle.len() && #[trigger] hay.subrange(i, i + needle.len())
            == needle
}

/// Whether `needle` stands in `hay` from position `at` on.
fn matches_at(hay: &Vec<char>, needle: &Vec<char>, at: usize) -> (res: bool)
    requires
        at + needle@.len() <= hay@.len(),
    ensures
        res == (hay@.subrange(at as int, at + needle@.len()) == needle@),
{
    let total: usize = hay.len();
    let mut k: usize = 0;
    while k < needle.len()
        invariant
            k <= needle@.len(),
            total == hay@.len(),
            at + needle@.len() <= total,
            forall|j: int| 0 <= j < k ==> hay@[at + j] == needle@[j],
        decreases needle@.len() - k,
    {
        if hay[at + k] != needle[k] {
            assert(hay@.subrange(at as int, at + needle@.len())[k as int] != needle@[k as int]);
            return false;
        }
        k += 1;
    }
    assert(hay@.subrange(at as int, at + needle@.len()) =~= needle@);
    true
}

/// Whether `needle` stands somewhere in `hay`.
pub fn contains(hay: &str, needle: &str) -> (res: bool)
    ensures
        res == has_substring(hay@, needle@),
{
    let h = characters(hay);
    let n = characters(needle);
    if n.len() > h.len() {
        return false;
    }
    let last: usize = h.len() - n.len();
    let mut i: usize = 0;
    while i <= last
        invariant
            h@ == hay@,
            n@ == needle@,
            last == h@.len() - n@.len(),
            i <= last + 1,
            forall|j: int| 0 <= j < i ==> #[trigger] h@.subrange(j, j + n@.len()) != n@,
        decreases last + 1 - i,
    {
        if matches_at(&h, &n, i) {
            return true;
        }
        if i == last {
            return false;
        }
        i += 1;
    }
    false
}

/// `key` and `value` are the parts of `s` before and after its first `sep`. Where
/// `s` holds no `sep`, all of it is the key and the value is empty.
pub open spec fn is_split(s: Seq<char>, sep: char, key: Seq<char>, value: Seq<char>) -> bool {
    &&& !key.contains(sep)
    &&& if s.contains(sep) {
        s == key.push(sep) + value
    } else {
        s == key && value.len() == 0
    }
}

/// A text has one split only.
pub proof fn law_split_unique(
    s: Seq<char>,
    sep: char,
    key1: Seq<char>,
    value1: Seq<char>,
    key2: Seq<char>,
    value2: Seq<char>,
)
    requires
        is_split(s, sep, key1, value1),
        is_split(s, sep, key2, value2),
    ensures
        key1 == key2,
        value1 == value2,
{
    if s.contains(sep) {
        assert(s[key1.len() as int] == sep);
        assert(s[key2.len() as int] == sep);
        if key1.len() < key2.len() {
            assert(key2[key1.len() as int] == s[key1.len() as int]);
            assert(key2.contains(sep));
        }
        if key2.len() < key1.len() {
            assert(key1[key2.len() as int] == s[key2.len() as int]);
            assert(key1.contains(sep));
        }
        assert(key1 =~= s.take(key1.len() as int));
        assert(key2 =~= s.take(key2.len() as int));
        assert(value1 =~= s.skip(key1.len() as int + 1));
        assert(value2 =~= s.skip(key2.len() as int + 1));
    } else {
        assert(value1 =~= value2);
    }
}

/// Splits `s` at its first `sep`.
pub fn split_first(s: &str, sep: char) -> (res: (String, String))
    ensures
        is_split(s@, sep, res.0@, res.1@),
{
    let mut key = String::new();
    let mut value = String::new();
    let mut found = false;
    for c in it: s.chars()
        invariant
            it.seq() == s@,
            !key@.contains(sep),
            found ==> s@.take(it.index() as int) == key@.push(sep) + value@,
            !found ==> s@.take(it.index() as int) == key@ && value@.len() == 0,
    {
        let ghost seen = s@.take(it.index() as int);
        if found {
            value.push(c);
            assert(seen.push(c) =~= key@.push(sep) + value@);
        } else if c == sep {
            found = true;
            assert(seen.push(c) =~= key@.push(sep) + value@);
        } else {
            let ghost before = key@;
            key.push(c);
            assert forall|i: int| 0 <= i < key@.len() implies key@[i] != sep by {
                if i < before.len() {
                    assert(before.contains(before[i]));
                }
            }
        }
        assert(s@.take(it.index() as int + 1) =~= seen.push(c));
    }
    proof {
        assert(s@.take(s@.len() as int) =~= s@);
        if found {
            assert(s@[key@.len() as int] == sep);
        }
    }
    (key, value)
}

/// The ASCII lower case of one character: `A` to `Z` become `a` to `z`, every
/// other character stays.
pub open spec fn ascii_lower(c: char) -> char {
    if 'A' <= c <= 'Z' {
        (c as int + 32) as char
    } else {
        c
    }
}

/// The ASCII lower case of `s`, character by character.
pub fn to_ascii_lowercase(s: &str) -> (res: String)
    ensures
        res@ == s@.map_values(|c: char| ascii_lower(c)),
{
    let mut res = String::new();
    for c in it: s.chars()
        invariant
            it.seq() == s@,
            res@ == s@.take(it.index() as int).map_values(|c: char| ascii_lower(c)),
    {
        let ghost seen = s@.take(it.index() as int);
        let lower = if 'A' <= c && c <= 'Z' {
            let code: u8 = c as u8 + 32;
            code as char
        } else {
            c
        };
        res.push(lower);
        assert(s@.take(it.index() as int + 1) =~= seen.push(c));
        assert(res@ =~= seen.push(c).map_values(|c: char| ascii_lower(c)));
    }
    assert(s@.take(s@.len() as int) =~= s@);
    res
}

} // verus!
