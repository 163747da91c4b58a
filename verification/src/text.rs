//! Character-level helpers shared by the rest of the library.
//!
//! Every string is modelled by its sequence of characters. The predicates here
//! are the vocabulary in which the other modules state what they parse and
//! what they build.

use vstd::prelude::*;
use vstd::string::*;

verus! {

/// One of the ten ASCII decimal digits.
pub open spec fn is_digit(c: char) -> bool {
    '0' <= c && c <= '9'
}

/// Every character of `s` is an ASCII decimal digit (true of the empty sequence).
pub open spec fn all_digits(s: Seq<char>) -> bool {
    forall|i: int| 0 <= i < s.len() ==> is_digit(#[trigger] s[i])
}

/// The white space of Unicode: the characters that the standard library
/// trims and splits at.
pub open spec fn is_space(c: char) -> bool {
    let n = c as u32;
    (0x09 <= n && n <= 0x0D) || n == 0x20 || n == 0x85 || n == 0xA0 || n == 0x1680 || (0x2000 <= n
        && n <= 0x200A) || n == 0x2028 || n == 0x2029 || n == 0x202F || n == 0x205F || n == 0x3000
}

/// ASCII case folding of one character: `A`..`Z` go to `a`..`z`, everything
/// else is left as it is.
pub open spec fn lower_char(c: char) -> char {
    if 'A' <= c && c <= 'Z' {
        ((c as u8) + 32u8) as char
    } else {
        c
    }
}

/// ASCII case folding of a whole sequence, character by character.
pub open spec fn lower(s: Seq<char>) -> Seq<char> {
    Seq::new(s.len(), |i: int| lower_char(s[i]))
}

/// `pat` stands in `text` starting at index `i`.
pub open spec fn occurs_at(text: Seq<char>, pat: Seq<char>, i: int) -> bool {
    0 <= i && i + pat.len() <= text.len() && text.subrange(i, i + pat.len()) == pat
}

/// `pat` stands somewhere in `text`. The empty pattern stands in every text.
pub open spec fn contains(text: Seq<char>, pat: Seq<char>) -> bool {
    exists|i: int| occurs_at(text, pat, i)
}

/// `text` begins with `pat`.
pub open spec fn starts_with(text: Seq<char>, pat: Seq<char>) -> bool {
    occurs_at(text, pat, 0)
}

/// Index of the last occurrence of `c` in `s`, or -1 when there is none.
pub open spec fn last_index_of(s: Seq<char>, c: char) -> int
    decreases s.len(),
{
    if s.len() == 0 {
        -1
    } else if s.last() == c {
        s.len() - 1
    } else {
        last_index_of(s.drop_last(), c)
    }
}

/// Index of the first occurrence of `c` in `s`, or -1 when there is none.
pub open spec fn first_index_of(s: Seq<char>, c: char) -> int
    decreases s.len(),
{
    if s.len() == 0 {
        -1
    } else if s[0] == c {
        0
    } else {
        let rest = first_index_of(s.drop_first(), c);
        if rest < 0 {
            -1
        } else {
            rest + 1
        }
    }
}

/// Number of digits at the end of `s`: the length of its longest all-digit suffix.
pub open spec fn trailing_digits(s: Seq<char>) -> nat
    decreases s.len(),
{
    if s.len() == 0 || !is_digit(s.last()) {
        0
    } else {
        1 + trailing_digits(s.drop_last())
    }
}

/// Decimal digit for a value below ten.
pub open spec fn digit_char(d: nat) -> char
    recommends
        d < 10,
{
    ((48 + d) as u8) as char
}

/// Decimal notation of `n`, without sign or leading zeros.
pub open spec fn decimal(n: nat) -> Seq<char>
    decreases n,
{
    if n < 10 {
        seq![digit_char(n)]
    } else {
        decimal(n / 10).push(digit_char(n % 10))
    }
}

/// The pieces of `s` between occurrences of `sep`; always at least one piece.
pub open spec fn split(s: Seq<char>, sep: char) -> Seq<Seq<char>>
    decreases s.len(),
{
    let i = first_index_of(s, sep);
    if i < 0 || i >= s.len() {
        seq![s]
    } else {
        seq![s.subrange(0, i)] + split(s.subrange(i + 1, s.len() as int), sep)
    }
}

/// The pieces `parts` joined with `sep` between each two neighbours.
pub open spec fn join(parts: Seq<Seq<char>>, sep: Seq<char>) -> Seq<char>
    decreases parts.len(),
{
    if parts.len() == 0 {
        Seq::empty()
    } else if parts.len() == 1 {
        parts[0]
    } else {
        join(parts.drop_last(), sep) + sep + parts.last()
    }
}

/// `s` without the white space at its end.
pub open spec fn trim_end(s: Seq<char>) -> Seq<char>
    decreases s.len(),
{
    if s.len() == 0 || !is_space(s.last()) {
        s
    } else {
        trim_end(s.drop_last())
    }
}

/// `s` without the white space at its start.
pub open spec fn trim_start(s: Seq<char>) -> Seq<char>
    decreases s.len(),
{
    if s.len() == 0 || !is_space(s[0]) {
        s
    } else {
        trim_start(s.drop_first())
    }
}

/// `s` without the white space at either end.
pub open spec fn trim(s: Seq<char>) -> Seq<char> {
    trim_end(trim_start(s))
}

/// Where `c` last occurs, nothing after it is `c`; where it does not occur,
/// the index is -1.
pub proof fn lemma_last_index_of(s: Seq<char>, c: char)
    ensures
        -1 <= last_index_of(s, c) < s.len(),
        last_index_of(s, c) >= 0 ==> s[last_index_of(s, c)] == c,
        forall|j: int| last_index_of(s, c) < j < s.len() ==> s[j] != c,
    decreases s.len(),
{
    if s.len() > 0 && s.last() != c {
        let front = s.drop_last();
        lemma_last_index_of(front, c);
        assert forall|j: int| last_index_of(s, c) < j < s.len() implies s[j] != c by {
            if j < front.len() {
                assert(s[j] == front[j]);
            }
        }
    }
}

/// Where `c` first occurs, nothing before it is `c`; where it does not occur,
/// the index is -1.
pub proof fn lemma_first_index_of(s: Seq<char>, c: char)
    ensures
        -1 <= first_index_of(s, c) < s.len(),
        first_index_of(s, c) >= 0 ==> s[first_index_of(s, c)] == c,
        forall|j: int| 0 <= j < s.len() && (first_index_of(s, c) < 0 || j < first_index_of(s, c)) ==> s[j] != c,
    decreases s.len(),
{
    if s.len() > 0 && s[0] != c {
        let rest = s.drop_first();
        lemma_first_index_of(rest, c);
        assert forall|j: int| 0 <= j < s.len() && (first_index_of(s, c) < 0 || j < first_index_of(
            s,
            c,
        )) implies s[j] != c by {
            if j > 0 {
                assert(s[j] == rest[j - 1]);
            }
        }
    }
}

/// The run of digits at the end of `s` is made of digits, and the character
/// before it, if there is one, is none.
pub proof fn lemma_trailing_digits(s: Seq<char>)
    ensures
        trailing_digits(s) <= s.len(),
        forall|j: int| s.len() - trailing_digits(s) <= j < s.len() ==> is_digit(#[trigger] s[j]),
        trailing_digits(s) < s.len() ==> !is_digit(s[s.len() - trailing_digits(s) - 1]),
    decreases s.len(),
{
    if s.len() > 0 && is_digit(s.last()) {
        let front = s.drop_last();
        lemma_trailing_digits(front);
        assert forall|j: int| s.len() - trailing_digits(s) <= j < s.len() implies is_digit(
            #[trigger] s[j],
        ) by {
            if j < front.len() {
                assert(s[j] == front[j]);
            }
        }
        if trailing_digits(s) < s.len() {
            assert(s[s.len() - trailing_digits(s) - 1] == front[front.len() - trailing_digits(
                front,
            ) - 1]);
        }
    }
}

/// The ASCII lower-case form of one character.
pub fn to_lower_char(c: char) -> (r: char)
    ensures
        r == lower_char(c),
{
    if 'A' <= c && c <= 'Z' {
        let b: u8 = c as u8;
        (b + 32u8) as char
    } else {
        c
    }
}

/// Whether `c` is an ASCII decimal digit.
pub fn char_is_digit(c: char) -> (r: bool)
    ensures
        r == is_digit(c),
{
    '0' <= c && c <= '9'
}

/// Whether `c` is white space.
pub fn char_is_space(c: char) -> (r: bool)
    ensures
        r == is_space(c),
{
    let n: u32 = c as u32;
    (0x09 <= n && n <= 0x0D) || n == 0x20 || n == 0x85 || n == 0xA0 || n == 0x1680 || (0x2000 <= n
        && n <= 0x200A) || n == 0x2028 || n == 0x2029 || n == 0x202F || n == 0x205F || n == 0x3000
}

/// The characters of `s`, in order.
pub fn to_chars(s: &str) -> (v: Vec<char>)
    ensures
        v@ == s@,
{
    let mut v: Vec<char> = Vec::new();
    for c in it: s.chars()
        invariant
            v@ == it.seq().take(it.index()),
    {
        v.push(c);
    }
    v
}

/// The characters of `s` from index `from` up to, not including, index `to`.
pub fn substring(s: &str, from: usize, to: usize) -> (r: String)
    requires
        from <= to <= s@.len(),
    ensures
        r@ == s@.subrange(from as int, to as int),
{
    String::from_str(s.substring_char(from, to))
}

/// The characters of `s`, each folded to ASCII lower case.
pub fn lowered(s: &str) -> (v: Vec<char>)
    ensures
        v@ == lower(s@),
{
    let chars = to_chars(s);
    let mut v: Vec<char> = Vec::new();
    let mut i: usize = 0;
    while i < chars.len()
        invariant
            i <= chars.len(),
            v.len() == i,
            forall|k: int| 0 <= k < i ==> v[k] == lower_char(#[trigger] chars[k]),
        decreases chars.len() - i,
    {
        v.push(to_lower_char(chars[i]));
        i = i + 1;
    }
    assert(v@ =~= lower(chars@));
    v
}

/// Whether the characters `a` spell the string `b`.
pub fn chars_equal(a: &Vec<char>, b: &str) -> (r: bool)
    ensures
        r == (a@ == b@),
{
    let other = to_chars(b);
    if a.len() != other.len() {
        return false;
    }
    let mut i: usize = 0;
    while i < a.len()
        invariant
            i <= a.len(),
            a.len() == other.len(),
            other@ == b@,
            forall|k: int| 0 <= k < i ==> a[k] == other[k],
        decreases a.len() - i,
    {
        if a[i] != other[i] {
            assert(a@[i as int] != other@[i as int]);
            return false;
        }
        i = i + 1;
    }
    assert(a@ =~= other@);
    true
}

/// Whether `a` and `b` are the same string.
pub fn str_equal(a: &str, b: &str) -> (r: bool)
    ensures
        r == (a@ == b@),
{
    let chars = to_chars(a);
    chars_equal(&chars, b)
}

/// Whether `pat` stands in `text` at index `i`.
pub fn occurs_at_index(text: &Vec<char>, pat: &Vec<char>, i: usize) -> (r: bool)
    ensures
        r == occurs_at(text@, pat@, i as int),
{
    if pat.len() > text.len() || i > text.len() - pat.len() {
        return false;
    }
    let mut k: usize = 0;
    while k < pat.len()
        invariant
            k <= pat.len(),
            i + pat.len() <= text.len(),
            forall|j: int| 0 <= j < k ==> text[i + j] == pat[j],
        decreases pat.len() - k,
    {
        if text[i + k] != pat[k] {
            assert(text@.subrange(i as int, i + pat.len())[k as int] != pat@[k as int]);
            return false;
        }
        k = k + 1;
    }
    assert(text@.subrange(i as int, i + pat.len()) =~= pat@);
    true
}

/// Whether `pat` stands somewhere in `text`.
pub fn chars_contain(text: &Vec<char>, pat: &Vec<char>) -> (r: bool)
    ensures
        r == contains(text@, pat@),
{
    if pat.len() > text.len() {
        return false;
    }
    let last: usize = text.len() - pat.len();
    let mut i: usize = 0;
    loop
        invariant
            i <= last,
            last == text.len() - pat.len(),
            forall|j: int| 0 <= j < i ==> !occurs_at(text@, pat@, j),
        decreases last - i,
    {
        if occurs_at_index(text, pat, i) {
            return true;
        }
        if i == last {
            return false;
        }
        i = i + 1;
    }
}

/// Whether the string `pat` stands somewhere in the characters `text`.
pub fn chars_contain_str(text: &Vec<char>, pat: &str) -> (r: bool)
    ensures
        r == contains(text@, pat@),
{
    let p = to_chars(pat);
    chars_contain(text, &p)
}

/// Whether `pat` stands somewhere in `text`.
pub fn str_contains(text: &str, pat: &str) -> (r: bool)
    ensures
        r == contains(text@, pat@),
{
    let t = to_chars(text);
    chars_contain_str(&t, pat)
}

/// Whether `text` begins with `pat`.
pub fn chars_start_with(text: &Vec<char>, pat: &str) -> (r: bool)
    ensures
        r == starts_with(text@, pat@),
{
    let p = to_chars(pat);
    occurs_at_index(text, &p, 0)
}

/// Index of the last occurrence of `c` in `v`.
pub fn chars_last_index_of(v: &Vec<char>, c: char) -> (r: Option<usize>)
    ensures
        r is None <==> last_index_of(v@, c) < 0,
        r is Some ==> r->0 == last_index_of(v@, c) && r->0 < v.len(),
{
    let mut i: usize = v.len();
    assert(v@.take(i as int) =~= v@);
    while i > 0 && v[i - 1] != c
        invariant
            i <= v.len(),
            last_index_of(v@, c) == last_index_of(v@.take(i as int), c),
        decreases i,
    {
        assert(v@.take(i as int).drop_last() =~= v@.take(i - 1));
        i = i - 1;
    }
    if i > 0 {
        Some(i - 1)
    } else {
        None
    }
}

/// Number of digits at the end of `v`.
pub fn chars_trailing_digits(v: &Vec<char>) -> (r: usize)
    ensures
        r == trailing_digits(v@),
        r <= v.len(),
{
    let mut i: usize = v.len();
    assert(v@.take(i as int) =~= v@);
    while i > 0 && char_is_digit(v[i - 1])
        invariant
            i <= v.len(),
            trailing_digits(v@) == trailing_digits(v@.take(i as int)) + (v.len() - i),
        decreases i,
    {
        assert(v@.take(i as int).drop_last() =~= v@.take(i - 1));
        i = i - 1;
    }
    v.len() - i
}

/// Whether every character of `s` is an ASCII decimal digit.
pub fn chars_all_digits(s: &Vec<char>) -> (r: bool)
    ensures
        r == all_digits(s@),
{
    let mut i: usize = 0;
    while i < s.len()
        invariant
            i <= s.len(),
            forall|k: int| 0 <= k < i ==> is_digit(#[trigger] s[k]),
        decreases s.len() - i,
    {
        if !char_is_digit(s[i]) {
            return false;
        }
        i = i + 1;
    }
    true
}

/// The views of the strings `items`, in order.
pub open spec fn views(items: Seq<&str>) -> Seq<Seq<char>> {
    Seq::new(items.len(), |i: int| items[i]@)
}

/// Owned copies of the strings `items`, in order.
pub fn strings(items: &[&str]) -> (r: Vec<String>)
    ensures
        r.deep_view() == views(items@),
{
    let mut r: Vec<String> = Vec::new();
    let mut i: usize = 0;
    while i < items.len()
        invariant
            i <= items.len(),
            r.len() == i,
            forall|k: int| 0 <= k < i ==> r[k]@ == items[k]@,
        decreases items.len() - i,
    {
        r.push(String::from_str(items[i]));
        i = i + 1;
    }
    assert(r.deep_view() =~= views(items@));
    r
}

/// `a` followed by `b`.
pub fn concat2(a: &str, b: &str) -> (r: String)
    ensures
        r@ == a@ + b@,
{
    String::from_str(a).concat(b)
}

/// `a`, `b` and `c` one after the other.
pub fn concat3(a: &str, b: &str, c: &str) -> (r: String)
    ensures
        r@ == a@ + b@ + c@,
{
    String::from_str(a).concat(b).concat(c)
}

/// The digit for a value below ten, as a string.
fn digit_string(d: u64) -> (r: &'static str)
    requires
        d < 10,
    ensures
        r@ == seq![digit_char(d as nat)],
{
    proof {
        reveal_strlit("0");
        reveal_strlit("1");
        reveal_strlit("2");
        reveal_strlit("3");
        reveal_strlit("4");
        reveal_strlit("5");
        reveal_strlit("6");
        reveal_strlit("7");
        reveal_strlit("8");
        reveal_strlit("9");
    }
    let r = if d == 0 {
        "0"
    } else if d == 1 {
        "1"
    } else if d == 2 {
        "2"
    } else if d == 3 {
        "3"
    } else if d == 4 {
        "4"
    } else if d == 5 {
        "5"
    } else if d == 6 {
        "6"
    } else if d == 7 {
        "7"
    } else if d == 8 {
        "8"
    } else {
        "9"
    };
    assert(r@ =~= seq![digit_char(d as nat)]);
    r
}

/// The decimal notation of `n`.
pub fn decimal_string(n: u64) -> (s: String)
    ensures
        s@ == decimal(n as nat),
    decreases n,
{
    if n < 10 {
        String::from_str(digit_string(n))
    } else {
        let front = decimal_string(n / 10);
        let s = front.concat(digit_string(n % 10));
        assert(s@ =~= decimal((n / 10) as nat).push(digit_char((n % 10) as nat)));
        s
    }
}

/// The lower-case form that the standard library gives to a string, by the
/// case mapping of Unicode.
pub uninterp spec fn lowercase_of(s: Seq<char>) -> Seq<char>;

/// `str::to_lowercase`: the result is a function of the text alone, named
/// [`lowercase_of`]; nothing more is claimed of it.
#[verifier::external_body]
pub(crate) fn lowercase(s: &str) -> (r: String)
    ensures
        r@ == lowercase_of(s@),
{
    s.to_lowercase()
}

/// The strings `parts` joined with `sep` between each two neighbours.
pub fn join_all(parts: &Vec<String>, sep: &str) -> (r: String)
    ensures
        r@ == join(parts.deep_view(), sep@),
{
    let mut r = String::new();
    let mut i: usize = 0;
    assert(parts.deep_view().take(0) =~= Seq::<Seq<char>>::empty());
    while i < parts.len()
        invariant
            i <= parts.len(),
            r@ == join(parts.deep_view().take(i as int), sep@),
        decreases parts.len() - i,
    {
        let ghost before = parts.deep_view().take(i as int);
        let ghost now = parts.deep_view().take(i + 1);
        assert(now.drop_last() =~= before);
        assert(now.last() == parts[i as int]@);
        if i > 0 {
            r.append(sep);
        }
        r.append(parts[i].as_str());
        proof {
            if i == 0 {
                assert(r@ =~= parts[0]@);
            }
        }
        i = i + 1;
    }
    assert(parts.deep_view().take(i as int) =~= parts.deep_view());
    r
}

/// The characters `v` without the white space at either end, as indices:
/// the result is `v[from..to]`.
pub fn trim_bounds(v: &Vec<char>) -> (r: (usize, usize))
    ensures
        r.0 <= r.1 <= v.len(),
        v@.subrange(r.0 as int, r.1 as int) == trim(v@),
{
    let mut from: usize = 0;
    assert(v@.skip(0) =~= v@);
    while from < v.len() && char_is_space(v[from])
        invariant
            from <= v.len(),
            trim_start(v@) == trim_start(v@.skip(from as int)),
        decreases v.len() - from,
    {
        assert(v@.skip(from as int).drop_first() =~= v@.skip(from + 1));
        from = from + 1;
    }
    let ghost rest = v@.skip(from as int);
    assert(trim_start(v@) == rest);
    let mut to: usize = v.len();
    assert(v@.subrange(from as int, to as int) =~= rest);
    while to > from && char_is_space(v[to - 1])
        invariant
            from <= to <= v.len(),
            trim_end(rest) == trim_end(v@.subrange(from as int, to as int)),
        decreases to,
    {
        assert(v@.subrange(from as int, to as int).drop_last() =~= v@.subrange(
            from as int,
            to - 1,
        ));
        to = to - 1;
    }
    (from, to)
}

/// `s` without the white space at either end.
pub fn trimmed(s: &str) -> (r: String)
    ensures
        r@ == trim(s@),
{
    let chars = to_chars(s);
    let (from, to) = trim_bounds(&chars);
    substring(s, from, to)
}

/// `s` without the white space at its end.
pub fn trimmed_end(s: &str) -> (r: String)
    ensures
        r@ == trim_end(s@),
{
    let chars = to_chars(s);
    let mut to: usize = chars.len();
    assert(chars@.subrange(0, to as int) =~= chars@);
    while to > 0 && char_is_space(chars[to - 1])
        invariant
            to <= chars.len(),
            trim_end(chars@) == trim_end(chars@.subrange(0, to as int)),
        decreases to,
    {
        assert(chars@.subrange(0, to as int).drop_last() =~= chars@.subrange(0, to - 1));
        to = to - 1;
    }
    substring(s, 0, to)
}

/// The pieces of `s` between occurrences of `sep`.
pub fn split_on(s: &str, sep: char) -> (r: Vec<String>)
    ensures
        r.deep_view() == split(s@, sep),
{
    let chars = to_chars(s);
    assert(chars@.skip(0) =~= s@);
    split_chars(s, &chars, 0, sep)
}

/// The pieces of `s` from index `from` on between occurrences of `sep`;
/// `v` holds the characters of `s`.
fn split_chars(s: &str, v: &Vec<char>, from: usize, sep: char) -> (r: Vec<String>)
    requires
        v@ == s@,
        from <= v.len(),
    ensures
        r.deep_view() == split(v@.skip(from as int), sep),
    decreases v.len() - from,
{
    let ghost rest = v@.skip(from as int);
    let mut i: usize = from;
    while i < v.len() && v[i] != sep
        invariant
            from <= i <= v.len(),
            forall|k: int| from <= k < i ==> v[k] != sep,
        decreases v.len() - i,
    {
        i = i + 1;
    }
    proof {
        lemma_first_index_of(rest, sep);
        let found = first_index_of(rest, sep);
        if i < v.len() {
            assert(rest[i - from] == sep);
            if 0 <= found < i - from {
                assert(rest[found] == v[from + found]);
            }
            assert(found == i - from);
        } else {
            if found >= 0 {
                assert(rest[found] == v[from + found]);
            }
            assert(found < 0);
        }
    }
    let piece = substring(s, from, i);
    assert(piece@ =~= rest.subrange(0, i - from));
    if i < v.len() {
        let mut more = split_chars(s, v, i + 1, sep);
        assert(rest.subrange(i - from + 1, rest.len() as int) =~= v@.skip(i + 1));
        let ghost tail = more.deep_view();
        let mut r: Vec<String> = Vec::new();
        r.push(piece);
        r.append(&mut more);
        assert(r.deep_view() =~= seq![rest.subrange(0, i - from)] + tail);
        r
    } else {
        assert(rest.subrange(0, i - from) =~= rest);
        let mut r: Vec<String> = Vec::new();
        r.push(piece);
        assert(r.deep_view() =~= seq![rest]);
        r
    }
}

/// `line` without one carriage return at its end.
pub open spec fn strip_cr(line: Seq<char>) -> Seq<char> {
    if line.len() > 0 && line.last() == '\r' {
        line.drop_last()
    } else {
        line
    }
}

/// The lines of `s`. A line ends at a line feed, or at a carriage return
/// followed by one; neither belongs to the line. What follows the last line
/// feed is a line if it is not empty, and is kept as it stands.
pub open spec fn lines(s: Seq<char>) -> Seq<Seq<char>>
    decreases s.len(),
{
    if s.len() == 0 {
        Seq::empty()
    } else {
        let i = first_index_of(s, '\n');
        if i < 0 || i >= s.len() {
            seq![s]
        } else {
            seq![strip_cr(s.subrange(0, i))] + lines(s.subrange(i + 1, s.len() as int))
        }
    }
}

/// `s` with every occurrence of `from` replaced by `to`, found from left to
/// right, each search starting behind the occurrence before.
pub open spec fn replace(s: Seq<char>, from: Seq<char>, to: Seq<char>) -> Seq<char>
    recommends
        from.len() > 0,
    decreases s.len(),
{
    if from.len() == 0 || s.len() < from.len() {
        s
    } else if occurs_at(s, from, 0) {
        to + replace(s.skip(from.len() as int), from, to)
    } else {
        seq![s[0]] + replace(s.skip(1), from, to)
    }
}

/// The lines of `s` from index `from` on; `v` holds the characters of `s`.
fn lines_from(s: &str, v: &Vec<char>, from: usize) -> (r: Vec<String>)
    requires
        v@ == s@,
        from <= v.len(),
    ensures
        r.deep_view() == lines(v@.skip(from as int)),
    decreases v.len() - from,
{
    let ghost rest = v@.skip(from as int);
    let mut r: Vec<String> = Vec::new();
    if from == v.len() {
        assert(r.deep_view() =~= lines(rest));
        return r;
    }
    let mut i: usize = from;
    while i < v.len() && v[i] != '\n'
        invariant
            from <= i <= v.len(),
            forall|k: int| from <= k < i ==> v[k] != '\n',
        decreases v.len() - i,
    {
        i = i + 1;
    }
    proof {
        lemma_first_index_of(rest, '\n');
        let found = first_index_of(rest, '\n');
        if i < v.len() {
            assert(rest[i - from] == '\n');
            if 0 <= found < i - from {
                assert(rest[found] == v[from + found]);
            }
            assert(found == i - from);
        } else {
            if found >= 0 {
                assert(rest[found] == v[from + found]);
            }
            assert(found < 0);
        }
    }
    if i < v.len() {
        let end = if i > from && v[i - 1] == '\r' {
            i - 1
        } else {
            i
        };
        let line = substring(s, from, end);
        assert(line@ =~= strip_cr(rest.subrange(0, i - from))) by {
            let whole = rest.subrange(0, i - from);
            if i > from {
                assert(whole.last() == v[i - 1]);
            }
        }
        let mut more = lines_from(s, v, i + 1);
        assert(rest.subrange(i - from + 1, rest.len() as int) =~= v@.skip(i + 1));
        let ghost tail = more.deep_view();
        r.push(line);
        r.append(&mut more);
        assert(r.deep_view() =~= seq![strip_cr(rest.subrange(0, i - from))] + tail);
        r
    } else {
        let line = substring(s, from, i);
        assert(line@ =~= rest);
        r.push(line);
        assert(r.deep_view() =~= seq![rest]);
        r
    }
}

/// The lines of `s`.
pub fn lines_of(s: &str) -> (r: Vec<String>)
    ensures
        r.deep_view() == lines(s@),
{
    let chars = to_chars(s);
    assert(chars@.skip(0) =~= s@);
    lines_from(s, &chars, 0)
}

/// `s` with every occurrence of `from` replaced by `to`.
pub fn replace_all(s: &str, from: &str, to: &str) -> (r: String)
    requires
        from@.len() > 0,
    ensures
        r@ == replace(s@, from@, to@),
{
    let chars = to_chars(s);
    let pat = to_chars(from);
    let mut out = String::new();
    // what lies between `kept` and `i` is still to be copied
    let mut kept: usize = 0;
    let mut i: usize = 0;
    assert(chars@.skip(0) =~= chars@);
    assert(out@ + chars@.subrange(0, 0) =~= Seq::<char>::empty());
    assert(Seq::<char>::empty() + replace(chars@, pat@, to@) =~= replace(chars@, pat@, to@));
    while i < chars.len()
        invariant
            kept <= i <= chars.len(),
            chars@ == s@,
            pat@ == from@,
            pat@.len() > 0,
            out@ + chars@.subrange(kept as int, i as int) + replace(
                chars@.skip(i as int),
                pat@,
                to@,
            ) == replace(chars@, pat@, to@),
        decreases chars.len() - i,
    {
        let ghost rest = chars@.skip(i as int);
        let ghost before = out@;
        let ghost pending = chars@.subrange(kept as int, i as int);
        if occurs_at_index(&chars, &pat, i) {
            assert(rest.subrange(0, pat@.len() as int) =~= chars@.subrange(
                i as int,
                i + pat@.len(),
            ));
            assert(occurs_at(rest, pat@, 0));
            out.append(s.substring_char(kept, i));
            out.append(to);
            let ghost tail = replace(rest.skip(pat@.len() as int), pat@, to@);
            assert(rest.skip(pat@.len() as int) =~= chars@.skip(i + pat@.len()));
            i = i + pat.len();
            kept = i;
            assert(out@ + chars@.subrange(kept as int, i as int) + tail =~= before + pending + (to@
                + tail));
        } else {
            proof {
                if rest.len() >= pat@.len() {
                    assert(rest.subrange(0, pat@.len() as int) =~= chars@.subrange(
                        i as int,
                        i + pat@.len(),
                    ));
                    assert(!occurs_at(rest, pat@, 0));
                    assert(rest.skip(1) =~= chars@.skip(i + 1));
                    assert(before + chars@.subrange(kept as int, i + 1) + replace(
                        rest.skip(1),
                        pat@,
                        to@,
                    ) =~= before + pending + (seq![rest[0]] + replace(rest.skip(1), pat@, to@)));
                } else {
                    assert(replace(rest, pat@, to@) == rest);
                }
            }
            if chars.len() - i < pat.len() {
                proof {
                    assert(chars@.skip(chars.len() as int) =~= Seq::<char>::empty());
                    assert(replace(Seq::<char>::empty(), pat@, to@) =~= Seq::<char>::empty());
                    assert(before + chars@.subrange(kept as int, chars.len() as int)
                        + Seq::<char>::empty() =~= before + pending + rest);
                }
                i = chars.len();
            } else {
                i = i + 1;
            }
        }
    }
    out.append(s.substring_char(kept, chars.len()));
    proof {
        assert(chars@.skip(chars.len() as int) =~= Seq::<char>::empty());
        assert(replace(Seq::<char>::empty(), pat@, to@) =~= Seq::<char>::empty());
        assert(out@ =~= out@ + Seq::<char>::empty());
    }
    out
}

/// `s` without the white space at its start.
pub fn trimmed_start(s: &str) -> (r: String)
    ensures
        r@ == trim_start(s@),
{
    let chars = to_chars(s);
    let mut from: usize = 0;
    assert(chars@.skip(0) =~= chars@);
    while from < chars.len() && char_is_space(chars[from])
        invariant
            from <= chars.len(),
            trim_start(chars@) == trim_start(chars@.skip(from as int)),
        decreases chars.len() - from,
    {
        assert(chars@.skip(from as int).drop_first() =~= chars@.skip(from + 1));
        from = from + 1;
    }
    let r = substring(s, from, chars.len());
    assert(chars@.subrange(from as int, chars.len() as int) =~= chars@.skip(from as int));
    r
}

/// Whether `text` begins with `pat`.
pub fn str_starts_with(text: &str, pat: &str) -> (r: bool)
    ensures
        r == starts_with(text@, pat@),
{
    let chars = to_chars(text);
    chars_start_with(&chars, pat)
}

/// The strings `v`, borrowed in order.
pub fn borrow_all(v: &Vec<String>) -> (r: Vec<&str>)
    ensures
        views(r@) == v.deep_view(),
{
    let mut r: Vec<&str> = Vec::new();
    let mut i: usize = 0;
    while i < v.len()
        invariant
            i <= v.len(),
            r.len() == i,
            forall|k: int| 0 <= k < i ==> r[k]@ == v[k]@,
        decreases v.len() - i,
    {
        r.push(v[i].as_str());
        i = i + 1;
    }
    assert(views(r@) =~= v.deep_view());
    r
}

/// Index of the first occurrence of `pat` in `text` at or after `from`, or
/// -1 when there is none.
pub open spec fn find_from(text: Seq<char>, pat: Seq<char>, from: int) -> int
    decreases text.len() - from,
{
    if from < 0 || from + pat.len() > text.len() {
        -1
    } else if occurs_at(text, pat, from) {
        from
    } else if from >= text.len() {
        -1
    } else {
        find_from(text, pat, from + 1)
    }
}

/// Index of the first occurrence of `pat` in `text`, or -1 when there is none.
pub open spec fn find(text: Seq<char>, pat: Seq<char>) -> int {
    find_from(text, pat, 0)
}

/// The first run of characters of `s` that are no white space, if there is one.
pub open spec fn first_word(s: Seq<char>) -> Option<Seq<char>> {
    let body = trim_start(s);
    if body.len() == 0 {
        None
    } else {
        Some(body.take(word_length(body)))
    }
}

/// How many characters at the start of `s` are no white space.
pub open spec fn word_length(s: Seq<char>) -> int
    decreases s.len(),
{
    if s.len() == 0 || is_space(s[0]) {
        0
    } else {
        1 + word_length(s.drop_first())
    }
}

/// The number that a run of decimal digits stands for.
pub open spec fn decimal_value(digits: Seq<char>) -> nat
    decreases digits.len(),
{
    if digits.len() == 0 {
        0
    } else {
        decimal_value(digits.drop_last()) * 10 + ((digits.last() as u8) - 48) as nat
    }
}

/// The number that `s` stands for: digits, with a plus sign before them or
/// without, and a value that 64 bits can hold.
pub open spec fn parsed_u64(s: Seq<char>) -> Option<u64> {
    let digits = if s.len() > 0 && s[0] == '+' {
        s.drop_first()
    } else {
        s
    };
    if digits.len() > 0 && all_digits(digits) && decimal_value(digits) <= u64::MAX {
        Some(decimal_value(digits) as u64)
    } else {
        None
    }
}

/// Decimal notation of `n`, with a minus sign for a negative number.
pub open spec fn signed_decimal(n: int) -> Seq<char> {
    if n < 0 {
        "-"@ + decimal((-n) as nat)
    } else {
        decimal(n as nat)
    }
}

/// The value of a run of digits does not shrink when digits are added.
pub proof fn lemma_decimal_value_grows(digits: Seq<char>, k: int)
    requires
        0 <= k <= digits.len(),
        all_digits(digits),
    ensures
        decimal_value(digits.take(k)) <= decimal_value(digits),
    decreases digits.len() - k,
{
    if k < digits.len() {
        lemma_decimal_value_grows(digits, k + 1);
        assert(digits.take(k + 1).drop_last() =~= digits.take(k));
        assert(is_digit(digits[k]));
        assert(digits.take(k + 1).last() == digits[k]);
    } else {
        assert(digits.take(k) =~= digits);
    }
}

/// Index of the first occurrence of `pat` in `text`.
pub fn chars_find(text: &Vec<char>, pat: &Vec<char>) -> (r: Option<usize>)
    ensures
        r is None <==> find(text@, pat@) < 0,
        r is Some ==> r->0 == find(text@, pat@),
{
    if pat.len() > text.len() {
        return None;
    }
    let last: usize = text.len() - pat.len();
    let mut i: usize = 0;
    loop
        invariant
            i <= last,
            last == text.len() - pat.len(),
            find(text@, pat@) == find_from(text@, pat@, i as int),
        decreases last - i,
    {
        if occurs_at_index(text, pat, i) {
            return Some(i);
        }
        if i == last {
            assert(find_from(text@, pat@, i + 1) == -1);
            return None;
        }
        i = i + 1;
    }
}

/// The first word of `v[from..]`, as indices into `v`.
pub fn first_word_bounds(v: &Vec<char>, from: usize) -> (r: Option<(usize, usize)>)
    requires
        from <= v.len(),
    ensures
        match r {
            Some((start, end)) => start <= end <= v.len() && Some(
                v@.subrange(start as int, end as int),
            ) == first_word(v@.skip(from as int)),
            None => first_word(v@.skip(from as int)) is None,
        },
{
    let mut start: usize = from;
    while start < v.len() && char_is_space(v[start])
        invariant
            from <= start <= v.len(),
            trim_start(v@.skip(from as int)) == trim_start(v@.skip(start as int)),
        decreases v.len() - start,
    {
        assert(v@.skip(start as int).drop_first() =~= v@.skip(start + 1));
        start = start + 1;
    }
    let ghost body = v@.skip(start as int);
    assert(trim_start(v@.skip(from as int)) == body);
    if start == v.len() {
        return None;
    }
    let mut end: usize = start;
    assert(body.skip(0) =~= body);
    while end < v.len() && !char_is_space(v[end])
        invariant
            start <= end <= v.len(),
            body == v@.skip(start as int),
            word_length(body) == (end - start) + word_length(v@.skip(end as int)),
        decreases v.len() - end,
    {
        assert(v@.skip(end as int).drop_first() =~= v@.skip(end + 1));
        end = end + 1;
    }
    assert(v@.subrange(start as int, end as int) =~= body.take(end - start));
    Some((start, end))
}

/// The number that `s` stands for, if it stands for one.
pub fn parse_u64(s: &str) -> (r: Option<u64>)
    ensures
        r == parsed_u64(s@),
{
    let chars = to_chars(s);
    let from: usize = if chars.len() > 0 && chars[0] == '+' {
        1
    } else {
        0
    };
    let ghost digits = chars@.skip(from as int);
    assert(digits =~= if s@.len() > 0 && s@[0] == '+' {
        s@.drop_first()
    } else {
        s@
    });
    if from == chars.len() {
        return None;
    }
    let mut value: u64 = 0;
    let mut i: usize = from;
    assert(digits.take(0) =~= Seq::<char>::empty());
    while i < chars.len()
        invariant
            from <= i <= chars.len(),
            digits == chars@.skip(from as int),
            digits.len() > 0,
            digits == if s@.len() > 0 && s@[0] == '+' {
                s@.drop_first()
            } else {
                s@
            },
            all_digits(digits.take(i - from)),
            value == decimal_value(digits.take(i - from)),
        decreases chars.len() - i,
    {
        let c = chars[i];
        let ghost seen = digits.take(i - from);
        let ghost next = digits.take(i - from + 1);
        assert(next.drop_last() =~= seen);
        assert(next.last() == c);
        if !char_is_digit(c) {
            assert(!is_digit(digits[i - from]));
            return None;
        }
        assert(all_digits(next)) by {
            assert forall|k: int| 0 <= k < next.len() implies is_digit(#[trigger] next[k]) by {
                if k < seen.len() {
                    assert(next[k] == seen[k]);
                }
            }
        }
        let d: u64 = (c as u8 - 48) as u64;
        if value > (u64::MAX - d) / 10 {
            proof {
                assert(decimal_value(next) > u64::MAX);
                if all_digits(digits) {
                    lemma_decimal_value_grows(digits, i - from + 1);
                }
            }
            return None;
        }
        value = value * 10 + d;
        i = i + 1;
    }
    assert(digits.take(i - from) =~= digits);
    Some(value)
}

/// The decimal notation of `n`.
pub fn signed_decimal_string(n: i32) -> (s: String)
    ensures
        s@ == signed_decimal(n as int),
{
    if n < 0 {
        let magnitude: u64 = (-(n as i64)) as u64;
        concat2("-", decimal_string(magnitude).as_str())
    } else {
        decimal_string(n as u64)
    }
}

} // verus!
