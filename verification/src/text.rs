//! Character-level string helpers with exact specifications.
//!
//! Strings are handled as sequences of `char` (the view of `String` and
//! `str`); the executable helpers below work on `Vec<char>` and convert at
//! the edges.
use vstd::prelude::*;

verus! {

// ---------------------------------------------------------------------------
// Conversions
// ---------------------------------------------------------------------------

/// Appends one character to a `String` (`String::push`).
///
/// Claims: the new contents are the old contents followed by `c`.
#[verifier::external_body]
pub(crate) fn push_char(s: &mut String, c: char)
    ensures
        final(s)@ == old(s)@.push(c),
{
    s.push(c);
}

/// The characters of a string slice, in order.
pub fn chars_of(s: &str) -> (r: Vec<char>)
    ensures
        r@ == s@,
{
    broadcast use vstd::string::axiom_spec_iter;
    let mut r: Vec<char> = Vec::new();
    for c in it: s.chars()
        invariant
            it.seq() == s@,
            r@ == it.seq().take(it.index() as int),
    {
        r.push(c);
    }
    r
}

/// A `String` holding exactly the given characters.
pub fn string_of(v: &[char]) -> (r: String)
    ensures
        r@ == v@,
{
    let mut r = String::new();
    let mut i: usize = 0;
    while i < v.len()
        invariant
            i <= v.len(),
            r@ == v@.take(i as int),
        decreases v.len() - i,
    {
        push_char(&mut r, v[i]);
        assert(v@.take(i + 1) =~= v@.take(i as int).push(v@[i as int]));
        i = i + 1;
    }
    assert(v@.take(v.len() as int) =~= v@);
    r
}

/// An owned copy of a string slice.
pub fn owned(s: &str) -> (r: String)
    ensures
        r@ == s@,
{
    let v = chars_of(s);
    string_of(&v)
}

/// A copy of `v[from..to]`.
pub fn copy_range(v: &[char], from: usize, to: usize) -> (r: Vec<char>)
    requires
        from <= to <= v.len(),
    ensures
        r@ == v@.subrange(from as int, to as int),
{
    let mut r: Vec<char> = Vec::new();
    let mut i = from;
    while i < to
        invariant
            from <= i <= to <= v.len(),
            r@ == v@.subrange(from as int, i as int),
        decreases to - i,
    {
        r.push(v[i]);
        assert(v@.subrange(from as int, i + 1) =~= v@.subrange(from as int, i as int).push(
            v@[i as int],
        ));
        i = i + 1;
    }
    r
}

/// Appends all of `src` to `dst`.
pub fn push_all(dst: &mut Vec<char>, src: &[char])
    ensures
        final(dst)@ == old(dst)@ + src@,
{
    let ghost start = dst@;
    let mut i: usize = 0;
    while i < src.len()
        invariant
            i <= src.len(),
            dst@ == start + src@.take(i as int),
        decreases src.len() - i,
    {
        dst.push(src[i]);
        assert(start + src@.take(i + 1) =~= (start + src@.take(i as int)).push(src@[i as int]));
        i = i + 1;
    }
    assert(src@.take(src.len() as int) =~= src@);
}

/// `a` followed by `b`.
pub fn concat(a: &[char], b: &[char]) -> (r: Vec<char>)
    ensures
        r@ == a@ + b@,
{
    let mut r: Vec<char> = Vec::new();
    push_all(&mut r, a);
    push_all(&mut r, b);
    assert(Seq::<char>::empty() + a@ + b@ =~= a@ + b@);
    r
}

/// Concatenation of string slices into a `String`.
pub fn join3(a: &str, b: &str, c: &str) -> (r: String)
    ensures
        r@ == a@ + b@ + c@,
{
    let mut v = chars_of(a);
    let vb = chars_of(b);
    let vc = chars_of(c);
    push_all(&mut v, &vb);
    push_all(&mut v, &vc);
    string_of(&v)
}

/// Concatenation of four string slices into a `String`.
pub fn join4(a: &str, b: &str, c: &str, d: &str) -> (r: String)
    ensures
        r@ == a@ + b@ + c@ + d@,
{
    let mut v = chars_of(a);
    let vb = chars_of(b);
    let vc = chars_of(c);
    let vd = chars_of(d);
    push_all(&mut v, &vb);
    push_all(&mut v, &vc);
    push_all(&mut v, &vd);
    string_of(&v)
}

/// Concatenation of two string slices into a `String`.
pub fn join2(a: &str, b: &str) -> (r: String)
    ensures
        r@ == a@ + b@,
{
    let mut v = chars_of(a);
    let vb = chars_of(b);
    push_all(&mut v, &vb);
    string_of(&v)
}

/// Copies an optional string.
pub fn clone_opt(o: &Option<String>) -> (r: Option<String>)
    ensures
        opt_view(r) == opt_view(*o),
{
    match o {
        Some(s) => Some(s.clone()),
        None => None,
    }
}

/// The view of an optional string.
pub open spec fn opt_view(o: Option<String>) -> Option<Seq<char>> {
    match o {
        Some(s) => Some(s@),
        None => None,
    }
}

/// String equality on views.
pub fn str_eq(a: &str, b: &str) -> (r: bool)
    ensures
        r == (a@ == b@),
{
    let va = chars_of(a);
    let vb = chars_of(b);
    seq_eq(&va, &vb)
}

/// Sequence equality of two character slices.
pub fn seq_eq(a: &[char], b: &[char]) -> (r: bool)
    ensures
        r == (a@ == b@),
{
    if a.len() != b.len() {
        return false;
    }
    let mut i: usize = 0;
    while i < a.len()
        invariant
            a.len() == b.len(),
            i <= a.len(),
            forall|k: int| 0 <= k < i ==> a@[k] == b@[k],
        decreases a.len() - i,
    {
        if a[i] != b[i] {
            return false;
        }
        i = i + 1;
    }
    assert(a@ =~= b@);
    true
}

// ---------------------------------------------------------------------------
// Character classes and trimming
// ---------------------------------------------------------------------------

/// Unicode `White_Space` property (the definition used by `char::is_whitespace`
/// and `str::trim`).
pub open spec fn is_ws(c: char) -> bool {
    ||| (c as u32) >= 0x09 && (c as u32) <= 0x0D
    ||| c as u32 == 0x20
    ||| c as u32 == 0x85
    ||| c as u32 == 0xA0
    ||| c as u32 == 0x1680
    ||| (c as u32) >= 0x2000 && (c as u32) <= 0x200A
    ||| c as u32 == 0x2028
    ||| c as u32 == 0x2029
    ||| c as u32 == 0x202F
    ||| c as u32 == 0x205F
    ||| c as u32 == 0x3000
}

/// Executable `is_ws`.
pub fn is_whitespace(c: char) -> (r: bool)
    ensures
        r == is_ws(c),
{
    let u = c as u32;
    (u >= 0x09 && u <= 0x0D) || u == 0x20 || u == 0x85 || u == 0xA0 || u == 0x1680 || (u >= 0x2000
        && u <= 0x200A) || u == 0x2028 || u == 0x2029 || u == 0x202F || u == 0x205F || u == 0x3000
}

/// A set of characters removed by a trimming operation.
#[derive(Clone, Copy, Debug, PartialEq, Eq)]
pub enum CharClass {
    Whitespace,
    Is(char),
}

/// Whether `c` belongs to the class.
pub open spec fn in_class(cls: CharClass, c: char) -> bool {
    match cls {
        CharClass::Whitespace => is_ws(c),
        CharClass::Is(x) => c == x,
    }
}

/// Whether `c` belongs to the class.
pub fn char_in_class(cls: CharClass, c: char) -> (r: bool)
    ensures
        r == in_class(cls, c),
{
    match cls {
        CharClass::Whitespace => is_whitespace(c),
        CharClass::Is(x) => c == x,
    }
}

/// `s` with every leading character of the class removed.
pub open spec fn drop_leading(s: Seq<char>, cls: CharClass) -> Seq<char>
    decreases s.len(),
{
    if s.len() > 0 && in_class(cls, s[0]) {
        drop_leading(s.drop_first(), cls)
    } else {
        s
    }
}

/// `s` with every trailing character of the class removed.
pub open spec fn drop_trailing(s: Seq<char>, cls: CharClass) -> Seq<char>
    decreases s.len(),
{
    if s.len() > 0 && in_class(cls, s.last()) {
        drop_trailing(s.drop_last(), cls)
    } else {
        s
    }
}

/// `str::trim`: leading and trailing whitespace removed.
pub open spec fn trim_ws(s: Seq<char>) -> Seq<char> {
    drop_trailing(drop_leading(s, CharClass::Whitespace), CharClass::Whitespace)
}

proof fn lemma_drop_leading_at(s: Seq<char>, cls: CharClass, i: int)
    requires
        0 <= i <= s.len(),
        forall|k: int| 0 <= k < i ==> in_class(cls, #[trigger] s[k]),
        i == s.len() || !in_class(cls, s[i]),
    ensures
        drop_leading(s, cls) == s.skip(i),
    decreases i,
{
    if i == 0 {
        assert(s.skip(0) =~= s);
    } else {
        let t = s.drop_first();
        assert forall|k: int| 0 <= k < i - 1 implies in_class(cls, #[trigger] t[k]) by {
            assert(t[k] == s[k + 1]);
        }
        lemma_drop_leading_at(t, cls, i - 1);
        assert(t.skip(i - 1) =~= s.skip(i));
    }
}

proof fn lemma_drop_trailing_at(s: Seq<char>, cls: CharClass, j: int)
    requires
        0 <= j <= s.len(),
        forall|k: int| j <= k < s.len() ==> in_class(cls, #[trigger] s[k]),
        j == 0 || !in_class(cls, s[j - 1]),
    ensures
        drop_trailing(s, cls) == s.take(j),
    decreases s.len() - j,
{
    if j == s.len() {
        assert(s.take(j) =~= s);
    } else {
        let t = s.drop_last();
        assert forall|k: int| j <= k < t.len() implies in_class(cls, #[trigger] t[k]) by {
            assert(t[k] == s[k]);
        }
        lemma_drop_trailing_at(t, cls, j);
        assert(t.take(j) =~= s.take(j));
    }
}

/// Index of the first character of `v` outside the class (or `v.len()`).
pub fn leading_len(v: &[char], cls: CharClass) -> (i: usize)
    ensures
        i <= v.len(),
        drop_leading(v@, cls) == v@.skip(i as int),
{
    let mut i: usize = 0;
    while i < v.len() && char_in_class(cls, v[i])
        invariant
            i <= v.len(),
            forall|k: int| 0 <= k < i ==> in_class(cls, #[trigger] v@[k]),
        decreases v.len() - i,
    {
        i = i + 1;
    }
    proof {
        lemma_drop_leading_at(v@, cls, i as int);
    }
    i
}

/// Length of `v` once trailing characters of the class are removed.
pub fn trailing_cut(v: &[char], cls: CharClass) -> (j: usize)
    ensures
        j <= v.len(),
        drop_trailing(v@, cls) == v@.take(j as int),
{
    let mut j: usize = v.len();
    while j > 0 && char_in_class(cls, v[j - 1])
        invariant
            j <= v.len(),
            forall|k: int| j <= k < v.len() ==> in_class(cls, #[trigger] v@[k]),
        decreases j,
    {
        j = j - 1;
    }
    proof {
        lemma_drop_trailing_at(v@, cls, j as int);
    }
    j
}

/// `v` with leading characters of the class removed.
pub fn trim_start_class(v: &[char], cls: CharClass) -> (r: Vec<char>)
    ensures
        r@ == drop_leading(v@, cls),
{
    let i = leading_len(v, cls);
    let r = copy_range(v, i, v.len());
    assert(v@.subrange(i as int, v.len() as int) =~= v@.skip(i as int));
    r
}

/// `v` with trailing characters of the class removed.
pub fn trim_end_class(v: &[char], cls: CharClass) -> (r: Vec<char>)
    ensures
        r@ == drop_trailing(v@, cls),
{
    let j = trailing_cut(v, cls);
    let r = copy_range(v, 0, j);
    assert(v@.subrange(0, j as int) =~= v@.take(j as int));
    r
}

/// `str::trim` on characters.
pub fn trim(v: &[char]) -> (r: Vec<char>)
    ensures
        r@ == trim_ws(v@),
{
    let a = trim_start_class(v, CharClass::Whitespace);
    trim_end_class(&a, CharClass::Whitespace)
}

// ---------------------------------------------------------------------------
// Replacement, search, comparison
// ---------------------------------------------------------------------------

/// `s` with every `from` replaced by `to`.
pub open spec fn replace_char(s: Seq<char>, from: char, to: char) -> Seq<char> {
    s.map_values(|c: char| if c == from { to } else { c })
}

/// Every `from` replaced by `to`.
pub fn replace_char_exec(v: &[char], from: char, to: char) -> (r: Vec<char>)
    ensures
        r@ == replace_char(v@, from, to),
{
    let mut r: Vec<char> = Vec::new();
    let mut i: usize = 0;
    while i < v.len()
        invariant
            i <= v.len(),
            r@ == replace_char(v@.take(i as int), from, to),
        decreases v.len() - i,
    {
        let c = if v[i] == from {
            to
        } else {
            v[i]
        };
        r.push(c);
        assert(replace_char(v@.take(i + 1), from, to) =~= replace_char(v@.take(i as int), from, to).push(c));
        i = i + 1;
    }
    assert(v@.take(v.len() as int) =~= v@);
    r
}

/// `needle` occurs in `hay` starting at position `i`.
pub open spec fn occurs_at(hay: Seq<char>, needle: Seq<char>, i: int) -> bool {
    0 <= i && i + needle.len() <= hay.len() && hay.subrange(i, i + needle.len()) == needle
}

/// `str::contains` for a string pattern.
pub open spec fn contains(hay: Seq<char>, needle: Seq<char>) -> bool {
    exists|i: int| occurs_at(hay, needle, i)
}

/// Whether `needle` occurs in `hay` at `i`.
pub fn occurs_at_exec(hay: &[char], needle: &[char], i: usize) -> (r: bool)
    ensures
        r == occurs_at(hay@, needle@, i as int),
{
    if i > hay.len() || needle.len() > hay.len() - i {
        return false;
    }
    let mut k: usize = 0;
    while k < needle.len()
        invariant
            i + needle.len() <= hay.len(),
            k <= needle.len(),
            forall|m: int| 0 <= m < k ==> hay@[i + m] == needle@[m],
        decreases needle.len() - k,
    {
        if hay[i + k] != needle[k] {
            assert(hay@.subrange(i as int, i + needle.len())[k as int] != needle@[k as int]);
            return false;
        }
        k = k + 1;
    }
    assert(hay@.subrange(i as int, i + needle.len()) =~= needle@);
    true
}

/// Whether `needle` occurs in `hay`.
pub fn contains_exec(hay: &[char], needle: &[char]) -> (r: bool)
    ensures
        r == contains(hay@, needle@),
{
    if needle.len() > hay.len() {
        assert forall|i: int| !occurs_at(hay@, needle@, i) by {}
        return false;
    }
    let last = hay.len() - needle.len();
    let mut i: usize = 0;
    while i < last
        invariant
            last == hay.len() - needle.len(),
            i <= last,
            forall|k: int| 0 <= k < i ==> !occurs_at(hay@, needle@, k),
        decreases last - i,
    {
        if occurs_at_exec(hay, needle, i) {
            return true;
        }
        i = i + 1;
    }
    if occurs_at_exec(hay, needle, last) {
        return true;
    }
    assert forall|k: int| !occurs_at(hay@, needle@, k) by {
        if 0 <= k < i {
        }
    }
    false
}

/// `str::starts_with` for a string pattern.
pub open spec fn starts_with(s: Seq<char>, prefix: Seq<char>) -> bool {
    prefix.len() <= s.len() && s.take(prefix.len() as int) == prefix
}

/// Whether `s` starts with `prefix`.
pub fn starts_with_exec(s: &[char], prefix: &[char]) -> (r: bool)
    ensures
        r == starts_with(s@, prefix@),
{
    let r = occurs_at_exec(s, prefix, 0);
    assert(prefix@.len() <= s@.len() ==> s@.subrange(0, prefix@.len() as int) =~= s@.take(
        prefix@.len() as int,
    ));
    r
}

/// `str::ends_with` for a string pattern.
pub open spec fn ends_with(s: Seq<char>, suffix: Seq<char>) -> bool {
    suffix.len() <= s.len() && s.skip(s.len() - suffix.len()) == suffix
}

/// Whether `s` ends with `suffix`.
pub fn ends_with_exec(s: &[char], suffix: &[char]) -> (r: bool)
    ensures
        r == ends_with(s@, suffix@),
{
    if suffix.len() > s.len() {
        return false;
    }
    let r = occurs_at_exec(s, suffix, s.len() - suffix.len());
    assert(s@.subrange((s.len() - suffix.len()) as int, s.len() as int) =~= s@.skip(
        s.len() - suffix.len(),
    ));
    r
}

/// ASCII lower-casing of one character (`char::to_ascii_lowercase`).
pub open spec fn ascii_lower(c: char) -> char {
    if 'A' <= c && c <= 'Z' {
        ((c as u32) + 32) as char
    } else {
        c
    }
}

/// ASCII lower-casing of one character.
pub fn ascii_lower_exec(c: char) -> (r: char)
    ensures
        r == ascii_lower(c),
{
    if 'A' <= c && c <= 'Z' {
        let b: u8 = (c as u32 + 32) as u8;
        b as char
    } else {
        c
    }
}

/// `str::eq_ignore_ascii_case`, stated on characters: ASCII letters compare
/// without regard to case, every other character must be equal.
pub open spec fn eq_ignore_ascii_case(a: Seq<char>, b: Seq<char>) -> bool {
    a.len() == b.len() && forall|i: int| 0 <= i < a.len() ==> ascii_lower(#[trigger] a[i])
        == ascii_lower(b[i])
}

/// Equality up to ASCII case.
pub fn eq_ignore_ascii_case_exec(a: &[char], b: &[char]) -> (r: bool)
    ensures
        r == eq_ignore_ascii_case(a@, b@),
{
    if a.len() != b.len() {
        return false;
    }
    let mut i: usize = 0;
    while i < a.len()
        invariant
            a.len() == b.len(),
            i <= a.len(),
            forall|k: int| 0 <= k < i ==> ascii_lower(#[trigger] a@[k]) == ascii_lower(b@[k]),
        decreases a.len() - i,
    {
        if ascii_lower_exec(a[i]) != ascii_lower_exec(b[i]) {
            return false;
        }
        i = i + 1;
    }
    true
}

// ---------------------------------------------------------------------------
// Decimal numbers
// ---------------------------------------------------------------------------

/// The character of a decimal digit.
pub open spec fn digit_char(d: nat) -> char
    recommends
        d < 10,
{
    ((d + 48) as u32) as char
}

/// Decimal representation of a natural number, as `u64::to_string` prints it.
pub open spec fn decimal(n: nat) -> Seq<char>
    decreases n,
{
    if n < 10 {
        seq![digit_char(n)]
    } else {
        decimal(n / 10).push(digit_char(n % 10))
    }
}

/// The character of a decimal digit.
pub fn digit_exec(d: u64) -> (c: char)
    requires
        d < 10,
    ensures
        c == digit_char(d as nat),
{
    let b: u8 = (d as u8) + 48;
    b as char
}

/// Decimal representation of `n`.
pub fn decimal_exec(n: u64) -> (r: Vec<char>)
    ensures
        r@ == decimal(n as nat),
    decreases n,
{
    if n < 10 {
        let mut r = Vec::new();
        r.push(digit_exec(n));
        assert(r@ =~= seq![digit_char(n as nat)]);
        r
    } else {
        let mut r = decimal_exec(n / 10);
        r.push(digit_exec(n % 10));
        r
    }
}

/// Decimal representation of `n` as a `String`.
pub fn u64_to_string(n: u64) -> (r: String)
    ensures
        r@ == decimal(n as nat),
{
    let v = decimal_exec(n);
    string_of(&v)
}

/// `decimal(n)` has one character below ten and at least two from ten on.
pub proof fn lemma_decimal_len(n: nat)
    ensures
        decimal(n).len() >= 1,
        n < 10 ==> decimal(n).len() == 1,
        n >= 10 ==> decimal(n).len() >= 2,
    decreases n,
{
    if n >= 10 {
        lemma_decimal_len(n / 10);
    }
}

/// Distinct numbers have distinct decimal representations.
pub proof fn lemma_decimal_injective(a: nat, b: nat)
    requires
        decimal(a) == decimal(b),
    ensures
        a == b,
    decreases a,
{
    lemma_decimal_len(a);
    lemma_decimal_len(b);
    if a < 10 {
        assert(decimal(a)[0] == digit_char(a));
        assert(decimal(b)[0] == digit_char(b));
    } else {
        let da = decimal(a / 10).push(digit_char(a % 10));
        let db = decimal(b / 10).push(digit_char(b % 10));
        assert(da.last() == db.last());
        assert(da.drop_last() =~= decimal(a / 10));
        assert(db.drop_last() =~= decimal(b / 10));
        lemma_decimal_injective(a / 10, b / 10);
    }
}

/// An ASCII decimal digit.
pub open spec fn is_digit(c: char) -> bool {
    '0' <= c && c <= '9'
}

/// Value of an ASCII decimal digit.
pub open spec fn digit_value(c: char) -> nat {
    ((c as u32) - 48) as nat
}

/// Value of a sequence of decimal digits.
pub open spec fn digits_value(d: Seq<char>) -> nat
    decreases d.len(),
{
    if d.len() == 0 {
        0
    } else {
        digits_value(d.drop_last()) * 10 + digit_value(d.last())
    }
}

/// The digits part of an unsigned integer literal accepted by `u64::from_str`
/// (an optional leading `+`).
pub open spec fn unsigned_digits(t: Seq<char>) -> Seq<char> {
    if t.len() > 0 && t[0] == '+' {
        t.drop_first()
    } else {
        t
    }
}

/// What `FromStr` for an unsigned integer type with maximum `max` returns:
/// `Some(value)` when the text is an optional `+` followed by at least one
/// ASCII digit and the value does not exceed `max`, `None` otherwise.
pub open spec fn parse_unsigned(t: Seq<char>, max: nat) -> Option<nat> {
    let d = unsigned_digits(t);
    if d.len() > 0 && (forall|i: int| 0 <= i < d.len() ==> is_digit(#[trigger] d[i]))
        && digits_value(d) <= max {
        Some(digits_value(d))
    } else {
        None
    }
}

/// Parses `t` as an unsigned decimal number no larger than `max`.
pub fn parse_unsigned_exec(t: &[char], max: u64) -> (r: Option<u64>)
    ensures
        match parse_unsigned(t@, max as nat) {
            Some(v) => r == Some(v as u64),
            None => r is None,
        },
{
    let start: usize = if t.len() > 0 && t[0] == '+' {
        1
    } else {
        0
    };
    let ghost d = unsigned_digits(t@);
    assert(d =~= t@.skip(start as int));
    if start >= t.len() {
        assert(d.len() == 0);
        return None;
    }
    let mut acc: u64 = 0;
    let mut over = false;
    let mut i = start;
    while i < t.len()
        invariant
            start <= i <= t.len(),
            d == t@.skip(start as int),
            d == unsigned_digits(t@),
            forall|k: int| start <= k < i ==> is_digit(#[trigger] t@[k]),
            over ==> digits_value(t@.subrange(start as int, i as int)) > max,
            !over ==> acc == digits_value(t@.subrange(start as int, i as int)),
            !over ==> acc <= max,
        decreases t.len() - i,
    {
        let c = t[i];
        if !('0' <= c && c <= '9') {
            assert(d[i - start] == c);
            assert(!is_digit(d[i - start]));
            return None;
        }
        let dv: u64 = (c as u32 - 48) as u64;
        let ghost prev = t@.subrange(start as int, i as int);
        assert(t@.subrange(start as int, i + 1).drop_last() =~= prev);
        if !over {
            match acc.checked_mul(10) {
                Some(m) => match m.checked_add(dv) {
                    Some(s) => {
                        if s > max {
                            over = true;
                        } else {
                            acc = s;
                        }
                    },
                    None => {
                        over = true;
                    },
                },
                None => {
                    over = true;
                },
            }
        }
        i = i + 1;
    }
    assert(t@.subrange(start as int, t.len() as int) =~= d);
    if over {
        None
    } else {
        Some(acc)
    }
}

// ---------------------------------------------------------------------------
// Hexadecimal
// ---------------------------------------------------------------------------

/// Lower-case hexadecimal digit of a value below 16.
pub open spec fn hex_lower(d: u8) -> char {
    if d < 10 {
        ((d + 48) as u8) as char
    } else {
        ((d + 87) as u8) as char
    }
}

/// Lower-case hexadecimal text of bytes, two digits per byte (what
/// `format!("{:x}", digest)` prints for a digest).
pub open spec fn lower_hex(bytes: Seq<u8>) -> Seq<char>
    decreases bytes.len(),
{
    if bytes.len() == 0 {
        Seq::empty()
    } else {
        lower_hex(bytes.drop_last()) + seq![hex_lower(bytes.last() / 16), hex_lower(bytes.last() % 16)]
    }
}

fn hex_lower_exec(d: u8) -> (c: char)
    requires
        d < 16,
    ensures
        c == hex_lower(d),
{
    if d < 10 {
        (d + 48) as char
    } else {
        (d + 87) as char
    }
}

/// Lower-case hexadecimal text of bytes.
pub fn lower_hex_exec(bytes: &[u8]) -> (r: String)
    ensures
        r@ == lower_hex(bytes@),
{
    let mut out: Vec<char> = Vec::new();
    let mut i: usize = 0;
    while i < bytes.len()
        invariant
            i <= bytes.len(),
            out@ == lower_hex(bytes@.take(i as int)),
        decreases bytes.len() - i,
    {
        let b = bytes[i];
        assert(bytes@.take(i + 1).drop_last() =~= bytes@.take(i as int));
        out.push(hex_lower_exec(b / 16));
        out.push(hex_lower_exec(b % 16));
        assert(out@ =~= lower_hex(bytes@.take(i + 1)));
        i = i + 1;
    }
    assert(bytes@.take(bytes.len() as int) =~= bytes@);
    string_of(&out)
}

// ---------------------------------------------------------------------------
// Searching from the end
// ---------------------------------------------------------------------------

/// Index of the last occurrence of `c` in `s`, or -1.
pub open spec fn last_index_of(s: Seq<char>, c: char) -> int
    decreases s.len(),
{
    if s.len() == 0 {
        -1
    } else if s.last() == c {
        s.len() - 1
    } else {
        last_index_of(s.drop_last(), c)
    }
}

/// Bounds of `last_index_of`, and that no later character is `c`.
pub proof fn lemma_last_index_of(s: Seq<char>, c: char)
    ensures
        -1 <= last_index_of(s, c) < s.len(),
        last_index_of(s, c) >= 0 ==> s[last_index_of(s, c)] == c,
        forall|k: int| last_index_of(s, c) < k < s.len() ==> s[k] != c,
    decreases s.len(),
{
    if s.len() > 0 && s.last() != c {
        lemma_last_index_of(s.drop_last(), c);
        assert forall|k: int| last_index_of(s, c) < k < s.len() implies s[k] != c by {
            if k < s.len() - 1 {
                assert(s.drop_last()[k] == s[k]);
            }
        }
    }
}

/// Position of the last `c` in `v`, if any.
pub fn find_last(v: &[char], c: char) -> (r: Option<usize>)
    ensures
        match r {
            Some(i) => i as int == last_index_of(v@, c),
            None => last_index_of(v@, c) == -1,
        },
{
    let mut j: usize = v.len();
    assert(v@.take(v.len() as int) =~= v@);
    while j > 0 && v[j - 1] != c
        invariant
            j <= v.len(),
            last_index_of(v@, c) == last_index_of(v@.take(j as int), c),
        decreases j,
    {
        assert(v@.take(j as int).drop_last() =~= v@.take(j - 1));
        j = j - 1;
    }
    if j == 0 {
        None
    } else {
        Some(j - 1)
    }
}

// ---------------------------------------------------------------------------
// Lists of strings
// ---------------------------------------------------------------------------

/// The texts of a list of strings.
pub open spec fn string_views(v: Seq<String>) -> Seq<Seq<char>> {
    v.map_values(|s: String| s@)
}

/// Whether one of the strings of `list` has the text `name`.
pub fn contains_text(list: &Vec<String>, name: &[char]) -> (r: bool)
    ensures
        r == string_views(list@).contains(name@),
{
    let mut i: usize = 0;
    while i < list.len()
        invariant
            i <= list.len(),
            forall|k: int| 0 <= k < i ==> list@[k]@ != name@,
        decreases list.len() - i,
    {
        let item = chars_of(list[i].as_str());
        if seq_eq(&item, name) {
            assert(string_views(list@)[i as int] == name@);
            return true;
        }
        i = i + 1;
    }
    assert forall|k: int| 0 <= k < string_views(list@).len() implies string_views(list@)[k]
        != name@ by {
        assert(string_views(list@)[k] == list@[k]@);
    }
    false
}

// ---------------------------------------------------------------------------
// Paths
// ---------------------------------------------------------------------------

/// A relative file name placed under a directory, as `PathBuf::join` does on
/// Unix for a relative name: nothing is added to an empty directory, and no
/// second separator after a trailing `/`.
pub open spec fn path_join(dir: Seq<char>, name: Seq<char>) -> Seq<char> {
    if dir.len() == 0 {
        name
    } else if dir.last() == '/' {
        dir + name
    } else {
        dir + seq!['/'] + name
    }
}

/// Joins a directory and a relative file name.
pub fn path_join_exec(dir: &str, name: &str) -> (r: String)
    ensures
        r@ == path_join(dir@, name@),
{
    let d = chars_of(dir);
    let n = chars_of(name);
    if d.len() == 0 {
        string_of(&n)
    } else if d[d.len() - 1] == '/' {
        string_of(&concat(&d, &n))
    } else {
        let with_sep = concat(&d, &['/']);
        let r = concat(&with_sep, &n);
        assert(r@ =~= d@ + seq!['/'] + n@);
        string_of(&r)
    }
}

/// The last component of a Unix path that is a name: trailing `/` and `.`
/// components are passed over; none for an empty path or the root.
pub open spec fn last_component(p: Seq<char>) -> Option<Seq<char>>
    decreases p.len(),
{
    if p.len() == 0 {
        None
    } else if p.last() == '/' {
        last_component(p.drop_last())
    } else {
        let i = last_index_of(p, '/');
        proof {
            lemma_last_index_of(p, '/');
        }
        if p.skip(i + 1) == seq!['.'] {
            last_component(p.take(i + 1))
        } else {
            Some(p.skip(i + 1))
        }
    }
}

/// What `Path::file_name` gives on Unix: the last component of the path when
/// it is a name, none when the path ends in `..`, is empty or is the root.
pub open spec fn path_file_name(p: Seq<char>) -> Option<Seq<char>> {
    match last_component(p) {
        Some(c) => if c == seq!['.', '.'] {
            None
        } else {
            Some(c)
        },
        None => None,
    }
}

/// The final name of a path.
pub fn path_file_name_exec(path: &str) -> (r: Option<String>)
    ensures
        opt_view(r) == path_file_name(path@),
{
    let v = chars_of(path);
    let mut end: usize = v.len();
    assert(v@.take(end as int) =~= v@);
    loop
        invariant
            v@ == path@,
            end <= v.len(),
            last_component(v@) == last_component(v@.take(end as int)),
        decreases end,
    {
        if end == 0 {
            return None;
        }
        if v[end - 1] == '/' {
            assert(v@.take(end as int).drop_last() =~= v@.take(end - 1));
            end = end - 1;
        } else {
            let head = copy_range(&v, 0, end);
            assert(head@ =~= v@.take(end as int));
            proof {
                lemma_last_index_of(head@, '/');
            }
            let start: usize = match find_last(&head, '/') {
                Some(i) => i + 1,
                None => 0,
            };
            let seg = copy_range(&head, start, end);
            assert(seg@ =~= head@.skip(start as int));
            if seg.len() == 1 && seg[0] == '.' {
                assert(seg@ =~= seq!['.']);
                assert(head@.take(start as int) =~= v@.take(start as int));
                end = start;
            } else {
                assert(seg@ != seq!['.']);
                if seg.len() == 2 && seg[0] == '.' && seg[1] == '.' {
                    assert(seg@ =~= seq!['.', '.']);
                    return None;
                }
                assert(seg@ != seq!['.', '.']);
                return Some(string_of(&seg));
            }
        }
    }
}

/// What `Path::extension` gives on Unix: the part of the final name after
/// its last `.`, when that dot is not the first character of the name.
pub open spec fn path_extension(p: Seq<char>) -> Option<Seq<char>> {
    match path_file_name(p) {
        Some(n) => if last_index_of(n, '.') > 0 {
            Some(n.skip(last_index_of(n, '.') + 1))
        } else {
            None
        },
        None => None,
    }
}

/// The extension of a path.
pub fn path_extension_exec(path: &str) -> (r: Option<String>)
    ensures
        opt_view(r) == path_extension(path@),
{
    match path_file_name_exec(path) {
        None => None,
        Some(name) => {
            let n = chars_of(name.as_str());
            proof {
                lemma_last_index_of(n@, '.');
            }
            match find_last(&n, '.') {
                Some(i) => if i > 0 {
                    assert(i < n.len());
                    let ext = copy_range(&n, i + 1, n.len());
                    assert(ext@ =~= n@.skip(i + 1));
                    Some(string_of(&ext))
                } else {
                    None
                },
                None => None,
            }
        },
    }
}

// ---------------------------------------------------------------------------
// Case mapping
// ---------------------------------------------------------------------------

/// Name for what `str::to_lowercase` returns (full Unicode lower-casing).
pub uninterp spec fn unicode_lowercase(s: Seq<char>) -> Seq<char>;

/// `str::to_lowercase`.
///
/// Claims: the result is `unicode_lowercase` of the input, a function of the
/// input alone.
#[verifier::external_body]
pub(crate) fn to_lowercase(s: &str) -> (r: String)
    ensures
        r@ == unicode_lowercase(s@),
{
    s.to_lowercase()
}

} // verus!
