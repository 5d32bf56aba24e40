//! Character-level string helpers shared by the rest of the library, each
//! stated over `Seq<char>` views.

use vstd::prelude::*;

verus! {

/// `String::push`: the string afterwards is the old one with `c` appended.
#[verifier::external_body]
pub(crate) fn push_char(s: &mut String, c: char)
    ensures
        final(s)@ == old(s)@.push(c),
{
    s.push(c);
}

/// The characters of `s`, in order.
pub fn chars_of(s: &str) -> (v: Vec<char>)
    ensures
        v@ == s@,
{
    let n = s.unicode_len();
    let mut v: Vec<char> = Vec::new();
    let mut i: usize = 0;
    while i < n
        invariant
            n == s@.len(),
            i <= n,
            v@ == s@.subrange(0, i as int),
        decreases n - i,
    {
        v.push(s.get_char(i));
        i = i + 1;
        assert(v@ =~= s@.subrange(0, i as int));
    }
    assert(v@ =~= s@);
    v
}

/// A `String` holding `chars[lo..hi]`.
pub fn string_from_range(chars: &Vec<char>, lo: usize, hi: usize) -> (s: String)
    requires
        lo <= hi <= chars@.len(),
    ensures
        s@ == chars@.subrange(lo as int, hi as int),
{
    let mut s = String::new();
    let mut i: usize = lo;
    while i < hi
        invariant
            lo <= i <= hi,
            hi <= chars@.len(),
            s@ == chars@.subrange(lo as int, i as int),
        decreases hi - i,
    {
        push_char(&mut s, chars[i]);
        i = i + 1;
        assert(s@ =~= chars@.subrange(lo as int, i as int));
    }
    s
}

/// An owned copy of `s`.
pub fn to_owned_string(s: &str) -> (r: String)
    ensures
        r@ == s@,
{
    String::from_str(s)
}

/// `a` followed by `b`.
pub fn concat2(a: &str, b: &str) -> (r: String)
    ensures
        r@ == a@ + b@,
{
    let mut r = String::from_str(a);
    r.append(b);
    r
}

/// `a`, `b` and `c` one after the other.
pub fn concat3(a: &str, b: &str, c: &str) -> (r: String)
    ensures
        r@ == a@ + b@ + c@,
{
    let mut r = String::from_str(a);
    r.append(b);
    r.append(c);
    r
}

// ---------------------------------------------------------------------------
// Equality, prefixes, suffixes, substrings
// ---------------------------------------------------------------------------

/// Character-wise equality of two string slices.
pub fn str_eq(a: &str, b: &str) -> (r: bool)
    ensures
        r == (a@ == b@),
{
    let va = chars_of(a);
    let vb = chars_of(b);
    if va.len() != vb.len() {
        return false;
    }
    let n = va.len();
    let mut i: usize = 0;
    while i < n
        invariant
            n == va@.len(),
            n == vb@.len(),
            va@ == a@,
            vb@ == b@,
            i <= n,
            forall|j: int| 0 <= j < i ==> va@[j] == vb@[j],
        decreases n - i,
    {
        if va[i] != vb[i] {
            assert(va@[i as int] != vb@[i as int]);
            return false;
        }
        i = i + 1;
    }
    assert(va@ =~= vb@);
    true
}

/// `needle` occurs in `hay` starting at position `at`.
pub open spec fn occurs_at(hay: Seq<char>, needle: Seq<char>, at: int) -> bool {
    &&& 0 <= at
    &&& at + needle.len() <= hay.len()
    &&& hay.subrange(at, at + needle.len()) == needle
}

/// `needle` is a substring of `hay`.
pub open spec fn has_substring(hay: Seq<char>, needle: Seq<char>) -> bool {
    exists|at: int| occurs_at(hay, needle, at)
}

fn matches_at(hay: &Vec<char>, needle: &Vec<char>, at: usize) -> (r: bool)
    requires
        at + needle@.len() <= hay@.len(),
    ensures
        r == occurs_at(hay@, needle@, at as int),
{
    let n = needle.len();
    let hl = hay.len();
    let mut j: usize = 0;
    while j < n
        invariant
            n == needle@.len(),
            hl == hay@.len(),
            at + n <= hay@.len(),
            j <= n,
            forall|k: int| 0 <= k < j ==> hay@[at + k] == needle@[k],
        decreases n - j,
    {
        if hay[at + j] != needle[j] {
            assert(hay@.subrange(at as int, at + n)[j as int] != needle@[j as int]);
            return false;
        }
        j = j + 1;
    }
    assert(hay@.subrange(at as int, at + n) =~= needle@);
    true
}

/// Whether `needle` occurs anywhere in `hay` (the empty needle always does).
pub fn contains_str(hay: &str, needle: &str) -> (r: bool)
    ensures
        r == has_substring(hay@, needle@),
{
    let h = chars_of(hay);
    let nd = chars_of(needle);
    if nd.len() == 0 {
        assert(h@.subrange(0, 0) =~= nd@);
        assert(occurs_at(h@, nd@, 0));
        return true;
    }
    if nd.len() > h.len() {
        assert(forall|at: int| !occurs_at(h@, nd@, at));
        return false;
    }
    let last = h.len() - nd.len();
    let mut at: usize = 0;
    while at <= last
        invariant
            last == h@.len() - nd@.len(),
            nd@.len() <= h@.len(),
            nd@.len() > 0,
            h@.len() == h.len(),
            h@ == hay@,
            nd@ == needle@,
            at <= last + 1,
            forall|k: int| 0 <= k < at ==> !occurs_at(h@, nd@, k),
        decreases last + 1 - at,
    {
        if matches_at(&h, &nd, at) {
            assert(occurs_at(h@, nd@, at as int));
            return true;
        }
        at = at + 1;
    }
    assert forall|k: int| !occurs_at(h@, nd@, k) by {
        if 0 <= k < at {
        } else {
        }
    }
    false
}

/// `suffix` is a suffix of `s`.
pub open spec fn ends_with_spec(s: Seq<char>, suffix: Seq<char>) -> bool {
    suffix.len() <= s.len() && s.subrange(s.len() - suffix.len(), s.len() as int) == suffix
}

/// Whether `chars` ends with `suffix`.
pub fn ends_with_chars(chars: &Vec<char>, len: usize, suffix: &Vec<char>) -> (r: bool)
    requires
        len <= chars@.len(),
    ensures
        r == ends_with_spec(chars@.subrange(0, len as int), suffix@),
{
    let ghost s = chars@.subrange(0, len as int);
    if suffix.len() > len {
        return false;
    }
    let start = len - suffix.len();
    let n = suffix.len();
    let mut j: usize = 0;
    while j < n
        invariant
            n == suffix@.len(),
            start + n == len,
            len <= chars@.len(),
            s == chars@.subrange(0, len as int),
            j <= n,
            forall|k: int| 0 <= k < j ==> chars@[start + k] == suffix@[k],
        decreases n - j,
    {
        if chars[start + j] != suffix[j] {
            assert(s.subrange(start as int, len as int)[j as int] != suffix@[j as int]);
            return false;
        }
        j = j + 1;
    }
    assert(s.subrange(start as int, len as int) =~= suffix@);
    true
}

// ---------------------------------------------------------------------------
// ASCII case folding
// ---------------------------------------------------------------------------

/// ASCII lower-casing of one character; other characters are unchanged.
pub open spec fn ascii_lower(c: char) -> char {
    if 'A' <= c <= 'Z' {
        ((c as u32) + 32) as char
    } else {
        c
    }
}

/// Equality up to ASCII case, as `str::eq_ignore_ascii_case` defines it.
pub open spec fn eq_ignore_ascii_case_spec(a: Seq<char>, b: Seq<char>) -> bool {
    a.len() == b.len() && forall|i: int| 0 <= i < a.len() ==> ascii_lower(a[i]) == ascii_lower(b[i])
}

fn lower_char(c: char) -> (r: char)
    ensures
        r == ascii_lower(c),
{
    if 'A' <= c && c <= 'Z' {
        let v: u32 = c as u32 + 32;
        assert(v < 0xd800);
        char_from_ascii_code(v)
    } else {
        c
    }
}

/// The ASCII character with code `v`.
pub(crate) fn char_from_ascii_code(v: u32) -> (c: char)
    requires
        v < 128,
    ensures
        c == v as char,
{
    let b: u8 = v as u8;
    b as char
}

/// Whether `a` equals `b` up to ASCII case.
pub fn eq_ignore_ascii_case(a: &str, b: &str) -> (r: bool)
    ensures
        r == eq_ignore_ascii_case_spec(a@, b@),
{
    let va = chars_of(a);
    let vb = chars_of(b);
    if va.len() != vb.len() {
        return false;
    }
    let n = va.len();
    let mut i: usize = 0;
    while i < n
        invariant
            n == va@.len(),
            n == vb@.len(),
            va@ == a@,
            vb@ == b@,
            i <= n,
            forall|j: int| 0 <= j < i ==> ascii_lower(va@[j]) == ascii_lower(vb@[j]),
        decreases n - i,
    {
        if lower_char(va[i]) != lower_char(vb[i]) {
            assert(ascii_lower(va@[i as int]) != ascii_lower(vb@[i as int]));
            return false;
        }
        i = i + 1;
    }
    true
}

// ---------------------------------------------------------------------------
// Unicode white space and trimming
// ---------------------------------------------------------------------------

/// The characters with the Unicode `White_Space` property, which is what
/// `char::is_whitespace` and `str::trim` go by.
pub open spec fn is_white_space_spec(c: char) -> bool {
    let v = c as u32;
    ||| 0x09 <= v <= 0x0d
    ||| v == 0x20
    ||| v == 0x85
    ||| v == 0xa0
    ||| v == 0x1680
    ||| 0x2000 <= v <= 0x200a
    ||| v == 0x2028
    ||| v == 0x2029
    ||| v == 0x202f
    ||| v == 0x205f
    ||| v == 0x3000
}

/// Whether `c` is Unicode white space.
pub fn is_white_space(c: char) -> (r: bool)
    ensures
        r == is_white_space_spec(c),
{
    let v: u32 = c as u32;
    (0x09 <= v && v <= 0x0d) || v == 0x20 || v == 0x85 || v == 0xa0 || v == 0x1680 || (0x2000
        <= v && v <= 0x200a) || v == 0x2028 || v == 0x2029 || v == 0x202f || v == 0x205f || v
        == 0x3000
}

/// `s` without its leading white space.
pub open spec fn trim_start(s: Seq<char>) -> Seq<char>
    decreases s.len(),
{
    if s.len() > 0 && is_white_space_spec(s[0]) {
        trim_start(s.subrange(1, s.len() as int))
    } else {
        s
    }
}

/// `s` without its trailing white space.
pub open spec fn trim_end(s: Seq<char>) -> Seq<char>
    decreases s.len(),
{
    if s.len() > 0 && is_white_space_spec(s[s.len() - 1]) {
        trim_end(s.subrange(0, s.len() - 1))
    } else {
        s
    }
}

/// `s` without leading or trailing white space, as `str::trim` returns it.
pub open spec fn trim(s: Seq<char>) -> Seq<char> {
    trim_end(trim_start(s))
}

/// Every character of `s` is white space.
pub open spec fn all_white_space(s: Seq<char>) -> bool {
    forall|i: int| 0 <= i < s.len() ==> is_white_space_spec(#[trigger] s[i])
}

/// Skipping a white-space prefix does not change what `trim_start` gives.
pub proof fn lemma_trim_start_skip(s: Seq<char>, k: int)
    requires
        0 <= k <= s.len(),
        forall|j: int| 0 <= j < k ==> is_white_space_spec(#[trigger] s[j]),
    ensures
        trim_start(s) == trim_start(s.subrange(k, s.len() as int)),
    decreases k,
{
    if k == 0 {
        assert(s.subrange(0, s.len() as int) =~= s);
    } else {
        let t = s.subrange(1, s.len() as int);
        assert forall|j: int| 0 <= j < k - 1 implies is_white_space_spec(#[trigger] t[j]) by {
            assert(t[j] == s[j + 1]);
        }
        lemma_trim_start_skip(t, k - 1);
        assert(t.subrange(k - 1, t.len() as int) =~= s.subrange(k, s.len() as int));
    }
}

/// Dropping a white-space suffix does not change what `trim_end` gives.
pub proof fn lemma_trim_end_skip(s: Seq<char>, k: int)
    requires
        0 <= k <= s.len(),
        forall|j: int| k <= j < s.len() ==> is_white_space_spec(#[trigger] s[j]),
    ensures
        trim_end(s) == trim_end(s.subrange(0, k)),
    decreases s.len() - k,
{
    if k == s.len() {
        assert(s.subrange(0, k) =~= s);
    } else {
        let t = s.subrange(0, s.len() - 1);
        assert forall|j: int| k <= j < t.len() implies is_white_space_spec(#[trigger] t[j]) by {
            assert(t[j] == s[j]);
        }
        lemma_trim_end_skip(t, k);
        assert(t.subrange(0, k) =~= s.subrange(0, k));
    }
}

/// The bounds `(lo, hi)` with `trim(chars) == chars[lo..hi]`.
pub fn trim_bounds(chars: &Vec<char>) -> (r: (usize, usize))
    ensures
        r.0 <= r.1 <= chars@.len(),
        trim(chars@) == chars@.subrange(r.0 as int, r.1 as int),
        (r.0 == r.1) == all_white_space(chars@),
{
    let n = chars.len();
    let mut lo: usize = 0;
    while lo < n && is_white_space(chars[lo])
        invariant
            n == chars@.len(),
            lo <= n,
            forall|j: int| 0 <= j < lo ==> is_white_space_spec(#[trigger] chars@[j]),
        decreases n - lo,
    {
        lo = lo + 1;
    }
    proof {
        lemma_trim_start_skip(chars@, lo as int);
    }
    let ghost rest = chars@.subrange(lo as int, n as int);
    assert(trim_start(rest) == rest);
    let mut hi: usize = n;
    while hi > lo && is_white_space(chars[hi - 1])
        invariant
            n == chars@.len(),
            lo <= hi <= n,
            forall|j: int| hi <= j < n ==> is_white_space_spec(#[trigger] chars@[j]),
        decreases hi - lo,
    {
        hi = hi - 1;
    }
    proof {
        assert forall|j: int| (hi - lo) <= j < rest.len() implies is_white_space_spec(
            #[trigger] rest[j],
        ) by {
            assert(rest[j] == chars@[lo + j]);
        }
        lemma_trim_end_skip(rest, hi - lo);
        let mid = rest.subrange(0, hi - lo);
        assert(mid =~= chars@.subrange(lo as int, hi as int));
        if hi > lo {
            assert(mid[mid.len() - 1] == chars@[hi - 1]);
        }
        assert(trim_end(mid) == mid);
        if lo == hi {
            assert(all_white_space(chars@)) by {
                assert forall|i: int| 0 <= i < chars@.len() implies is_white_space_spec(
                    #[trigger] chars@[i],
                ) by {
                    if i < lo {
                    } else {
                    }
                }
            }
        } else {
            assert(!is_white_space_spec(chars@[lo as int]));
        }
    }
    (lo, hi)
}

/// Whether `s` is empty once trimmed, i.e. all white space.
pub fn is_blank(s: &str) -> (r: bool)
    ensures
        r == all_white_space(s@),
        r == (trim(s@).len() == 0),
{
    let v = chars_of(s);
    let (lo, hi) = trim_bounds(&v);
    lo == hi
}

// ---------------------------------------------------------------------------
// Decimal numbers
// ---------------------------------------------------------------------------

/// The ASCII digit for `d < 10`.
pub open spec fn digit_char(d: nat) -> char {
    (('0' as u32) + d) as char
}

/// The decimal rendering of `n`, without leading zeros.
pub open spec fn decimal(n: nat) -> Seq<char>
    decreases n,
{
    if n < 10 {
        seq![digit_char(n)]
    } else {
        decimal(n / 10).push(digit_char(n % 10))
    }
}

/// The decimal rendering of a signed value, with a leading `-` when negative.
pub open spec fn signed_decimal(n: int) -> Seq<char> {
    if n < 0 {
        seq!['-'] + decimal((-n) as nat)
    } else {
        decimal(n as nat)
    }
}

fn digit(d: u64) -> (c: char)
    requires
        d < 10,
    ensures
        c == digit_char(d as nat),
{
    char_from_ascii_code(48 + d as u32)
}

/// Appends the decimal rendering of `n` to `s`.
pub fn push_decimal(s: &mut String, n: u64)
    ensures
        final(s)@ == old(s)@ + decimal(n as nat),
    decreases n,
{
    if n >= 10 {
        push_decimal(s, n / 10);
    }
    push_char(s, digit(n % 10));
    assert(final(s)@ =~= old(s)@ + decimal(n as nat)) by {
        if n >= 10 {
        } else {
        }
    }
}

/// Appends the decimal rendering of a signed `n` to `s`.
pub fn push_signed_decimal(s: &mut String, n: i64)
    ensures
        final(s)@ == old(s)@ + signed_decimal(n as int),
{
    if n < 0 {
        push_char(s, '-');
        let m: u64 = (0i128 - n as i128) as u64;
        push_decimal(s, m);
        assert(final(s)@ =~= old(s)@ + signed_decimal(n as int));
    } else {
        push_decimal(s, n as u64);
    }
}

/// Why a string is not an unsigned decimal number.
#[derive(Debug, Clone, Copy, PartialEq, Eq, Structural)]
pub enum NumberError {
    /// The string is empty.
    Empty,
    /// A character that is not a decimal digit.
    InvalidDigit,
    /// The value does not fit in 64 bits.
    Overflow,
}

impl NumberError {
    /// The wording of the standard library's integer parse errors.
    pub fn description(&self) -> (s: &'static str)
        ensures
            s@ == number_error_text(*self),
    {
        match self {
            NumberError::Empty => "cannot parse integer from empty string",
            NumberError::InvalidDigit => "invalid digit found in string",
            NumberError::Overflow => "number too large to fit in target type",
        }
    }
}

/// The text that describes each [`NumberError`].
pub open spec fn number_error_text(e: NumberError) -> Seq<char> {
    match e {
        NumberError::Empty => "cannot parse integer from empty string"@,
        NumberError::InvalidDigit => "invalid digit found in string"@,
        NumberError::Overflow => "number too large to fit in target type"@,
    }
}

/// `c` is one of `0`..`9`.
pub open spec fn is_digit(c: char) -> bool {
    '0' <= c <= '9'
}

/// The value of the decimal digit `c`.
pub open spec fn digit_value(c: char) -> nat {
    ((c as u32) - ('0' as u32)) as nat
}

/// Reads the digits `d` left to right onto the accumulated value `acc`:
/// the first non-digit gives `InvalidDigit`, exceeding `u64::MAX` gives
/// `Overflow`, whichever comes first.
pub open spec fn parse_digits(d: Seq<char>, acc: nat) -> Result<u64, NumberError>
    decreases d.len(),
{
    if d.len() == 0 {
        Ok(acc as u64)
    } else if !is_digit(d[0]) {
        Err(NumberError::InvalidDigit)
    } else if acc * 10 + digit_value(d[0]) > u64::MAX {
        Err(NumberError::Overflow)
    } else {
        parse_digits(d.subrange(1, d.len() as int), acc * 10 + digit_value(d[0]))
    }
}

/// How `u64::from_str` reads `s`: an optional leading `+`, then at least
/// one decimal digit.
pub open spec fn parse_u64_spec(s: Seq<char>) -> Result<u64, NumberError> {
    if s.len() == 0 {
        Err(NumberError::Empty)
    } else if s[0] == '+' {
        if s.len() == 1 {
            Err(NumberError::InvalidDigit)
        } else {
            parse_digits(s.subrange(1, s.len() as int), 0)
        }
    } else {
        parse_digits(s, 0)
    }
}

/// Parses `chars[lo..hi]` as an unsigned 64-bit decimal number.
pub fn parse_u64(chars: &Vec<char>, lo: usize, hi: usize) -> (r: Result<u64, NumberError>)
    requires
        lo <= hi <= chars@.len(),
    ensures
        r == parse_u64_spec(chars@.subrange(lo as int, hi as int)),
{
    let ghost s = chars@.subrange(lo as int, hi as int);
    if lo == hi {
        return Err(NumberError::Empty);
    }
    let mut start = lo;
    if chars[lo] == '+' {
        if hi - lo == 1 {
            return Err(NumberError::InvalidDigit);
        }
        start = lo + 1;
        assert(s.subrange(1, s.len() as int) =~= chars@.subrange(start as int, hi as int));
    } else {
        assert(s =~= chars@.subrange(start as int, hi as int));
    }
    let ghost whole = chars@.subrange(start as int, hi as int);
    assert(parse_u64_spec(s) == parse_digits(whole, 0));
    let mut acc: u64 = 0;
    let mut i: usize = start;
    while i < hi
        invariant
            start <= i <= hi,
            hi <= chars@.len(),
            whole == chars@.subrange(start as int, hi as int),
            parse_u64_spec(chars@.subrange(lo as int, hi as int)) == parse_digits(whole, 0),
            parse_digits(whole, 0) == parse_digits(
                chars@.subrange(i as int, hi as int),
                acc as nat,
            ),
        decreases hi - i,
    {
        let ghost rest = chars@.subrange(i as int, hi as int);
        assert(rest[0] == chars@[i as int]);
        let c = chars[i];
        if !('0' <= c && c <= '9') {
            return Err(NumberError::InvalidDigit);
        }
        let dv: u64 = (c as u32 - 48) as u64;
        assert(dv as nat == digit_value(c));
        if acc > 1844674407370955161 || (acc == 1844674407370955161 && dv > 5) {
            assert(acc * 10 + dv > u64::MAX);
            return Err(NumberError::Overflow);
        }
        acc = acc * 10 + dv;
        i = i + 1;
        assert(rest.subrange(1, rest.len() as int) =~= chars@.subrange(i as int, hi as int));
    }
    assert(chars@.subrange(i as int, hi as int).len() == 0);
    Ok(acc)
}

} // verus!
