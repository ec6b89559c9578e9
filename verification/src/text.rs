//! Character sequences: the specification vocabulary for the parsers of this
//! crate (`trim`, prefixes, ASCII case folding, decimal numbers, substring
//! search) and verified executable counterparts on `Vec<char>`.

use vstd::prelude::*;

verus! {

/// Whether `c` has the Unicode `White_Space` property, as `char::is_whitespace`
/// reports it.
pub uninterp spec fn char_is_whitespace(c: char) -> bool;

/// Calls `char::is_whitespace`. Its answer is a fixed property of the
/// character, which the contract names and does not spell out.
#[verifier::external_body]
pub(crate) fn is_whitespace(c: char) -> (r: bool)
    ensures
        r == char_is_whitespace(c),
{
    c.is_whitespace()
}

/// Calls `String::from_iter` on the characters of `v`: the string made of
/// exactly these characters, in order.
#[verifier::external_body]
pub(crate) fn string_of(v: &Vec<char>) -> (out: String)
    ensures
        out@ == v@,
{
    String::from_iter(v.iter())
}

/// The characters of `s`, in order.
pub fn chars_of(s: &str) -> (out: Vec<char>)
    ensures
        out@ == s@,
{
    broadcast use vstd::string::group_string_axioms;

    let mut out: Vec<char> = Vec::new();
    for c in it: s.chars()
        invariant
            it.seq() == s@,
            out@ == s@.take(it.index() as int),
    {
        out.push(c);
    }
    out
}

// ---------------------------------------------------------------------------
// Single characters
// ---------------------------------------------------------------------------

pub open spec fn is_ascii_digit(c: char) -> bool {
    '0' <= c && c <= '9'
}

pub open spec fn is_ascii_upper(c: char) -> bool {
    'A' <= c && c <= 'Z'
}

pub open spec fn is_ascii_lower(c: char) -> bool {
    'a' <= c && c <= 'z'
}

pub open spec fn is_ascii_alphabetic(c: char) -> bool {
    is_ascii_upper(c) || is_ascii_lower(c)
}

pub open spec fn is_ascii_alphanumeric(c: char) -> bool {
    is_ascii_alphabetic(c) || is_ascii_digit(c)
}

/// `c` with an ASCII upper-case letter replaced by its lower-case form.
pub open spec fn ascii_lower(c: char) -> char {
    if is_ascii_upper(c) {
        ((c as u8 + 32) as u8) as char
    } else {
        c
    }
}

pub fn char_is_ascii_digit(c: char) -> (r: bool)
    ensures
        r == is_ascii_digit(c),
{
    '0' <= c && c <= '9'
}

pub fn char_is_ascii_alphabetic(c: char) -> (r: bool)
    ensures
        r == is_ascii_alphabetic(c),
{
    ('A' <= c && c <= 'Z') || ('a' <= c && c <= 'z')
}

pub fn char_is_ascii_alphanumeric(c: char) -> (r: bool)
    ensures
        r == is_ascii_alphanumeric(c),
{
    char_is_ascii_alphabetic(c) || char_is_ascii_digit(c)
}

pub fn char_to_ascii_lowercase(c: char) -> (r: char)
    ensures
        r == ascii_lower(c),
{
    if 'A' <= c && c <= 'Z' {
        let code: u8 = c as u8;
        let lowered: u8 = code + 32;
        lowered as char
    } else {
        c
    }
}


// ---------------------------------------------------------------------------
// Trimming
// ---------------------------------------------------------------------------

/// `s` without its leading white space.
pub open spec fn trim_start(s: Seq<char>) -> Seq<char>
    decreases s.len(),
{
    if s.len() > 0 && char_is_whitespace(s[0]) {
        trim_start(s.drop_first())
    } else {
        s
    }
}

/// `s` without its trailing white space.
pub open spec fn trim_end(s: Seq<char>) -> Seq<char>
    decreases s.len(),
{
    if s.len() > 0 && char_is_whitespace(s.last()) {
        trim_end(s.drop_last())
    } else {
        s
    }
}

/// `s` without leading and trailing white space, as `str::trim` gives it.
pub open spec fn trim(s: Seq<char>) -> Seq<char> {
    trim_end(trim_start(s))
}

/// The part of `v` from `from` up to `to`, as a vector of its own.
pub fn slice_chars(v: &Vec<char>, from: usize, to: usize) -> (out: Vec<char>)
    requires
        from <= to <= v.len(),
    ensures
        out@ == v@.subrange(from as int, to as int),
{
    let mut out: Vec<char> = Vec::new();
    let mut i: usize = from;
    while i < to
        invariant
            from <= i <= to <= v.len(),
            out@ == v@.subrange(from as int, i as int),
        decreases to - i,
    {
        out.push(v[i]);
        i = i + 1;
        assert(out@ =~= v@.subrange(from as int, i as int));
    }
    out
}

/// Where the leading white space of `v[from..to]` ends.
pub fn trim_start_index(v: &Vec<char>, from: usize, to: usize) -> (at: usize)
    requires
        from <= to <= v.len(),
    ensures
        from <= at <= to,
        v@.subrange(at as int, to as int) == trim_start(v@.subrange(from as int, to as int)),
{
    let mut at: usize = from;
    while at < to && is_whitespace(v[at])
        invariant
            from <= at <= to <= v.len(),
            trim_start(v@.subrange(at as int, to as int)) == trim_start(
                v@.subrange(from as int, to as int),
            ),
        decreases to - at,
    {
        assert(v@.subrange(at as int, to as int).drop_first() =~= v@.subrange(
            at as int + 1,
            to as int,
        ));
        at = at + 1;
    }
    at
}

/// Where the trailing white space of `v[from..to]` begins.
pub fn trim_end_index(v: &Vec<char>, from: usize, to: usize) -> (at: usize)
    requires
        from <= to <= v.len(),
    ensures
        from <= at <= to,
        v@.subrange(from as int, at as int) == trim_end(v@.subrange(from as int, to as int)),
{
    let mut at: usize = to;
    while at > from && is_whitespace(v[at - 1])
        invariant
            from <= at <= to <= v.len(),
            trim_end(v@.subrange(from as int, at as int)) == trim_end(
                v@.subrange(from as int, to as int),
            ),
        decreases at - from,
    {
        assert(v@.subrange(from as int, at as int).drop_last() =~= v@.subrange(
            from as int,
            at as int - 1,
        ));
        at = at - 1;
    }
    at
}

/// The bounds of `v[from..to]` once trimmed at both ends.
pub fn trim_bounds(v: &Vec<char>, from: usize, to: usize) -> (b: (usize, usize))
    requires
        from <= to <= v.len(),
    ensures
        from <= b.0 <= b.1 <= to,
        v@.subrange(b.0 as int, b.1 as int) == trim(v@.subrange(from as int, to as int)),
{
    let lo = trim_start_index(v, from, to);
    let hi = trim_end_index(v, lo, to);
    (lo, hi)
}

/// `v` trimmed at both ends.
pub fn trim_chars(v: &Vec<char>) -> (out: Vec<char>)
    ensures
        out@ == trim(v@),
{
    assert(v@.subrange(0, v@.len() as int) =~= v@);
    let (lo, hi) = trim_bounds(v, 0, v.len());
    slice_chars(v, lo, hi)
}


// ---------------------------------------------------------------------------
// Comparison
// ---------------------------------------------------------------------------

/// Whether `pat` stands in `s` at index `at`.
pub open spec fn occurs_at(s: Seq<char>, pat: Seq<char>, at: int) -> bool {
    &&& 0 <= at
    &&& at + pat.len() <= s.len()
    &&& s.subrange(at, at + pat.len()) == pat
}

/// Whether `s` begins with `pat`.
pub open spec fn starts_with(s: Seq<char>, pat: Seq<char>) -> bool {
    occurs_at(s, pat, 0)
}

/// `s` with every ASCII upper-case letter replaced by its lower-case form.
pub open spec fn to_ascii_lowercase(s: Seq<char>) -> Seq<char> {
    Seq::new(s.len(), |i: int| ascii_lower(s[i]))
}

/// Equality up to the case of ASCII letters.
pub open spec fn eq_ignore_ascii_case(a: Seq<char>, b: Seq<char>) -> bool {
    to_ascii_lowercase(a) == to_ascii_lowercase(b)
}

/// Whether `pat` stands in `v[..to]` at index `at`.
pub fn matches_at(v: &Vec<char>, to: usize, pat: &Vec<char>, at: usize) -> (r: bool)
    requires
        to <= v.len(),
    ensures
        r == occurs_at(v@.subrange(0, to as int), pat@, at as int),
{
    if at > to || pat.len() > to - at {
        return false;
    }
    let ghost s = v@.subrange(0, to as int);
    let mut i: usize = 0;
    while i < pat.len()
        invariant
            at + pat.len() <= to <= v.len(),
            i <= pat.len(),
            s == v@.subrange(0, to as int),
            forall|j: int| 0 <= j < i ==> s[at + j] == pat@[j],
        decreases pat.len() - i,
    {
        if v[at + i] != pat[i] {
            assert(s.subrange(at as int, at + pat.len())[i as int] != pat@[i as int]);
            return false;
        }
        i = i + 1;
    }
    assert(s.subrange(at as int, at + pat.len()) =~= pat@);
    true
}

pub fn chars_eq(a: &Vec<char>, b: &Vec<char>) -> (r: bool)
    ensures
        r == (a@ == b@),
{
    if a.len() != b.len() {
        return false;
    }
    assert(a@.subrange(0, a@.len() as int) =~= a@);
    let r = matches_at(a, a.len(), b, 0);
    assert(r ==> a@ =~= b@);
    r
}

pub fn chars_start_with(v: &Vec<char>, pat: &Vec<char>) -> (r: bool)
    ensures
        r == starts_with(v@, pat@),
{
    assert(v@.subrange(0, v@.len() as int) =~= v@);
    matches_at(v, v.len(), pat, 0)
}

pub fn chars_to_ascii_lowercase(v: &Vec<char>) -> (out: Vec<char>)
    ensures
        out@ == to_ascii_lowercase(v@),
{
    let mut out: Vec<char> = Vec::new();
    let mut i: usize = 0;
    while i < v.len()
        invariant
            i <= v.len(),
            out@ == to_ascii_lowercase(v@.subrange(0, i as int)),
        decreases v.len() - i,
    {
        out.push(char_to_ascii_lowercase(v[i]));
        i = i + 1;
        assert(out@ =~= to_ascii_lowercase(v@.subrange(0, i as int)));
    }
    assert(v@.subrange(0, v@.len() as int) =~= v@);
    out
}

pub fn chars_eq_ignore_ascii_case(a: &Vec<char>, b: &Vec<char>) -> (r: bool)
    ensures
        r == eq_ignore_ascii_case(a@, b@),
{
    let la = chars_to_ascii_lowercase(a);
    let lb = chars_to_ascii_lowercase(b);
    chars_eq(&la, &lb)
}

/// Whether the text `s` equals `lit` up to the case of ASCII letters.
pub fn eq_ignore_ascii_case_str(v: &Vec<char>, lit: &str) -> (r: bool)
    ensures
        r == eq_ignore_ascii_case(v@, lit@),
{
    let pat = chars_of(lit);
    chars_eq_ignore_ascii_case(v, &pat)
}

// ---------------------------------------------------------------------------
// Decimal numbers
// ---------------------------------------------------------------------------

pub open spec fn all_ascii_digits(s: Seq<char>) -> bool {
    forall|i: int| 0 <= i < s.len() ==> is_ascii_digit(#[trigger] s[i])
}

pub open spec fn digit_value(c: char) -> nat {
    (c as u8 - '0' as u8) as nat
}

/// The number that the decimal digits `s` write.
pub open spec fn decimal_value(s: Seq<char>) -> nat
    decreases s.len(),
{
    if s.len() == 0 {
        0
    } else {
        decimal_value(s.drop_last()) * 10 + digit_value(s.last())
    }
}

/// `s` without a leading plus sign.
pub open spec fn without_plus(s: Seq<char>) -> Seq<char> {
    if s.len() > 0 && s[0] == '+' {
        s.drop_first()
    } else {
        s
    }
}

/// What `str::parse::<u64>` accepts: an optional plus sign, then one or more
/// decimal digits whose value fits in 64 bits.
pub open spec fn parse_u64(s: Seq<char>) -> Option<u64> {
    let digits = without_plus(s);
    if digits.len() > 0 && all_ascii_digits(digits) && decimal_value(digits) <= u64::MAX {
        Some(decimal_value(digits) as u64)
    } else {
        None
    }
}

/// A longer run of digits writes a number that is no smaller.
pub proof fn lemma_decimal_value_grows(s: Seq<char>, n: int)
    requires
        0 <= n <= s.len(),
    ensures
        decimal_value(s.take(n)) <= decimal_value(s),
    decreases s.len() - n,
{
    if n == s.len() {
        assert(s.take(n) =~= s);
    } else {
        lemma_decimal_value_grows(s, n + 1);
        assert(s.take(n + 1).drop_last() =~= s.take(n));
    }
}

pub fn chars_parse_u64(v: &Vec<char>) -> (r: Option<u64>)
    ensures
        r == parse_u64(v@),
{
    let start: usize = if v.len() > 0 && v[0] == '+' {
        1
    } else {
        0
    };
    let ghost digits = without_plus(v@);
    assert(digits =~= v@.subrange(start as int, v@.len() as int));
    if start == v.len() {
        return None;
    }
    let mut acc: u64 = 0;
    let mut i: usize = start;
    while i < v.len()
        invariant
            start <= i <= v.len(),
            digits == without_plus(v@),
            digits == v@.subrange(start as int, v@.len() as int),
            all_ascii_digits(digits.take(i - start)),
            acc == decimal_value(digits.take(i - start)),
        decreases v.len() - i,
    {
        let c = v[i];
        let ghost next = digits.take(i - start + 1);
        assert(next.drop_last() =~= digits.take(i - start));
        assert(next.last() == c);
        if !char_is_ascii_digit(c) {
            assert(!is_ascii_digit(digits[i - start]));
            return None;
        }
        let d: u64 = (c as u8 - '0' as u8) as u64;
        assert(d == digit_value(c));
        let grown = match acc.checked_mul(10) {
            Some(m) => m.checked_add(d),
            None => None,
        };
        match grown {
            Some(value) => {
                acc = value;
            },
            None => {
                assert(decimal_value(next) > u64::MAX);
                proof {
                    lemma_decimal_value_grows(digits, i - start + 1);
                }
                return None;
            },
        }
        i = i + 1;
        assert(all_ascii_digits(digits.take(i - start))) by {
            assert forall|j: int| 0 <= j < i - start implies is_ascii_digit(
                #[trigger] digits.take(i - start)[j],
            ) by {
                if j < i - start - 1 {
                    assert(digits.take(i - start - 1)[j] == digits[j]);
                }
            }
        }
    }
    assert(digits.take(i - start) =~= digits);
    Some(acc)
}


// ---------------------------------------------------------------------------
// Searching
// ---------------------------------------------------------------------------

/// The first index at or after `from` at which `s` holds `c`.
pub open spec fn first_index_from(s: Seq<char>, c: char, from: int) -> Option<int>
    decreases s.len() - from,
{
    if from < 0 || from >= s.len() {
        None
    } else if s[from] == c {
        Some(from)
    } else {
        first_index_from(s, c, from + 1)
    }
}

/// The first index at which `s` holds `c`.
pub open spec fn first_index(s: Seq<char>, c: char) -> Option<int> {
    first_index_from(s, c, 0)
}

/// What `first_index_from` finds is the first occurrence, and it finds
/// nothing only where there is none.
pub proof fn lemma_first_index_from(s: Seq<char>, c: char, from: int)
    requires
        0 <= from,
    ensures
        match first_index_from(s, c, from) {
            Some(at) => from <= at < s.len() && s[at] == c && forall|j: int|
                from <= j < at ==> s[j] != c,
            None => forall|j: int| from <= j < s.len() ==> s[j] != c,
        },
    decreases s.len() - from,
{
    if from < s.len() && s[from] != c {
        lemma_first_index_from(s, c, from + 1);
    }
}

pub fn chars_first_index_from(v: &Vec<char>, c: char, from: usize) -> (r: Option<usize>)
    ensures
        match r {
            Some(at) => from <= at < v.len() && first_index_from(v@, c, from as int) == Some(
                at as int,
            ),
            None => first_index_from(v@, c, from as int) is None,
        },
{
    let mut i: usize = from;
    while i < v.len()
        invariant
            from <= i,
            first_index_from(v@, c, i as int) == first_index_from(v@, c, from as int),
        decreases v.len() - i,
    {
        if v[i] == c {
            return Some(i);
        }
        i = i + 1;
    }
    None
}

/// The first index at or after `from` at which `pat` stands in `s`.
pub open spec fn find_from(s: Seq<char>, pat: Seq<char>, from: int) -> Option<int>
    decreases s.len() - from,
{
    if from < 0 || from + pat.len() > s.len() {
        None
    } else if occurs_at(s, pat, from) {
        Some(from)
    } else if from >= s.len() {
        None
    } else {
        find_from(s, pat, from + 1)
    }
}

/// The first index at which `pat` stands in `s`, as `str::find` gives it,
/// counted in characters.
pub open spec fn find(s: Seq<char>, pat: Seq<char>) -> Option<int> {
    find_from(s, pat, 0)
}

/// What `find_from` finds is the first occurrence, and it finds nothing only
/// where there is none.
pub proof fn lemma_find_from(s: Seq<char>, pat: Seq<char>, from: int)
    requires
        0 <= from,
    ensures
        match find_from(s, pat, from) {
            Some(at) => from <= at && occurs_at(s, pat, at) && forall|j: int|
                from <= j < at ==> !occurs_at(s, pat, j),
            None => forall|j: int| from <= j ==> !occurs_at(s, pat, j),
        },
    decreases s.len() - from,
{
    if from + pat.len() <= s.len() && !occurs_at(s, pat, from) && from < s.len() {
        lemma_find_from(s, pat, from + 1);
    }
}

pub fn chars_find_from(v: &Vec<char>, pat: &Vec<char>, from: usize) -> (r: Option<usize>)
    ensures
        match r {
            Some(at) => from <= at && at + pat@.len() <= v@.len() && find_from(
                v@,
                pat@,
                from as int,
            ) == Some(at as int),
            None => find_from(v@, pat@, from as int) is None,
        },
{
    if pat.len() > v.len() {
        return None;
    }
    let last: usize = v.len() - pat.len();
    assert(v@.subrange(0, v@.len() as int) =~= v@);
    let mut i: usize = from;
    while i <= last
        invariant
            from <= i,
            last == v.len() - pat.len(),
            v@.subrange(0, v@.len() as int) == v@,
            find_from(v@, pat@, i as int) == find_from(v@, pat@, from as int),
        decreases last + 1 - i,
    {
        if matches_at(v, v.len(), pat, i) {
            return Some(i);
        }
        if i == last {
            assert(find_from(v@, pat@, i as int + 1) is None);
            return None;
        }
        i = i + 1;
    }
    None
}


/// Whether the text `v` equals `lit`.
pub fn chars_eq_str(v: &Vec<char>, lit: &str) -> (r: bool)
    ensures
        r == (v@ == lit@),
{
    let pat = chars_of(lit);
    chars_eq(v, &pat)
}

/// Whether the text `v` begins with `lit`.
pub fn chars_start_with_str(v: &Vec<char>, lit: &str) -> (r: bool)
    ensures
        r == starts_with(v@, lit@),
{
    let pat = chars_of(lit);
    chars_start_with(v, &pat)
}

// ---------------------------------------------------------------------------
// Sets of characters
// ---------------------------------------------------------------------------

/// A set of characters: the listed ones, and all white space if so marked.
pub struct CharSet {
    pub whitespace: bool,
    pub others: Vec<char>,
}

/// The mathematical value of a `CharSet`.
pub struct CharClass {
    pub whitespace: bool,
    pub others: Seq<char>,
}

impl CharClass {
    pub open spec fn has(self, c: char) -> bool {
        (self.whitespace && char_is_whitespace(c)) || self.others.contains(c)
    }
}

/// The class of white space.
pub open spec fn whitespace_class() -> CharClass {
    CharClass { whitespace: true, others: Seq::empty() }
}

/// The class of the characters of `listed`.
pub open spec fn class_of(listed: Seq<char>) -> CharClass {
    CharClass { whitespace: false, others: listed }
}

/// The class of white space and the characters of `listed`.
pub open spec fn whitespace_and(listed: Seq<char>) -> CharClass {
    CharClass { whitespace: true, others: listed }
}

impl View for CharSet {
    type V = CharClass;

    open spec fn view(&self) -> CharClass {
        CharClass { whitespace: self.whitespace, others: self.others@ }
    }
}

impl CharSet {

    /// The set of the characters of `listed`.
    pub fn of(listed: &str) -> (out: Self)
        ensures
            out@ == class_of(listed@),
    {
        CharSet { whitespace: false, others: chars_of(listed) }
    }

    /// The set of all white space and the characters of `listed`.
    pub fn whitespace_and(listed: &str) -> (out: Self)
        ensures
            out@ == whitespace_and(listed@),
    {
        CharSet { whitespace: true, others: chars_of(listed) }
    }

    pub fn contains(&self, c: char) -> (r: bool)
        ensures
            r == self@.has(c),
    {
        if self.whitespace && is_whitespace(c) {
            return true;
        }
        let mut i: usize = 0;
        while i < self.others.len()
            invariant
                i <= self.others.len(),
                forall|j: int| 0 <= j < i ==> self.others@[j] != c,
            decreases self.others.len() - i,
        {
            if self.others[i] == c {
                return true;
            }
            i = i + 1;
        }
        false
    }
}

/// `s` without the leading characters that are in `set`.
pub open spec fn trim_start_of(s: Seq<char>, set: CharClass) -> Seq<char>
    decreases s.len(),
{
    if s.len() > 0 && set.has(s[0]) {
        trim_start_of(s.drop_first(), set)
    } else {
        s
    }
}

/// `s` without the trailing characters that are in `set`.
pub open spec fn trim_end_of(s: Seq<char>, set: CharClass) -> Seq<char>
    decreases s.len(),
{
    if s.len() > 0 && set.has(s.last()) {
        trim_end_of(s.drop_last(), set)
    } else {
        s
    }
}

/// `s` without the characters of `set` at both ends, as `str::trim_matches`
/// gives it.
pub open spec fn trim_of(s: Seq<char>, set: CharClass) -> Seq<char> {
    trim_end_of(trim_start_of(s, set), set)
}

pub fn chars_trim_start_of(v: &Vec<char>, set: &CharSet) -> (out: Vec<char>)
    ensures
        out@ == trim_start_of(v@, set@),
{
    let mut at: usize = 0;
    assert(v@.subrange(0, v@.len() as int) =~= v@);
    while at < v.len() && set.contains(v[at])
        invariant
            at <= v.len(),
            trim_start_of(v@.subrange(at as int, v@.len() as int), set@) == trim_start_of(
                v@,
                set@,
            ),
        decreases v.len() - at,
    {
        assert(v@.subrange(at as int, v@.len() as int).drop_first() =~= v@.subrange(
            at as int + 1,
            v@.len() as int,
        ));
        at = at + 1;
    }
    slice_chars(v, at, v.len())
}

pub fn chars_trim_end_of(v: &Vec<char>, set: &CharSet) -> (out: Vec<char>)
    ensures
        out@ == trim_end_of(v@, set@),
{
    let mut at: usize = v.len();
    assert(v@.subrange(0, v@.len() as int) =~= v@);
    while at > 0 && set.contains(v[at - 1])
        invariant
            at <= v.len(),
            trim_end_of(v@.subrange(0, at as int), set@) == trim_end_of(v@, set@),
        decreases at,
    {
        assert(v@.subrange(0, at as int).drop_last() =~= v@.subrange(0, at as int - 1));
        at = at - 1;
    }
    slice_chars(v, 0, at)
}

pub fn chars_trim_of(v: &Vec<char>, set: &CharSet) -> (out: Vec<char>)
    ensures
        out@ == trim_of(v@, set@),
{
    let front = chars_trim_start_of(v, set);
    chars_trim_end_of(&front, set)
}

/// The first index at or after `from` at which `s` holds a character of `set`.
pub open spec fn first_of_from(s: Seq<char>, set: CharClass, from: int) -> Option<int>
    decreases s.len() - from,
{
    if from < 0 || from >= s.len() {
        None
    } else if set.has(s[from]) {
        Some(from)
    } else {
        first_of_from(s, set, from + 1)
    }
}

pub fn chars_first_of_from(v: &Vec<char>, set: &CharSet, from: usize) -> (r: Option<usize>)
    ensures
        match r {
            Some(at) => from <= at < v.len() && first_of_from(v@, set@, from as int) == Some(
                at as int,
            ),
            None => first_of_from(v@, set@, from as int) is None,
        },
{
    let mut i: usize = from;
    while i < v.len()
        invariant
            from <= i,
            first_of_from(v@, set@, i as int) == first_of_from(v@, set@, from as int),
        decreases v.len() - i,
    {
        if set.contains(v[i]) {
            return Some(i);
        }
        i = i + 1;
    }
    None
}

// ---------------------------------------------------------------------------
// Splitting
// ---------------------------------------------------------------------------

/// The view of a text that may be missing.
pub open spec fn opt_view(value: Option<&str>) -> Option<Seq<char>> {
    match value {
        Some(value) => Some(value@),
        None => None,
    }
}

/// The views of a list of strings.
pub open spec fn texts(parts: Seq<String>) -> Seq<Seq<char>> {
    Seq::new(parts.len(), |i: int| parts[i]@)
}

/// The views of a list of texts.
pub open spec fn views(pieces: Seq<Vec<char>>) -> Seq<Seq<char>> {
    Seq::new(pieces.len(), |i: int| pieces[i]@)
}

/// The pieces of `s` between the characters of `set`, as `str::split` gives
/// them: one more than there are separators, empty where two separators
/// meet or one stands at an end.
pub open spec fn split_by(s: Seq<char>, set: CharClass) -> Seq<Seq<char>>
    decreases s.len(),
{
    if s.len() == 0 {
        seq![Seq::empty()]
    } else {
        let front = split_by(s.drop_last(), set);
        if set.has(s.last()) {
            front.push(Seq::empty())
        } else {
            front.drop_last().push(front.last().push(s.last()))
        }
    }
}

pub fn chars_split_by(v: &Vec<char>, set: &CharSet) -> (pieces: Vec<Vec<char>>)
    ensures
        views(pieces@) == split_by(v@, set@),
        pieces@.len() >= 1,
{
    let mut done: Vec<Vec<char>> = Vec::new();
    let mut current: Vec<char> = Vec::new();
    let mut i: usize = 0;
    assert(views(done@).push(current@) =~= seq![Seq::<char>::empty()]);
    while i < v.len()
        invariant
            i <= v.len(),
            views(done@).push(current@) == split_by(v@.take(i as int), set@),
        decreases v.len() - i,
    {
        let c = v[i];
        let ghost before = views(done@).push(current@);
        assert(v@.take(i as int + 1).drop_last() =~= v@.take(i as int));
        if set.contains(c) {
            done.push(current);
            current = Vec::new();
            assert(views(done@).push(current@) =~= before.push(Seq::empty()));
        } else {
            current.push(c);
            assert(views(done@).push(current@) =~= before.drop_last().push(
                before.last().push(c),
            ));
        }
        i = i + 1;
    }
    assert(v@.take(i as int) =~= v@);
    let ghost all = views(done@).push(current@);
    done.push(current);
    assert(views(done@) =~= all);
    done
}

/// The pieces of `pieces` that are not empty, in order.
pub open spec fn nonempty_pieces(pieces: Seq<Seq<char>>) -> Seq<Seq<char>>
    decreases pieces.len(),
{
    if pieces.len() == 0 {
        pieces
    } else if pieces.last().len() > 0 {
        nonempty_pieces(pieces.drop_last()).push(pieces.last())
    } else {
        nonempty_pieces(pieces.drop_last())
    }
}

/// The words of `s`: its pieces between white space, without the empty
/// ones, as `str::split_whitespace` gives them.
pub open spec fn split_whitespace(s: Seq<char>) -> Seq<Seq<char>> {
    nonempty_pieces(split_by(s, whitespace_class()))
}

pub fn keep_nonempty(pieces: Vec<Vec<char>>) -> (kept: Vec<Vec<char>>)
    ensures
        views(kept@) == nonempty_pieces(views(pieces@)),
{
    let mut kept: Vec<Vec<char>> = Vec::new();
    let mut i: usize = 0;
    let ghost all = views(pieces@);
    assert(views(kept@) =~= nonempty_pieces(all.take(0))) by {
        assert(all.take(0) =~= Seq::<Seq<char>>::empty());
    }
    while i < pieces.len()
        invariant
            i <= pieces.len(),
            all == views(pieces@),
            views(kept@) == nonempty_pieces(all.take(i as int)),
        decreases pieces.len() - i,
    {
        let ghost before = views(kept@);
        assert(all.take(i as int + 1).drop_last() =~= all.take(i as int));
        if pieces[i].len() > 0 {
            let piece = pieces[i].clone();
            assert(piece@ =~= pieces@[i as int]@) by {
                assert(piece@.len() == pieces@[i as int]@.len());
            }
            kept.push(piece);
            assert(views(kept@) =~= before.push(all[i as int]));
        }
        i = i + 1;
    }
    assert(all.take(i as int) =~= all);
    kept
}

pub fn chars_split_whitespace(v: &Vec<char>) -> (words: Vec<Vec<char>>)
    ensures
        views(words@) == split_whitespace(v@),
{
    let set = CharSet { whitespace: true, others: Vec::new() };
    keep_nonempty(chars_split_by(v, &set))
}


// ---------------------------------------------------------------------------
// Lengths in bytes
// ---------------------------------------------------------------------------

/// The number of bytes that `c` takes in UTF-8, as `char::len_utf8` gives it.
pub open spec fn char_utf8_len(c: char) -> nat {
    if (c as u32) < 0x80 {
        1
    } else if (c as u32) < 0x800 {
        2
    } else if (c as u32) < 0x10000 {
        3
    } else {
        4
    }
}

/// The number of bytes that `s` takes in UTF-8, as `str::len` gives it.
pub open spec fn utf8_len(s: Seq<char>) -> nat
    decreases s.len(),
{
    if s.len() == 0 {
        0
    } else {
        utf8_len(s.drop_last()) + char_utf8_len(s.last())
    }
}

pub fn char_len_utf8(c: char) -> (n: usize)
    ensures
        n == char_utf8_len(c),
        1 <= n <= 4,
{
    let code: u32 = c as u32;
    if code < 0x80 {
        1
    } else if code < 0x800 {
        2
    } else if code < 0x10000 {
        3
    } else {
        4
    }
}

/// A text takes at least as many bytes as any of its beginnings.
pub proof fn lemma_utf8_len_grows(s: Seq<char>, n: int)
    requires
        0 <= n <= s.len(),
    ensures
        utf8_len(s.take(n)) <= utf8_len(s),
    decreases s.len() - n,
{
    if n == s.len() {
        assert(s.take(n) =~= s);
    } else {
        lemma_utf8_len_grows(s, n + 1);
        assert(s.take(n + 1).drop_last() =~= s.take(n));
    }
}

/// Whether `v` takes at most `max` bytes in UTF-8.
pub fn utf8_len_at_most(v: &Vec<char>, max: usize) -> (r: bool)
    ensures
        r == (utf8_len(v@) <= max),
{
    let mut total: usize = 0;
    let mut i: usize = 0;
    assert(v@.take(0) =~= Seq::<char>::empty());
    while i < v.len()
        invariant
            i <= v.len(),
            total == utf8_len(v@.take(i as int)),
            total <= max,
        decreases v.len() - i,
    {
        let width = char_len_utf8(v[i]);
        assert(v@.take(i as int + 1).drop_last() =~= v@.take(i as int));
        if width > max - total {
            proof {
                lemma_utf8_len_grows(v@, i as int + 1);
            }
            return false;
        }
        total = total + width;
        i = i + 1;
    }
    assert(v@.take(i as int) =~= v@);
    true
}


/// The bytes of a text are the bytes of its parts.
pub proof fn lemma_utf8_len_add(a: Seq<char>, b: Seq<char>)
    ensures
        utf8_len(a + b) == utf8_len(a) + utf8_len(b),
    decreases b.len(),
{
    if b.len() == 0 {
        assert(a + b =~= a);
    } else {
        lemma_utf8_len_add(a, b.drop_last());
        assert((a + b).drop_last() =~= a + b.drop_last());
    }
}

/// `utf8_len` counts the bytes of the UTF-8 encoding.
pub proof fn lemma_utf8_len_is_encoded_len(s: Seq<char>)
    ensures
        utf8_len(s) == vstd::utf8::encode_utf8(s).len(),
    decreases s.len(),
{
    if s.len() > 0 {
        let first = seq![s[0]];
        lemma_utf8_len_is_encoded_len(s.drop_first());
        lemma_utf8_len_add(first, s.drop_first());
        assert(first + s.drop_first() =~= s);
        assert(first.drop_last() =~= Seq::<char>::empty());
        assert(utf8_len(first.drop_last()) == 0);
        assert(utf8_len(first) == char_utf8_len(s[0]));
        vstd::utf8::char_is_scalar(s[0]);
    }
}

/// The number of bytes of `s`, which is what `str::len` gives.
pub fn str_utf8_len(s: &str) -> (n: usize)
    ensures
        n == utf8_len(s@),
{
    proof {
        lemma_utf8_len_is_encoded_len(s@);
    }
    s.as_bytes().len()
}


// ---------------------------------------------------------------------------
// Lines
// ---------------------------------------------------------------------------

/// `line` without one carriage return at its end.
pub open spec fn without_carriage_return(line: Seq<char>) -> Seq<char> {
    if line.len() > 0 && line.last() == '\r' {
        line.drop_last()
    } else {
        line
    }
}

/// The lines of `text`, as `str::lines` gives them: the pieces between
/// line feeds, each without a carriage return before its line feed; what
/// follows the last line feed is a line only if it is not empty.
pub open spec fn lines_of(text: Seq<char>) -> Seq<Seq<char>> {
    let pieces = split_by(text, class_of("\n"@));
    let ended = Seq::new(
        (pieces.len() - 1) as nat,
        |i: int| without_carriage_return(pieces[i]),
    );
    if pieces.last().len() > 0 {
        ended.push(pieces.last())
    } else {
        ended
    }
}

/// The lines of `text`.
pub fn chars_lines(text: &Vec<char>) -> (out: Vec<Vec<char>>)
    ensures
        views(out@) == lines_of(text@),
{
    let newline = CharSet::of("\n");
    let pieces = chars_split_by(text, &newline);
    let mut out: Vec<Vec<char>> = Vec::new();
    let last = pieces.len() - 1;
    let mut i: usize = 0;
    while i < last
        invariant
            i <= last,
            last == pieces@.len() - 1,
            out@.len() == i,
            forall|j: int|
                0 <= j < i ==> (#[trigger] out@[j])@ == without_carriage_return(
                    views(pieces@)[j],
                ),
        decreases last - i,
    {
        let piece = &pieces[i];
        assert(views(pieces@)[i as int] == piece@);
        let n = piece.len();
        let line = if n > 0 && piece[n - 1] == '\r' {
            slice_chars(piece, 0, n - 1)
        } else {
            slice_chars(piece, 0, n)
        };
        assert(line@ =~= without_carriage_return(piece@));
        out.push(line);
        i = i + 1;
    }
    assert(views(pieces@)[last as int] == pieces@[last as int]@);
    if pieces[last].len() > 0 {
        let piece = &pieces[last];
        let tail = slice_chars(piece, 0, piece.len());
        assert(tail@ =~= piece@);
        out.push(tail);
    }
    assert(views(out@) =~= lines_of(text@));
    out
}

} // verus!
