//! Character-sequence helpers shared by the parsers.
//!
//! All text processing in this crate works on `Seq<char>` views: a `&str` is
//! turned into a `Vec<char>` once, inspected by the verified helpers below,
//! and turned back into a `String` for the caller.
use vstd::prelude::*;

verus! {

// ---------------------------------------------------------------------------
// Conversions
// ---------------------------------------------------------------------------

/// Collects the characters of `s` in order.
pub fn to_chars(s: &str) -> (r: Vec<char>)
    ensures
        r@ == s@,
{
    let mut out: Vec<char> = Vec::new();
    for c in it: s.chars()
        invariant
            out@ == it.seq().take(it.index() as int),
            it.seq() == s@,
    {
        out.push(c);
    }
    out
}

/// Builds a `String` holding exactly the characters of `v`.
///
/// Calls std's `FromIterator<char>` for `String`; the claim is that the
/// collected string has the characters of the slice, in order.
#[verifier::external_body]
pub fn from_chars(v: &[char]) -> (r: String)
    ensures
        r@ == v@,
{
    v.iter().collect()
}

/// Copies `s[lo..hi]` into a new vector.
pub fn slice_of(s: &[char], lo: usize, hi: usize) -> (r: Vec<char>)
    requires
        lo <= hi <= s@.len(),
    ensures
        r@ == s@.subrange(lo as int, hi as int),
{
    let mut out: Vec<char> = Vec::new();
    let mut i = lo;
    while i < hi
        invariant
            lo <= i <= hi <= s@.len(),
            out@ == s@.subrange(lo as int, i as int),
        decreases hi - i,
    {
        out.push(s[i]);
        i = i + 1;
    }
    out
}

/// Appends the characters of `b` to `a`.
pub fn push_all(a: &mut Vec<char>, b: &[char])
    ensures
        final(a)@ == old(a)@ + b@,
{
    let mut i: usize = 0;
    while i < b.len()
        invariant
            i <= b@.len(),
            a@ == old(a)@ + b@.take(i as int),
        decreases b@.len() - i,
    {
        a.push(b[i]);
        i = i + 1;
        assert(b@.take(i as int) == b@.take((i - 1) as int).push(b@[i - 1]));
    }
    assert(b@.take(b@.len() as int) == b@);
}

/// Compares two character slices for equality.
pub fn chars_eq(a: &[char], b: &[char]) -> (r: bool)
    ensures
        r == (a@ == b@),
{
    if a.len() != b.len() {
        return false;
    }
    let mut i: usize = 0;
    while i < a.len()
        invariant
            a@.len() == b@.len(),
            i <= a@.len(),
            forall|j: int| 0 <= j < i ==> a@[j] == b@[j],
        decreases a@.len() - i,
    {
        if a[i] != b[i] {
            return false;
        }
        i = i + 1;
    }
    assert(a@ =~= b@);
    true
}

// ---------------------------------------------------------------------------
// Whitespace and trimming
// ---------------------------------------------------------------------------

/// Unicode `White_Space`, the set that `char::is_whitespace` tests.
pub open spec fn is_ws(c: char) -> bool {
    let u = c as u32;
    (9 <= u && u <= 13) || u == 32 || u == 0x85 || u == 0xA0 || u == 0x1680 || (0x2000 <= u && u
        <= 0x200A) || u == 0x2028 || u == 0x2029 || u == 0x202F || u == 0x205F || u == 0x3000
}

/// Tests whether `c` is Unicode whitespace.
pub fn is_whitespace(c: char) -> (r: bool)
    ensures
        r == is_ws(c),
{
    let u = c as u32;
    (9 <= u && u <= 13) || u == 32 || u == 0x85 || u == 0xA0 || u == 0x1680 || (0x2000 <= u && u
        <= 0x200A) || u == 0x2028 || u == 0x2029 || u == 0x202F || u == 0x205F || u == 0x3000
}

/// First index at or after `i` that does not hold whitespace.
pub open spec fn ws_prefix_end(s: Seq<char>, i: int) -> int
    decreases s.len() - i,
{
    if 0 <= i < s.len() && is_ws(s[i]) {
        ws_prefix_end(s, i + 1)
    } else {
        i
    }
}

/// Smallest `k` with `lo <= k <= j` such that `s[k..j]` is all whitespace,
/// scanning backwards from `j`.
pub open spec fn ws_suffix_start(s: Seq<char>, lo: int, j: int) -> int
    decreases j - lo,
{
    if lo < j && j <= s.len() && is_ws(s[j - 1]) {
        ws_suffix_start(s, lo, j - 1)
    } else {
        j
    }
}

/// `s` with leading and trailing whitespace removed (`str::trim`).
pub open spec fn trim(s: Seq<char>) -> Seq<char> {
    let a = ws_prefix_end(s, 0);
    s.subrange(a, ws_suffix_start(s, a, s.len() as int))
}

pub proof fn lemma_ws_prefix_end_bounds(s: Seq<char>, i: int)
    requires
        0 <= i <= s.len(),
    ensures
        i <= ws_prefix_end(s, i) <= s.len(),
        forall|k: int| i <= k < ws_prefix_end(s, i) ==> is_ws(#[trigger] s[k]),
        ws_prefix_end(s, i) < s.len() ==> !is_ws(s[ws_prefix_end(s, i)]),
    decreases s.len() - i,
{
    if i < s.len() && is_ws(s[i]) {
        lemma_ws_prefix_end_bounds(s, i + 1);
    }
}

pub proof fn lemma_ws_suffix_start_bounds(s: Seq<char>, lo: int, j: int)
    requires
        0 <= lo <= j <= s.len(),
    ensures
        lo <= ws_suffix_start(s, lo, j) <= j,
        forall|k: int| ws_suffix_start(s, lo, j) <= k < j ==> is_ws(#[trigger] s[k]),
        ws_suffix_start(s, lo, j) > lo ==> !is_ws(s[ws_suffix_start(s, lo, j) - 1]),
    decreases j - lo,
{
    if lo < j && is_ws(s[j - 1]) {
        lemma_ws_suffix_start_bounds(s, lo, j - 1);
    }
}

/// Trimming a sequence made of an all-whitespace prefix `w1`, a core `x`
/// whose ends are not whitespace, and an all-whitespace suffix `w2`
/// yields `x`.
pub proof fn lemma_trim_padded(w1: Seq<char>, x: Seq<char>, w2: Seq<char>)
    requires
        forall|k: int| 0 <= k < w1.len() ==> is_ws(#[trigger] w1[k]),
        forall|k: int| 0 <= k < w2.len() ==> is_ws(#[trigger] w2[k]),
        x.len() > 0,
        !is_ws(x[0]),
        !is_ws(x.last()),
    ensures
        trim(w1 + x + w2) == x,
{
    let s = w1 + x + w2;
    let a = w1.len() as int;
    let b = a + x.len();
    lemma_prefix_end_at(s, 0, a);
    lemma_suffix_start_at(s, a, s.len() as int, b);
    assert(s.subrange(a, b) =~= x);
}

/// `ws_prefix_end` stops exactly at `a` when `s[i..a]` is whitespace and
/// `s[a]` is not.
pub proof fn lemma_prefix_end_at(s: Seq<char>, i: int, a: int)
    requires
        0 <= i <= a < s.len(),
        forall|k: int| i <= k < a ==> is_ws(#[trigger] s[k]),
        !is_ws(s[a]),
    ensures
        ws_prefix_end(s, i) == a,
    decreases a - i,
{
    if i < a {
        lemma_prefix_end_at(s, i + 1, a);
    }
}

/// `ws_suffix_start` stops exactly at `b` when `s[b..j]` is whitespace and
/// `s[b - 1]` is not.
pub proof fn lemma_suffix_start_at(s: Seq<char>, lo: int, j: int, b: int)
    requires
        0 <= lo < b <= j <= s.len(),
        forall|k: int| b <= k < j ==> is_ws(#[trigger] s[k]),
        !is_ws(s[b - 1]),
    ensures
        ws_suffix_start(s, lo, j) == b,
    decreases j - b,
{
    if b < j {
        lemma_suffix_start_at(s, lo, j - 1, b);
    }
}

/// A sequence whose ends are not whitespace (or that is empty) is its own trim.
pub proof fn lemma_trim_noop(x: Seq<char>)
    requires
        x.len() > 0 ==> !is_ws(x[0]) && !is_ws(x.last()),
    ensures
        trim(x) == x,
{
    if x.len() == 0 {
        assert(trim(x) =~= x);
    } else {
        let e: Seq<char> = Seq::empty();
        lemma_trim_padded(e, x, e);
        assert(e + x + e =~= x);
    }
}

/// The trim of a sequence with no whitespace characters at all is itself.
pub proof fn lemma_trim_no_ws(x: Seq<char>)
    requires
        forall|k: int| 0 <= k < x.len() ==> !is_ws(#[trigger] x[k]),
    ensures
        trim(x) == x,
{
    if x.len() > 0 {
        assert(!is_ws(x[x.len() - 1]));
    }
    lemma_trim_noop(x);
}

/// The trim of a sequence is empty or has non-whitespace ends.
pub proof fn lemma_trim_ends(s: Seq<char>)
    ensures
        trim(s).len() > 0 ==> !is_ws(trim(s)[0]) && !is_ws(trim(s).last()),
        trim(s).len() <= s.len(),
{
    lemma_ws_prefix_end_bounds(s, 0);
    let a = ws_prefix_end(s, 0);
    lemma_ws_suffix_start_bounds(s, a, s.len() as int);
}

/// Trimming twice is trimming once.
pub proof fn lemma_trim_idempotent(s: Seq<char>)
    ensures
        trim(trim(s)) == trim(s),
{
    lemma_trim_ends(s);
    lemma_trim_noop(trim(s));
}

/// Returns `trim(s)` (`str::trim`).
pub fn trim_chars(s: &[char]) -> (r: Vec<char>)
    ensures
        r@ == trim(s@),
{
    let mut a: usize = 0;
    while a < s.len() && is_whitespace(s[a])
        invariant
            a <= s@.len(),
            ws_prefix_end(s@, a as int) == ws_prefix_end(s@, 0),
        decreases s@.len() - a,
    {
        a = a + 1;
    }
    let mut b: usize = s.len();
    while b > a && is_whitespace(s[b - 1])
        invariant
            a <= b <= s@.len(),
            a == ws_prefix_end(s@, 0),
            ws_suffix_start(s@, a as int, b as int) == ws_suffix_start(s@, a as int, s@.len() as int),
        decreases b - a,
    {
        b = b - 1;
    }
    slice_of(s, a, b)
}

// ---------------------------------------------------------------------------
// Searching
// ---------------------------------------------------------------------------

/// `pat` occurs in `s` starting at index `i`.
pub open spec fn matches_at(s: Seq<char>, pat: Seq<char>, i: int) -> bool {
    0 <= i && i + pat.len() <= s.len() && s.subrange(i, i + pat.len()) == pat
}

/// The first index `>= i` where `pat` occurs in `s` (`str::find` from `i`).
pub open spec fn find_from(s: Seq<char>, pat: Seq<char>, i: int) -> Option<int>
    decreases s.len() + 1 - i,
{
    if i < 0 || i + pat.len() > s.len() {
        None
    } else if matches_at(s, pat, i) {
        Some(i)
    } else {
        find_from(s, pat, i + 1)
    }
}

/// `pat` occurs somewhere in `s` (`str::contains`).
pub open spec fn contains(s: Seq<char>, pat: Seq<char>) -> bool {
    find_from(s, pat, 0) is Some
}

pub proof fn lemma_find_from_props(s: Seq<char>, pat: Seq<char>, i: int)
    requires
        0 <= i,
    ensures
        match find_from(s, pat, i) {
            Some(k) => i <= k && matches_at(s, pat, k) && forall|j: int|
                i <= j < k ==> !matches_at(s, pat, j),
            None => forall|j: int| i <= j ==> !matches_at(s, pat, j),
        },
    decreases s.len() + 1 - i,
{
    if i + pat.len() > s.len() {
    } else if matches_at(s, pat, i) {
    } else {
        lemma_find_from_props(s, pat, i + 1);
    }
}

/// If `pat` does not occur in `[i, k)` then searching from `i` is searching from `k`.
pub proof fn lemma_find_from_skip(s: Seq<char>, pat: Seq<char>, i: int, k: int)
    requires
        0 <= i <= k,
        forall|j: int| i <= j < k ==> !matches_at(s, pat, j),
    ensures
        find_from(s, pat, i) == find_from(s, pat, k),
    decreases k - i,
{
    if i < k {
        if i + pat.len() > s.len() {
            lemma_find_none_beyond(s, pat, k);
        } else {
            lemma_find_from_skip(s, pat, i + 1, k);
        }
    }
}

proof fn lemma_find_none_beyond(s: Seq<char>, pat: Seq<char>, k: int)
    requires
        0 <= k,
        k + pat.len() > s.len(),
    ensures
        find_from(s, pat, k) is None,
{
}



/// Tests whether `pat` occurs in `s` at index `i`.
pub fn matches_at_exec(s: &[char], pat: &[char], i: usize) -> (r: bool)
    ensures
        r == matches_at(s@, pat@, i as int),
{
    if i > s.len() || pat.len() > s.len() - i {
        return false;
    }
    let end = i + pat.len();
    let mut k: usize = 0;
    while k < pat.len()
        invariant
            end == i + pat@.len(),
            end <= s@.len(),
            i + pat@.len() <= s@.len(),
            k <= pat@.len(),
            forall|j: int| 0 <= j < k ==> s@[i + j] == pat@[j],
        decreases pat@.len() - k,
    {
        if s[i + k] != pat[k] {
            assert(s@.subrange(i as int, i + pat@.len())[k as int] != pat@[k as int]);
            return false;
        }
        k = k + 1;
    }
    assert(s@.subrange(i as int, i + pat@.len()) =~= pat@);
    true
}

/// Returns `find_from(s, pat, from)`.
pub fn find_exec(s: &[char], pat: &[char], from: usize) -> (r: Option<usize>)
    ensures
        r matches Some(k) ==> find_from(s@, pat@, from as int) == Some(k as int),
        r is None ==> find_from(s@, pat@, from as int) is None,
{
    if from > s.len() {
        return None;
    }
    let mut i = from;
    loop
        invariant
            from <= i <= s@.len(),
            find_from(s@, pat@, from as int) == find_from(s@, pat@, i as int),
        decreases s@.len() - i,
    {
        if pat.len() > s.len() - i {
            return None;
        }
        if matches_at_exec(s, pat, i) {
            return Some(i);
        }
        if i == s.len() {
            assert(find_from(s@, pat@, i as int + 1) is None);
            return None;
        }
        i = i + 1;
    }
}

/// Tests whether `pat` occurs in `s` (`str::contains`).
pub fn contains_exec(s: &[char], pat: &[char]) -> (r: bool)
    ensures
        r == contains(s@, pat@),
{
    find_exec(s, pat, 0).is_some()
}

/// `s` starts with `pat` (`str::starts_with`).
pub open spec fn starts_with(s: Seq<char>, pat: Seq<char>) -> bool {
    pat.len() <= s.len() && s.take(pat.len() as int) == pat
}

/// Tests whether `s` starts with `pat`.
pub fn starts_with_exec(s: &[char], pat: &[char]) -> (r: bool)
    ensures
        r == starts_with(s@, pat@),
{
    let r = matches_at_exec(s, pat, 0);
    assert(s@.subrange(0, pat@.len() as int) == s@.take(pat@.len() as int));
    r
}

/// The first index `>= i` at which `s` holds `c`.
pub open spec fn find_char_from(s: Seq<char>, c: char, i: int) -> Option<int>
    decreases s.len() - i,
{
    if i < 0 || i >= s.len() {
        None
    } else if s[i] == c {
        Some(i)
    } else {
        find_char_from(s, c, i + 1)
    }
}


pub proof fn lemma_find_char_props(s: Seq<char>, c: char, i: int)
    requires
        0 <= i,
    ensures
        match find_char_from(s, c, i) {
            Some(k) => i <= k < s.len() && s[k] == c && forall|j: int| i <= j < k ==> s[j] != c,
            None => forall|j: int| i <= j < s.len() ==> s[j] != c,
        },
    decreases s.len() - i,
{
    if i < s.len() && s[i] != c {
        lemma_find_char_props(s, c, i + 1);
    }
}

/// Characterises `find_char_from` by the first occurrence.
pub proof fn lemma_find_char_is(s: Seq<char>, c: char, i: int, k: int)
    requires
        0 <= i <= k < s.len(),
        s[k] == c,
        forall|j: int| i <= j < k ==> s[j] != c,
    ensures
        find_char_from(s, c, i) == Some(k),
    decreases k - i,
{
    if i < k {
        lemma_find_char_is(s, c, i + 1, k);
    }
}

/// Characterises `find_char_from` returning `None`.
pub proof fn lemma_find_char_none(s: Seq<char>, c: char, i: int)
    requires
        0 <= i,
        forall|j: int| i <= j < s.len() ==> s[j] != c,
    ensures
        find_char_from(s, c, i) is None,
    decreases s.len() - i,
{
    if i < s.len() {
        lemma_find_char_none(s, c, i + 1);
    }
}

/// Returns `find_char_from(s, c, from)`.
pub fn find_char_exec(s: &[char], c: char, from: usize) -> (r: Option<usize>)
    ensures
        r matches Some(k) ==> find_char_from(s@, c, from as int) == Some(k as int),
        r is None ==> find_char_from(s@, c, from as int) is None,
{
    let mut i = from;
    while i < s.len()
        invariant
            from <= i,
            find_char_from(s@, c, from as int) == find_char_from(s@, c, i as int),
        decreases s@.len() - i,
    {
        if s[i] == c {
            return Some(i);
        }
        i = i + 1;
    }
    None
}

/// Splits at the first `c` (`str::split_once` with a `char`).
pub open spec fn split_once(s: Seq<char>, c: char) -> Option<(Seq<char>, Seq<char>)> {
    match find_char_from(s, c, 0) {
        Some(k) => Some((s.take(k), s.skip(k + 1))),
        None => None,
    }
}

/// Returns `split_once(s, c)`.
pub fn split_once_exec(s: &[char], c: char) -> (r: Option<(Vec<char>, Vec<char>)>)
    ensures
        match split_once(s@, c) {
            Some((a, b)) => r matches Some(p) && p.0@ == a && p.1@ == b,
            None => r is None,
        },
{
    match find_char_exec(s, c, 0) {
        Some(k) => {
            proof {
                lemma_find_char_props(s@, c, 0);
            }
            let n = s.len();
            assert(k < n);
            Some((slice_of(s, 0, k), slice_of(s, k + 1, n)))
        },
        None => None,
    }
}

// ---------------------------------------------------------------------------
// ASCII case
// ---------------------------------------------------------------------------

/// `c.to_ascii_lowercase()`.
pub open spec fn ascii_lower(c: char) -> char {
    if 'A' <= c <= 'Z' {
        ((c as u32) + 32) as char
    } else {
        c
    }
}

/// `s.to_ascii_lowercase()`.
pub open spec fn lower(s: Seq<char>) -> Seq<char> {
    s.map_values(|c: char| ascii_lower(c))
}

/// Returns `ascii_lower(c)`.
pub fn ascii_lower_exec(c: char) -> (r: char)
    ensures
        r == ascii_lower(c),
{
    if 'A' <= c && c <= 'Z' {
        let u = (c as u8) + 32;
        let r = u as char;
        assert(r == ((c as u32) + 32) as char);
        r
    } else {
        c
    }
}

/// Returns `lower(s)` (`str::to_ascii_lowercase`).
pub fn lower_exec(s: &[char]) -> (r: Vec<char>)
    ensures
        r@ == lower(s@),
{
    let mut out: Vec<char> = Vec::new();
    let mut i: usize = 0;
    while i < s.len()
        invariant
            i <= s@.len(),
            out@ == lower(s@.take(i as int)),
        decreases s@.len() - i,
    {
        out.push(ascii_lower_exec(s[i]));
        i = i + 1;
        assert(lower(s@.take(i as int)) =~= lower(s@.take((i - 1) as int)).push(ascii_lower(s@[i - 1])));
    }
    assert(s@.take(s@.len() as int) == s@);
    out
}

// ---------------------------------------------------------------------------
// Decimal numbers
// ---------------------------------------------------------------------------

/// The decimal digit character for `d < 10`.
pub open spec fn digit(d: nat) -> char {
    if d == 0 { '0' }
    else if d == 1 { '1' }
    else if d == 2 { '2' }
    else if d == 3 { '3' }
    else if d == 4 { '4' }
    else if d == 5 { '5' }
    else if d == 6 { '6' }
    else if d == 7 { '7' }
    else if d == 8 { '8' }
    else { '9' }
}

/// The decimal representation of `n` (what `{}` prints for an unsigned integer).
pub open spec fn decimal(n: nat) -> Seq<char>
    decreases n,
{
    if n < 10 {
        seq![digit(n)]
    } else {
        decimal(n / 10).push(digit(n % 10))
    }
}

fn digit_exec(d: u64) -> (r: char)
    requires
        d < 10,
    ensures
        r == digit(d as nat),
{
    match d {
        0 => '0',
        1 => '1',
        2 => '2',
        3 => '3',
        4 => '4',
        5 => '5',
        6 => '6',
        7 => '7',
        8 => '8',
        _ => '9',
    }
}

/// Returns `decimal(n)`.
pub fn decimal_chars(n: u64) -> (r: Vec<char>)
    ensures
        r@ == decimal(n as nat),
    decreases n,
{
    if n < 10 {
        let mut v: Vec<char> = Vec::new();
        v.push(digit_exec(n));
        assert(v@ =~= seq![digit(n as nat)]);
        v
    } else {
        let mut v = decimal_chars(n / 10);
        v.push(digit_exec(n % 10));
        v
    }
}

/// The decimal representation of `n` as a `String`.
pub fn decimal_string(n: u64) -> (r: String)
    ensures
        r@ == decimal(n as nat),
{
    let v = decimal_chars(n);
    from_chars(&v)
}


// ---------------------------------------------------------------------------
// Joining and formatting
// ---------------------------------------------------------------------------

/// `parts` joined with `sep` between consecutive elements (`[T]::join`).
pub open spec fn join(parts: Seq<Seq<char>>, sep: Seq<char>) -> Seq<char>
    decreases parts.len(),
{
    if parts.len() == 0 {
        Seq::empty()
    } else if parts.len() == 1 {
        parts[0]
    } else {
        join(parts.drop_last(), sep) + sep + parts.last()
    }
}

/// What `format!("{:?}", s)` prints for a string slice.
pub uninterp spec fn debug_str(s: Seq<char>) -> Seq<char>;

/// Formats `s` with its `Debug` impl (quoted, with escapes).
///
/// Calls std's `<str as Debug>::fmt`; the result is named `debug_str` of
/// the characters, nothing more is claimed about it.
#[verifier::external_body]
pub fn debug_quoted(s: &str) -> (r: String)
    ensures
        r@ == debug_str(s@),
{
    format!("{:?}", s)
}

/// A new `String` holding `s`.
pub fn string_of(s: &str) -> (r: String)
    ensures
        r@ == s@,
{
    String::from_str(s)
}

/// `a` followed by `b`.
pub fn cat(a: String, b: &str) -> (r: String)
    ensures
        r@ == a@ + b@,
{
    let mut a = a;
    a.append(b);
    a
}


// ---------------------------------------------------------------------------
// Integer parsing
// ---------------------------------------------------------------------------

/// An ASCII decimal digit.
pub open spec fn is_digit(c: char) -> bool {
    '0' <= c <= '9'
}

/// Every character of `s` is an ASCII decimal digit.
pub open spec fn all_digits(s: Seq<char>) -> bool {
    forall|i: int| 0 <= i < s.len() ==> is_digit(#[trigger] s[i])
}

/// The number a string of decimal digits denotes.
pub open spec fn digits_value(s: Seq<char>) -> nat
    decreases s.len(),
{
    if s.len() == 0 {
        0
    } else {
        digits_value(s.drop_last()) * 10 + ((s.last() as int) - ('0' as int)) as nat
    }
}

/// `s` without one leading `+` (and, when `signed`, without one leading `-`).
pub open spec fn unsigned_part(s: Seq<char>, signed: bool) -> Seq<char> {
    if s.len() > 0 && (s[0] == '+' || (signed && s[0] == '-')) {
        s.drop_first()
    } else {
        s
    }
}

/// `s.parse::<u64>()`: an optional `+`, then one or more ASCII digits whose
/// value fits in 64 bits.
pub open spec fn parse_u64(s: Seq<char>) -> Option<u64> {
    let d = unsigned_part(s, false);
    if d.len() > 0 && all_digits(d) && digits_value(d) <= u64::MAX {
        Some(digits_value(d) as u64)
    } else {
        None
    }
}

/// `s.parse::<i32>()`: an optional sign, then one or more ASCII digits whose
/// signed value fits in 32 bits.
pub open spec fn parse_i32(s: Seq<char>) -> Option<i32> {
    let d = unsigned_part(s, true);
    let negative = s.len() > 0 && s[0] == '-';
    if d.len() == 0 || !all_digits(d) {
        None
    } else if negative {
        if digits_value(d) <= 0x8000_0000 {
            Some((0 - digits_value(d)) as i32)
        } else {
            None
        }
    } else if digits_value(d) <= 0x7fff_ffff {
        Some(digits_value(d) as i32)
    } else {
        None
    }
}

/// The value of the digits `s[from..]`, saturated at `cap`, when they are all
/// digits; `None` when one is not.
fn digits_capped(s: &[char], from: usize, cap: u128) -> (r: Option<u128>)
    requires
        from <= s@.len(),
        cap <= 0x1_0000_0000_0000_0000,
    ensures
        r is Some <==> all_digits(s@.skip(from as int)),
        r matches Some(v) ==> v == (if digits_value(s@.skip(from as int)) < cap {
            digits_value(s@.skip(from as int))
        } else {
            cap as nat
        }),
{
    let mut acc: u128 = 0;
    let mut i: usize = from;
    while i < s.len()
        invariant
            from <= i <= s@.len(),
            cap <= 0x1_0000_0000_0000_0000,
            all_digits(s@.subrange(from as int, i as int)),
            acc == (if digits_value(s@.subrange(from as int, i as int)) < cap {
                digits_value(s@.subrange(from as int, i as int))
            } else {
                cap as nat
            }),
        decreases s@.len() - i,
    {
        let c = s[i];
        let ghost before = s@.subrange(from as int, i as int);
        let ghost after = s@.subrange(from as int, i + 1);
        if !('0' <= c && c <= '9') {
            proof {
                assert(s@.skip(from as int)[i - from] == c);
            }
            return None;
        }
        proof {
            assert(after.drop_last() =~= before);
            assert(after.last() == c);
            assert forall|k: int| 0 <= k < after.len() implies is_digit(#[trigger] after[k]) by {
                if k < before.len() {
                    assert(after[k] == before[k]);
                }
            }
        }
        let d: u128 = ((c as u32) - ('0' as u32)) as u128;
        let next: u128 = acc * 10 + d;
        acc = if next < cap { next } else { cap };
        i = i + 1;
    }
    proof {
        assert(s@.subrange(from as int, s@.len() as int) =~= s@.skip(from as int));
    }
    Some(acc)
}

/// Returns `parse_u64(s)` (`str::parse::<u64>`).
pub fn parse_u64_exec(s: &[char]) -> (r: Option<u64>)
    ensures
        r == parse_u64(s@),
{
    let from: usize = if s.len() > 0 && s[0] == '+' { 1 } else { 0 };
    proof {
        assert(s@.skip(from as int) =~= unsigned_part(s@, false));
    }
    if from == s.len() {
        return None;
    }
    match digits_capped(s, from, 0x1_0000_0000_0000_0000) {
        None => None,
        Some(v) => {
            if v < 0x1_0000_0000_0000_0000 {
                Some(v as u64)
            } else {
                None
            }
        },
    }
}

/// Returns `parse_i32(s)` (`str::parse::<i32>`).
pub fn parse_i32_exec(s: &[char]) -> (r: Option<i32>)
    ensures
        r == parse_i32(s@),
{
    let negative = s.len() > 0 && s[0] == '-';
    let from: usize = if s.len() > 0 && (s[0] == '+' || s[0] == '-') { 1 } else { 0 };
    proof {
        assert(s@.skip(from as int) =~= unsigned_part(s@, true));
    }
    if from == s.len() {
        return None;
    }
    match digits_capped(s, from, 0x1_0000_0000) {
        None => None,
        Some(v) => {
            if negative {
                if v <= 0x8000_0000 {
                    let w: i64 = 0 - (v as i64);
                    Some(w as i32)
                } else {
                    None
                }
            } else if v <= 0x7fff_ffff {
                Some(v as i32)
            } else {
                None
            }
        },
    }
}


/// The code point of a character.
pub open spec fn code(c: char) -> int {
    c as int
}

/// `a` comes before `b` in code point order (`char`'s `<`).
pub fn char_below(a: char, b: char) -> (r: bool)
    ensures
        r == (code(a) < code(b)),
{
    (a as u32) < (b as u32)
}


// ---------------------------------------------------------------------------
// Stripping repeated characters
// ---------------------------------------------------------------------------

/// `s` with every leading `c` removed (`str::trim_start_matches` of a char).
pub open spec fn strip_leading(s: Seq<char>, c: char) -> Seq<char>
    decreases s.len(),
{
    if s.len() > 0 && s[0] == c {
        strip_leading(s.drop_first(), c)
    } else {
        s
    }
}

/// `s` with every trailing `c` removed (`str::trim_end_matches` of a char).
pub open spec fn strip_trailing(s: Seq<char>, c: char) -> Seq<char>
    decreases s.len(),
{
    if s.len() > 0 && s.last() == c {
        strip_trailing(s.drop_last(), c)
    } else {
        s
    }
}

/// `s` with `c` removed from both ends (`str::trim_matches` of a char).
pub open spec fn strip_both(s: Seq<char>, c: char) -> Seq<char> {
    strip_trailing(strip_leading(s, c), c)
}

/// Returns `strip_leading(s, c)`.
pub fn strip_leading_exec(s: &[char], c: char) -> (r: Vec<char>)
    ensures
        r@ == strip_leading(s@, c),
{
    let mut start: usize = 0;
    proof {
        assert(s@.skip(0) =~= s@);
    }
    while start < s.len() && s[start] == c
        invariant
            start <= s@.len(),
            strip_leading(s@.skip(start as int), c) == strip_leading(s@, c),
        decreases s@.len() - start,
    {
        proof {
            assert(s@.skip(start as int).drop_first() =~= s@.skip(start + 1));
        }
        start = start + 1;
    }
    let n = s.len();
    let r = slice_of(s, start, n);
    proof {
        assert(r@ =~= s@.skip(start as int));
    }
    r
}

/// Returns `strip_trailing(s, c)`.
pub fn strip_trailing_exec(s: &[char], c: char) -> (r: Vec<char>)
    ensures
        r@ == strip_trailing(s@, c),
{
    let mut end: usize = s.len();
    proof {
        assert(s@.take(s@.len() as int) =~= s@);
    }
    while end > 0 && s[end - 1] == c
        invariant
            end <= s@.len(),
            strip_trailing(s@.take(end as int), c) == strip_trailing(s@, c),
        decreases end,
    {
        proof {
            assert(s@.take(end as int).drop_last() =~= s@.take(end - 1));
        }
        end = end - 1;
    }
    slice_of(s, 0, end)
}

/// Returns `strip_both(s, c)`.
pub fn strip_both_exec(s: &[char], c: char) -> (r: Vec<char>)
    ensures
        r@ == strip_both(s@, c),
{
    let a = strip_leading_exec(s, c);
    strip_trailing_exec(&a, c)
}

} // verus!
