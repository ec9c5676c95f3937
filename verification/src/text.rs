//! Character-level helpers: trimming, case folding and conversions between
//! `str`/`String` and `Vec<char>`.

use vstd::prelude::*;

verus! {

/// Unicode `White_Space` code points (what `char::is_whitespace` accepts).
pub open spec fn is_ws(c: char) -> bool {
    let u = c as u32;
    ||| 0x09 <= u <= 0x0D
    ||| u == 0x20
    ||| u == 0x85
    ||| u == 0xA0
    ||| u == 0x1680
    ||| 0x2000 <= u <= 0x200A
    ||| u == 0x2028
    ||| u == 0x2029
    ||| u == 0x202F
    ||| u == 0x205F
    ||| u == 0x3000
}

/// Index of the first non-whitespace character at or after `i`.
pub open spec fn trim_start_index(s: Seq<char>, i: int) -> int
    decreases s.len() - i,
{
    if i >= s.len() || !is_ws(s[i]) {
        i
    } else {
        trim_start_index(s, i + 1)
    }
}

/// One past the index of the last non-whitespace character at or before `j - 1`.
pub open spec fn trim_end_index(s: Seq<char>, lo: int, j: int) -> int
    decreases j - lo,
{
    if j <= lo || !is_ws(s[j - 1]) {
        j
    } else {
        trim_end_index(s, lo, j - 1)
    }
}

/// `s` with leading and trailing whitespace removed (`str::trim`).
pub open spec fn trimmed(s: Seq<char>) -> Seq<char> {
    let lo = trim_start_index(s, 0);
    s.subrange(lo, trim_end_index(s, lo, s.len() as int))
}

/// ASCII lowercase of one character (`char::to_ascii_lowercase`).
pub open spec fn lower_char(c: char) -> char {
    if 'A' <= c <= 'Z' {
        ((c as u32) + 32) as char
    } else {
        c
    }
}

/// ASCII lowercase of a string (`str::to_ascii_lowercase`).
pub open spec fn ascii_lower(s: Seq<char>) -> Seq<char> {
    s.map_values(|c: char| lower_char(c))
}

pub fn is_whitespace(c: char) -> (r: bool)
    ensures
        r == is_ws(c),
{
    let u = c as u32;
    (0x09 <= u && u <= 0x0D) || u == 0x20 || u == 0x85 || u == 0xA0 || u == 0x1680 || (0x2000
        <= u && u <= 0x200A) || u == 0x2028 || u == 0x2029 || u == 0x202F || u == 0x205F || u
        == 0x3000
}

pub fn to_lower_char(c: char) -> (r: char)
    ensures
        r == lower_char(c),
{
    if 'A' <= c && c <= 'Z' {
        let b = (c as u8) + 32;
        b as char
    } else {
        c
    }
}

/// The characters of `s`, in order.
pub fn chars_of(s: &str) -> (v: Vec<char>)
    ensures
        v@ == s@,
{
    let mut v: Vec<char> = Vec::new();
    for c in it: s.chars()
        invariant
            v@ == it.seq().take(it.index() as int),
    {
        v.push(c);
    }
    v
}

/// `String::push`: `c` is appended to `s`.
#[verifier::external_body]
pub(crate) fn push_char(s: &mut String, c: char)
    ensures
        final(s)@ == old(s)@.push(c),
{
    s.push(c);
}

/// The string made of the characters `v[lo..hi]`.
pub fn string_from_chars(v: &Vec<char>, lo: usize, hi: usize) -> (s: String)
    requires
        lo <= hi <= v@.len(),
    ensures
        s@ == v@.subrange(lo as int, hi as int),
{
    let mut s = String::new();
    let mut i = lo;
    while i < hi
        invariant
            lo <= i <= hi <= v@.len(),
            s@ == v@.subrange(lo as int, i as int),
        decreases hi - i,
    {
        push_char(&mut s, v[i]);
        assert(v@.subrange(lo as int, i + 1) == v@.subrange(lo as int, i as int).push(v@[i as int]));
        i = i + 1;
    }
    s
}

proof fn lemma_trim_start(s: Seq<char>, i: int)
    requires
        0 <= i <= s.len(),
    ensures
        i <= trim_start_index(s, i) <= s.len(),
        forall|k: int| i <= k < trim_start_index(s, i) ==> is_ws(#[trigger] s[k]),
        trim_start_index(s, i) < s.len() ==> !is_ws(s[trim_start_index(s, i)]),
    decreases s.len() - i,
{
    if i < s.len() && is_ws(s[i]) {
        lemma_trim_start(s, i + 1);
    }
}

proof fn lemma_trim_end(s: Seq<char>, lo: int, j: int)
    requires
        0 <= lo <= j <= s.len(),
    ensures
        lo <= trim_end_index(s, lo, j) <= j,
        forall|k: int| trim_end_index(s, lo, j) <= k < j ==> is_ws(#[trigger] s[k]),
        trim_end_index(s, lo, j) > lo ==> !is_ws(s[trim_end_index(s, lo, j) - 1]),
    decreases j - lo,
{
    if j > lo && is_ws(s[j - 1]) {
        lemma_trim_end(s, lo, j - 1);
    }
}

/// `str::trim` followed by `to_string`.
pub fn trim_to_string(s: &str) -> (r: String)
    ensures
        r@ == trimmed(s@),
{
    let v = chars_of(s);
    let n = v.len();
    let mut lo: usize = 0;
    proof {
        lemma_trim_start(s@, 0);
    }
    while lo < n && is_whitespace(v[lo])
        invariant
            lo <= n == s@.len(),
            v@ == s@,
            trim_start_index(s@, lo as int) == trim_start_index(s@, 0),
        decreases n - lo,
    {
        lo = lo + 1;
    }
    let mut hi: usize = n;
    while hi > lo && is_whitespace(v[hi - 1])
        invariant
            lo <= hi <= n == s@.len(),
            v@ == s@,
            lo == trim_start_index(s@, 0),
            trim_end_index(s@, lo as int, hi as int) == trim_end_index(s@, lo as int, n as int),
        decreases hi,
    {
        hi = hi - 1;
    }
    string_from_chars(&v, lo, hi)
}

/// `str::to_ascii_lowercase` on a character vector.
pub fn lower_chars(v: &Vec<char>) -> (r: Vec<char>)
    ensures
        r@ == ascii_lower(v@),
{
    let mut r: Vec<char> = Vec::new();
    let mut i: usize = 0;
    while i < v.len()
        invariant
            i <= v@.len(),
            r@ == ascii_lower(v@.subrange(0, i as int)),
        decreases v.len() - i,
    {
        r.push(to_lower_char(v[i]));
        assert(ascii_lower(v@.subrange(0, i + 1)) == ascii_lower(v@.subrange(0, i as int)).push(
            lower_char(v@[i as int]),
        ));
        i = i + 1;
    }
    assert(v@.subrange(0, v@.len() as int) == v@);
    r
}

/// Trimming leaves a string alone when it starts and ends with a
/// non-whitespace character.
pub proof fn lemma_trim_noop(s: Seq<char>)
    requires
        s.len() > 0,
        !is_ws(s[0]),
        !is_ws(s[s.len() - 1]),
    ensures
        trimmed(s) == s,
{
    assert(trim_start_index(s, 0) == 0);
    assert(trim_end_index(s, 0, s.len() as int) == s.len());
    assert(s.subrange(0, s.len() as int) == s);
}

/// The decimal digit character for `d < 10`.
pub open spec fn digit_char(d: nat) -> char {
    (48 + d) as char
}

/// The decimal digits of a natural number, most significant first.
pub open spec fn digits(n: nat) -> Seq<char>
    decreases n,
{
    if n < 10 {
        seq![digit_char(n)]
    } else {
        digits(n / 10).push(digit_char(n % 10))
    }
}

/// The decimal text of an integer, with a leading `-` when negative.
pub open spec fn decimal(x: int) -> Seq<char> {
    if x < 0 {
        seq!['-'] + digits((-x) as nat)
    } else {
        digits(x as nat)
    }
}

/// The decimal digits of `n`, most significant first.
fn u64_digits(n: u64) -> (r: Vec<char>)
    ensures
        r@ == digits(n as nat),
    decreases n,
{
    let last: u8 = (n % 10) as u8;
    let c = (48u8 + last) as char;
    if n < 10 {
        vec![c]
    } else {
        let mut v = u64_digits(n / 10);
        v.push(c);
        v
    }
}

/// The decimal text of `x`, as `i64::to_string` writes it.
pub(crate) fn i64_to_string(x: i64) -> (r: String)
    ensures
        r@ == decimal(x as int),
{
    let magnitude: u64 = if x < 0 {
        if x == i64::MIN {
            9223372036854775808u64
        } else {
            (-x) as u64
        }
    } else {
        x as u64
    };
    let d = u64_digits(magnitude);
    let text = string_from_chars(&d, 0, d.len());
    assert(d@.subrange(0, d@.len() as int) == d@);
    if x < 0 {
        let minus = "-";
        proof {
            reveal_strlit("-");
        }
        String::from_str(minus).concat(text.as_str())
    } else {
        text
    }
}

/// Whether two strings hold the same characters.
pub fn str_eq(a: &str, b: &str) -> (r: bool)
    ensures
        r == (a@ == b@),
{
    let va = chars_of(a);
    let vb = chars_of(b);
    if va.len() != vb.len() {
        return false;
    }
    let mut i: usize = 0;
    while i < va.len()
        invariant
            va@ == a@,
            vb@ == b@,
            va@.len() == vb@.len(),
            i <= va@.len(),
            forall|j: int| 0 <= j < i ==> va@[j] == vb@[j],
        decreases va.len() - i,
    {
        if va[i] != vb[i] {
            return false;
        }
        i = i + 1;
    }
    assert(va@ =~= vb@);
    true
}

/// Whether `s` begins with `prefix` (`str::starts_with` for a string pattern).
pub fn starts_with(s: &str, prefix: &str) -> (r: bool)
    ensures
        r == (prefix@.len() <= s@.len() && s@.subrange(0, prefix@.len() as int) == prefix@),
{
    let vs = chars_of(s);
    let vp = chars_of(prefix);
    if vp.len() > vs.len() {
        return false;
    }
    let mut i: usize = 0;
    while i < vp.len()
        invariant
            vs@ == s@,
            vp@ == prefix@,
            vp@.len() <= vs@.len(),
            i <= vp@.len(),
            forall|j: int| 0 <= j < i ==> vs@[j] == vp@[j],
        decreases vp.len() - i,
    {
        if vs[i] != vp[i] {
            assert(s@.subrange(0, prefix@.len() as int)[i as int] != prefix@[i as int]);
            return false;
        }
        i = i + 1;
    }
    assert(s@.subrange(0, prefix@.len() as int) =~= prefix@);
    true
}

/// The text of an optional string.
pub open spec fn opt_text(o: Option<String>) -> Option<Seq<char>> {
    match o {
        Some(s) => Some(s@),
        None => None,
    }
}

} // verus!
