//! Character classes and string measures used by the dictionary rules.
use vstd::prelude::*;
use vstd::utf8::encode_utf8;
use vstd::utf8::encode_scalar;

verus! {

/// The Unicode `White_Space` property: the characters that `char::is_whitespace`
/// accepts and that `str::trim` removes.
pub open spec fn is_white_space(c: char) -> bool {
    let u = c as u32;
    ||| 0x09 <= u <= 0x0D
    ||| u == 0x20
    ||| u == 0x85
    ||| u == 0xA0
    ||| u == 0x1680
    ||| 0x2000 <= u <= 0x200A
    ||| u == 0x2028
    ||| u == 0x2029
    ||| u == 0x202F
    ||| u == 0x205F
    ||| u == 0x3000
}

/// ASCII letters and digits.
pub open spec fn is_ascii_alphanumeric(c: char) -> bool {
    let u = c as u32;
    ||| 0x30 <= u <= 0x39
    ||| 0x41 <= u <= 0x5A
    ||| 0x61 <= u <= 0x7A
}

/// Characters a dictionary type code may hold: ASCII letters and digits, `-`, `_` and `.`.
pub open spec fn is_code_char(c: char) -> bool {
    is_ascii_alphanumeric(c) || c == '-' || c == '_' || c == '.'
}

/// Index of the first character at or after `i` that is not white space.
pub open spec fn trim_start_index(s: Seq<char>, i: int) -> int
    decreases s.len() - i,
{
    if 0 <= i < s.len() && is_white_space(s[i]) {
        trim_start_index(s, i + 1)
    } else {
        i
    }
}

/// End (exclusive) of `s[lo..j]` once trailing white space is dropped.
pub open spec fn trim_end_index(s: Seq<char>, lo: int, j: int) -> int
    decreases j - lo,
{
    if lo < j && is_white_space(s[j - 1]) {
        trim_end_index(s, lo, j - 1)
    } else {
        j
    }
}

/// `s` with its leading and trailing white space removed.
pub open spec fn trimmed(s: Seq<char>) -> Seq<char> {
    let lo = trim_start_index(s, 0);
    s.subrange(lo, trim_end_index(s, lo, s.len() as int))
}

/// Number of bytes of the UTF-8 encoding of `s`, which is what `str::len` counts.
pub open spec fn byte_len(s: Seq<char>) -> nat {
    encode_utf8(s).len()
}

/// `s` holds `pattern` as a contiguous run.
pub open spec fn contains_seq(s: Seq<char>, pattern: Seq<char>) -> bool {
    exists|i: int| 0 <= i && i + pattern.len() <= s.len() && #[trigger] s.subrange(i, i + pattern.len()) == pattern
}

/// Executable `is_white_space`.
pub fn white_space(c: char) -> (r: bool)
    ensures
        r == is_white_space(c),
{
    let u = c as u32;
    (0x09 <= u && u <= 0x0D) || u == 0x20 || u == 0x85 || u == 0xA0 || u == 0x1680 || (0x2000 <= u
        && u <= 0x200A) || u == 0x2028 || u == 0x2029 || u == 0x202F || u == 0x205F || u == 0x3000
}

/// Executable `is_code_char`.
pub fn code_char(c: char) -> (r: bool)
    ensures
        r == is_code_char(c),
{
    let u = c as u32;
    (0x30 <= u && u <= 0x39) || (0x41 <= u && u <= 0x5A) || (0x61 <= u && u <= 0x7A) || c == '-'
        || c == '_' || c == '.'
}

/// The characters of `s`, in order.
pub fn chars_of(s: &str) -> (v: Vec<char>)
    ensures
        v@ == s@,
{
    let mut v: Vec<char> = Vec::new();
    for c in it: s.chars()
        invariant
            it.seq() == s@,
            v@ == it.seq().take(it.index() as int),
    {
        v.push(c);
        assert(v@ =~= it.seq().take(it.index() + 1));
    }
    assert(v@ =~= s@);
    v
}

proof fn lemma_trim_start_shape(s: Seq<char>, i: int)
    requires
        0 <= i <= s.len(),
    ensures
        i <= trim_start_index(s, i) <= s.len(),
        forall|k: int| i <= k < trim_start_index(s, i) ==> is_white_space(#[trigger] s[k]),
        trim_start_index(s, i) < s.len() ==> !is_white_space(s[trim_start_index(s, i)]),
    decreases s.len() - i,
{
    if i < s.len() && is_white_space(s[i]) {
        lemma_trim_start_shape(s, i + 1);
    }
}

proof fn lemma_trim_end_shape(s: Seq<char>, lo: int, j: int)
    requires
        0 <= lo <= j <= s.len(),
    ensures
        lo <= trim_end_index(s, lo, j) <= j,
        forall|k: int| trim_end_index(s, lo, j) <= k < j ==> is_white_space(#[trigger] s[k]),
        trim_end_index(s, lo, j) > lo ==> !is_white_space(s[trim_end_index(s, lo, j) - 1]),
    decreases j - lo,
{
    if lo < j && is_white_space(s[j - 1]) {
        lemma_trim_end_shape(s, lo, j - 1);
    }
}

/// What trimming leaves: a run of `s` whose first and last characters are not
/// white space, with only white space before and after it.
pub proof fn lemma_trimmed_shape(s: Seq<char>)
    ensures
        trimmed(s).len() <= s.len(),
        trimmed(s).len() > 0 ==> !is_white_space(trimmed(s)[0]) && !is_white_space(
            trimmed(s).last(),
        ),
        trimmed(s).len() == 0 ==> forall|k: int| 0 <= k < s.len() ==> is_white_space(#[trigger] s[k]),
{
    let lo = trim_start_index(s, 0);
    lemma_trim_start_shape(s, 0);
    lemma_trim_end_shape(s, lo, s.len() as int);
    let hi = trim_end_index(s, lo, s.len() as int);
    if hi == lo {
        assert forall|k: int| 0 <= k < s.len() implies is_white_space(#[trigger] s[k]) by {
            if k >= lo {
                assert(hi <= k);
            }
        }
    }
}

/// Trimming a trimmed string changes nothing.
pub proof fn law_trim_idempotent(s: Seq<char>)
    ensures
        trimmed(trimmed(s)) == trimmed(s),
{
    let t = trimmed(s);
    lemma_trimmed_shape(s);
    if t.len() > 0 {
        assert(trim_start_index(t, 0) == 0);
        assert(trim_end_index(t, 0, t.len() as int) == t.len());
    } else {
        assert(trim_start_index(t, 0) == 0);
        assert(trim_end_index(t, 0, 0) == 0);
    }
    assert(t.subrange(0, t.len() as int) =~= t);
}

proof fn lemma_trim_start_step(s: Seq<char>, i: int)
    requires
        0 <= i < s.len(),
        is_white_space(s[i]),
    ensures
        trim_start_index(s, i) == trim_start_index(s, i + 1),
{
}

/// Removes leading and trailing white space, as `str::trim` does.
pub fn trim(s: &str) -> (t: &str)
    ensures
        t@ == trimmed(s@),
{
    let cs = chars_of(s);
    let n = cs.len();
    let mut lo: usize = 0;
    proof {
        lemma_trim_start_shape(s@, 0);
    }
    while lo < n && white_space(cs[lo])
        invariant
            n == cs.len(),
            cs@ == s@,
            lo <= n,
            trim_start_index(s@, lo as int) == trim_start_index(s@, 0),
        decreases n - lo,
    {
        proof {
            lemma_trim_start_step(s@, lo as int);
        }
        lo = lo + 1;
    }
    assert(trim_start_index(s@, lo as int) == lo);
    let mut hi: usize = n;
    while lo < hi && white_space(cs[hi - 1])
        invariant
            n == cs.len(),
            cs@ == s@,
            lo <= hi <= n,
            trim_end_index(s@, lo as int, hi as int) == trim_end_index(s@, lo as int, n as int),
        decreases hi - lo,
    {
        hi = hi - 1;
    }
    s.substring_char(lo, hi)
}

/// An owned copy of `trim(s)`.
pub fn trimmed_string(s: &str) -> (r: String)
    ensures
        r@ == trimmed(s@),
{
    String::from_str(trim(s))
}

/// Number of characters of `s` (`chars().count()`).
pub fn char_count(s: &str) -> (n: usize)
    ensures
        n == s@.len(),
{
    s.unicode_len()
}

proof fn lemma_byte_len_step(s: Seq<char>, i: int)
    requires
        0 <= i < s.len(),
    ensures
        byte_len(s.skip(i)) == encode_scalar(s[i] as u32).len() + byte_len(s.skip(i + 1)),
{
    assert(s.skip(i).drop_first() =~= s.skip(i + 1));
}

/// Whether the UTF-8 byte length of `s` lies in `lo..=hi`.
pub fn byte_len_within(s: &Vec<char>, lo: usize, hi: usize) -> (r: bool)
    requires
        hi < usize::MAX - 4,
    ensures
        r == (lo <= byte_len(s@) <= hi),
{
    let n = s.len();
    let mut i: usize = 0;
    let mut acc: usize = 0;
    assert(s@.skip(0) =~= s@);
    while i < n
        invariant
            n == s@.len(),
            i <= n,
            acc <= hi,
            hi < usize::MAX - 4,
            byte_len(s@) == acc + byte_len(s@.skip(i as int)),
        decreases n - i,
    {
        let u = s[i] as u32;
        let w: usize = if u < 0x80 {
            1
        } else if u < 0x800 {
            2
        } else if u < 0x10000 {
            3
        } else {
            4
        };
        proof {
            lemma_byte_len_step(s@, i as int);
            vstd::utf8::char_is_scalar(s@[i as int]);
            assert(w == encode_scalar(s@[i as int] as u32).len());
        }
        acc = acc + w;
        i = i + 1;
        if acc > hi {
            return false;
        }
    }
    assert(s@.skip(n as int) =~= Seq::<char>::empty());
    lo <= acc
}

/// Whether every character of `s` satisfies `is_code_char`.
pub fn all_code_chars(s: &Vec<char>) -> (r: bool)
    ensures
        r == (forall|k: int| 0 <= k < s@.len() ==> is_code_char(#[trigger] s@[k])),
{
    let mut i: usize = 0;
    while i < s.len()
        invariant
            i <= s@.len(),
            forall|k: int| 0 <= k < i ==> is_code_char(#[trigger] s@[k]),
        decreases s@.len() - i,
    {
        if !code_char(s[i]) {
            return false;
        }
        i = i + 1;
    }
    true
}

} // verus!
