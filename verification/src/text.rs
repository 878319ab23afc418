//! Character classes and trimming of text, as `char` and `str` define them.
use vstd::prelude::*;

verus! {

/// `char::is_control`: the code point has the Unicode general category Cc,
/// that is U+0000..=U+001F or U+007F..=U+009F.
pub open spec fn spec_is_control(c: char) -> bool {
    (c as u32) <= 0x1F || (0x7F <= (c as u32) && (c as u32) <= 0x9F)
}

/// `char::is_whitespace`: the code point has the Unicode property White_Space.
pub open spec fn spec_is_whitespace(c: char) -> bool {
    let u = c as u32;
    ||| (0x09 <= u && u <= 0x0D)
    ||| u == 0x20
    ||| u == 0x85
    ||| u == 0xA0
    ||| u == 0x1680
    ||| (0x2000 <= u && u <= 0x200A)
    ||| u == 0x2028
    ||| u == 0x2029
    ||| u == 0x202F
    ||| u == 0x205F
    ||| u == 0x3000
}

/// The sequence without its leading whitespace.
pub open spec fn spec_trim_start(s: Seq<char>) -> Seq<char>
    decreases s.len(),
{
    if s.len() > 0 && spec_is_whitespace(s[0]) {
        spec_trim_start(s.drop_first())
    } else {
        s
    }
}

/// The sequence without its trailing whitespace.
pub open spec fn spec_trim_end(s: Seq<char>) -> Seq<char>
    decreases s.len(),
{
    if s.len() > 0 && spec_is_whitespace(s.last()) {
        spec_trim_end(s.drop_last())
    } else {
        s
    }
}

/// `str::trim`: the sequence without leading and trailing whitespace.
pub open spec fn spec_trim(s: Seq<char>) -> Seq<char> {
    spec_trim_end(spec_trim_start(s))
}

/// Whether `c` is a control character (`char::is_control`).
pub fn is_control_char(c: char) -> (b: bool)
    ensures
        b == spec_is_control(c),
{
    let u = c as u32;
    u <= 0x1F || (0x7F <= u && u <= 0x9F)
}

/// Whether `c` is whitespace (`char::is_whitespace`).
pub fn is_whitespace_char(c: char) -> (b: bool)
    ensures
        b == spec_is_whitespace(c),
{
    let u = c as u32;
    (0x09 <= u && u <= 0x0D) || u == 0x20 || u == 0x85 || u == 0xA0 || u == 0x1680 || (0x2000
        <= u && u <= 0x200A) || u == 0x2028 || u == 0x2029 || u == 0x202F || u == 0x205F || u
        == 0x3000
}

/// Calls std's `String::push`. Trusted: its contract, which Verus believes
/// without proof, says that the string gains `c` at its end and nothing else.
#[verifier::external_body]
fn push_char(s: &mut String, c: char)
    ensures
        final(s)@ == old(s)@.push(c),
{
    s.push(c);
}

/// The characters of `s`, in order.
pub fn chars_of(s: &str) -> (chars: Vec<char>)
    ensures
        chars@ == s@,
{
    let mut chars: Vec<char> = Vec::new();
    for c in it: s.chars()
        invariant
            chars@ == it.seq().take(it.index() as int),
    {
        chars.push(c);
    }
    chars
}

/// The string made of `chars[start..end]`.
pub fn string_from_chars(chars: &Vec<char>, start: usize, end: usize) -> (s: String)
    requires
        start <= end <= chars@.len(),
    ensures
        s@ == chars@.subrange(start as int, end as int),
{
    let mut s = String::new();
    let mut k: usize = start;
    while k < end
        invariant
            start <= k <= end <= chars@.len(),
            s@ =~= chars@.subrange(start as int, k as int),
        decreases end - k,
    {
        push_char(&mut s, chars[k]);
        k = k + 1;
    }
    s
}

proof fn lemma_trim_start_step(s: Seq<char>, k: int)
    requires
        0 <= k < s.len(),
        spec_is_whitespace(s[k]),
    ensures
        spec_trim_start(s.subrange(k, s.len() as int)) == spec_trim_start(
            s.subrange(k + 1, s.len() as int),
        ),
{
    assert(s.subrange(k, s.len() as int).drop_first() =~= s.subrange(k + 1, s.len() as int));
}

proof fn lemma_trim_end_step(s: Seq<char>, lo: int, hi: int)
    requires
        0 <= lo < hi <= s.len(),
        spec_is_whitespace(s[hi - 1]),
    ensures
        spec_trim_end(s.subrange(lo, hi)) == spec_trim_end(s.subrange(lo, hi - 1)),
{
    assert(s.subrange(lo, hi).drop_last() =~= s.subrange(lo, hi - 1));
}

/// Bounds of `chars[lo..hi]` without its surrounding whitespace.
pub fn trimmed_bounds(chars: &Vec<char>, lo: usize, hi: usize) -> (bounds: (usize, usize))
    requires
        lo <= hi <= chars@.len(),
    ensures
        lo <= bounds.0 <= bounds.1 <= hi,
        chars@.subrange(bounds.0 as int, bounds.1 as int) == spec_trim(
            chars@.subrange(lo as int, hi as int),
        ),
{
    let ghost s = chars@.subrange(lo as int, hi as int);
    let mut start: usize = lo;
    while start < hi && is_whitespace_char(chars[start])
        invariant
            lo <= start <= hi <= chars@.len(),
            s == chars@.subrange(lo as int, hi as int),
            spec_trim_start(s) == spec_trim_start(chars@.subrange(start as int, hi as int)),
        decreases hi - start,
    {
        proof {
            let t = chars@.subrange(0, hi as int);
            assert(t.subrange(start as int, t.len() as int) =~= chars@.subrange(start as int, hi as int));
            assert(t.subrange(start + 1, t.len() as int) =~= chars@.subrange(start + 1, hi as int));
            lemma_trim_start_step(t, start as int);
        }
        start = start + 1;
    }
    assert(spec_trim_start(s) =~= chars@.subrange(start as int, hi as int));
    let mut end: usize = hi;
    while end > start && is_whitespace_char(chars[end - 1])
        invariant
            lo <= start <= end <= hi <= chars@.len(),
            s == chars@.subrange(lo as int, hi as int),
            spec_trim(s) == spec_trim_end(chars@.subrange(start as int, end as int)),
        decreases end,
    {
        proof {
            lemma_trim_end_step(chars@, start as int, end as int);
        }
        end = end - 1;
    }
    assert(spec_trim(s) =~= chars@.subrange(start as int, end as int));
    (start, end)
}

/// `str::trim`: `text` without leading and trailing whitespace.
pub fn trim(text: &str) -> (trimmed: String)
    ensures
        trimmed@ == spec_trim(text@),
{
    let chars = chars_of(text);
    let (start, end) = trimmed_bounds(&chars, 0, chars.len());
    assert(chars@.subrange(0, chars@.len() as int) =~= chars@);
    string_from_chars(&chars, start, end)
}

/// `spec_trim_start(s)` is a suffix of `s` that is empty or starts with a
/// character other than whitespace.
pub proof fn lemma_trim_start_is_suffix(s: Seq<char>)
    ensures
        spec_trim_start(s).len() <= s.len(),
        spec_trim_start(s) =~= s.subrange(s.len() - spec_trim_start(s).len(), s.len() as int),
        spec_trim_start(s).len() > 0 ==> !spec_is_whitespace(spec_trim_start(s)[0]),
    decreases s.len(),
{
    if s.len() > 0 && spec_is_whitespace(s[0]) {
        lemma_trim_start_is_suffix(s.drop_first());
    }
}

/// `spec_trim_end(s)` is a prefix of `s` that is empty or ends with a character
/// other than whitespace.
pub proof fn lemma_trim_end_is_prefix(s: Seq<char>)
    ensures
        spec_trim_end(s).len() <= s.len(),
        spec_trim_end(s) =~= s.subrange(0, spec_trim_end(s).len() as int),
        spec_trim_end(s).len() > 0 ==> !spec_is_whitespace(spec_trim_end(s).last()),
    decreases s.len(),
{
    if s.len() > 0 && spec_is_whitespace(s.last()) {
        lemma_trim_end_is_prefix(s.drop_last());
    }
}

/// Law: trimmed text has no surrounding whitespace, so trimming it again
/// changes nothing.
pub proof fn lemma_trim_idempotent(s: Seq<char>)
    ensures
        spec_trim(s).len() > 0 ==> !spec_is_whitespace(spec_trim(s)[0]) && !spec_is_whitespace(
            spec_trim(s).last(),
        ),
        spec_trim(spec_trim(s)) == spec_trim(s),
{
    let u = spec_trim_start(s);
    let t = spec_trim_end(u);
    lemma_trim_start_is_suffix(s);
    lemma_trim_end_is_prefix(u);
    if t.len() > 0 {
        assert(t[0] == u[0]);
        assert(spec_trim_start(t) == t);
        assert(spec_trim_end(t) == t);
    } else {
        assert(spec_trim_start(t) == t);
    }
}

/// Law: trimming removes whitespace at both ends and nothing else: the result is
/// a contiguous part of the text, everything before and after it is whitespace,
/// and it neither starts nor ends with whitespace.
pub proof fn lemma_trim_removes_only_surrounding_whitespace(s: Seq<char>)
    ensures
        exists|a: int, b: int|
            #![trigger s.subrange(a, b)]
            0 <= a <= b <= s.len() && spec_trim(s) == s.subrange(a, b) && (forall|i: int|
                0 <= i < a ==> spec_is_whitespace(#[trigger] s[i])) && (forall|i: int|
                b <= i < s.len() ==> spec_is_whitespace(#[trigger] s[i])),
        spec_trim(s).len() > 0 ==> !spec_is_whitespace(spec_trim(s)[0]) && !spec_is_whitespace(
            spec_trim(s).last(),
        ),
{
    lemma_trim_idempotent(s);
    lemma_trim_start_prefix_is_whitespace(s);
    let u = spec_trim_start(s);
    lemma_trim_start_is_suffix(s);
    lemma_trim_end_suffix_is_whitespace(u);
    lemma_trim_end_is_prefix(u);
    let a = s.len() - u.len();
    let b = a + spec_trim_end(u).len();
    assert(spec_trim(s) =~= s.subrange(a, b));
    assert forall|i: int| b <= i < s.len() implies spec_is_whitespace(#[trigger] s[i]) by {
        assert(s[i] == u[i - a]);
    }
}

/// Everything that `spec_trim_start` drops is whitespace.
proof fn lemma_trim_start_prefix_is_whitespace(s: Seq<char>)
    ensures
        forall|i: int| 0 <= i < s.len() - spec_trim_start(s).len() ==> spec_is_whitespace(#[trigger] s[i]),
    decreases s.len(),
{
    if s.len() > 0 && spec_is_whitespace(s[0]) {
        lemma_trim_start_prefix_is_whitespace(s.drop_first());
        assert forall|i: int| 0 <= i < s.len() - spec_trim_start(s).len() implies spec_is_whitespace(#[trigger] s[i]) by {
            if i > 0 {
                assert(s[i] == s.drop_first()[i - 1]);
            }
        }
    }
}

/// Everything that `spec_trim_end` drops is whitespace.
proof fn lemma_trim_end_suffix_is_whitespace(s: Seq<char>)
    ensures
        forall|i: int| spec_trim_end(s).len() <= i < s.len() ==> spec_is_whitespace(#[trigger] s[i]),
    decreases s.len(),
{
    if s.len() > 0 && spec_is_whitespace(s.last()) {
        lemma_trim_end_suffix_is_whitespace(s.drop_last());
        assert forall|i: int| spec_trim_end(s).len() <= i < s.len() implies spec_is_whitespace(#[trigger] s[i]) by {
            if i < s.len() - 1 {
                assert(s[i] == s.drop_last()[i]);
            }
        }
    }
}

} // verus!
