//! Naming of the debug log file: a file stem derived from the application name,
//! safe to use on every desktop file system.
use vstd::prelude::*;

use crate::paths::JoinedPath;
use crate::text::{
    lemma_trim_removes_only_surrounding_whitespace,
    chars_of, is_control_char, lemma_trim_end_is_prefix, lemma_trim_start_is_suffix,
    spec_is_control, spec_is_whitespace, spec_trim, spec_trim_end, spec_trim_start,
    string_from_chars, trimmed_bounds,
};

verus! {

/// Characters that some desktop file system refuses in a file name.
pub open spec fn spec_is_reserved_file_char(c: char) -> bool {
    c == '<' || c == '>' || c == ':' || c == '"' || c == '/' || c == '\\' || c == '|' || c == '?'
        || c == '*'
}

/// A control or reserved character becomes `_`; any other character stays.
pub open spec fn spec_sanitize_char(c: char) -> char {
    if spec_is_control(c) || spec_is_reserved_file_char(c) {
        '_'
    } else {
        c
    }
}

/// File stem for `value`: every control or reserved character replaced by `_`,
/// surrounding whitespace removed, and `Plugin` when nothing is left.
pub open spec fn spec_sanitize_file_stem(value: Seq<char>) -> Seq<char> {
    let trimmed = spec_trim(value.map_values(|c: char| spec_sanitize_char(c)));
    if trimmed.len() == 0 {
        "Plugin"@
    } else {
        trimmed
    }
}

/// Turns an application name into a file stem: control characters and the
/// characters `< > : " / \ | ? *` become `_`, surrounding whitespace is removed,
/// and an empty result becomes `Plugin`.
pub fn sanitize_file_stem(value: &str) -> (stem: String)
    ensures
        stem@ == spec_sanitize_file_stem(value@),
        is_clean_file_stem(stem@),
{
    let ghost mapped_spec = value@.map_values(|c: char| spec_sanitize_char(c));
    let chars = chars_of(value);
    let n = chars.len();
    let mut mapped: Vec<char> = Vec::new();
    let mut i: usize = 0;
    while i < n
        invariant
            n == value@.len(),
            chars@ == value@,
            0 <= i <= n,
            mapped@ =~= mapped_spec.take(i as int),
            mapped_spec == value@.map_values(|c: char| spec_sanitize_char(c)),
        decreases n - i,
    {
        let ch = chars[i];
        if is_control_char(ch) || ch == '<' || ch == '>' || ch == ':' || ch == '"' || ch == '/'
            || ch == '\\' || ch == '|' || ch == '?' || ch == '*' {
            mapped.push('_');
        } else {
            mapped.push(ch);
        }
        i = i + 1;
    }
    assert(mapped@ =~= mapped_spec);
    assert(mapped@.subrange(0, n as int) =~= mapped@);
    let (start, end) = trimmed_bounds(&mapped, 0, n);
    proof {
        lemma_sanitized_file_stem_is_clean(value@);
    }
    if start == end {
        proof {
            reveal_strlit("Plugin");
        }
        return "Plugin".to_owned();
    }
    string_from_chars(&mapped, start, end)
}

/// Path of the debug log file: `<manifest_dir>/../.log/<stem> Latest.log`, where
/// the stem is the sanitized application name.
pub fn default_log_file(manifest_dir: &str, app_name: &str) -> (path: JoinedPath)
    ensures
        path@.0 == manifest_dir@,
        path@.1 == seq![
            "../.log"@,
            spec_sanitize_file_stem(app_name@) + " Latest.log"@,
        ],
{
    let mut file_name = sanitize_file_stem(app_name);
    file_name.append(" Latest.log");
    let dir = JoinedPath::new(manifest_dir).join("../.log");
    let path = dir.join(file_name.as_str());
    assert(path@.1 =~= seq!["../.log"@, spec_sanitize_file_stem(app_name@) + " Latest.log"@]);
    path
}

/// A file stem that the sanitizer leaves as it is: not empty, without control or
/// reserved characters, and without surrounding whitespace.
pub open spec fn is_clean_file_stem(s: Seq<char>) -> bool {
    &&& s.len() > 0
    &&& forall|i: int|
        0 <= i < s.len() ==> !spec_is_control(#[trigger] s[i]) && !spec_is_reserved_file_char(s[i])
    &&& !spec_is_whitespace(s[0])
    &&& !spec_is_whitespace(s.last())
}

/// Law: whatever the application name, the file stem is clean: not empty,
/// free of control and reserved characters, and without surrounding whitespace.
pub proof fn lemma_sanitized_file_stem_is_clean(value: Seq<char>)
    ensures
        is_clean_file_stem(spec_sanitize_file_stem(value)),
{
    let mapped = value.map_values(|c: char| spec_sanitize_char(c));
    let u = spec_trim_start(mapped);
    let t = spec_trim_end(u);
    lemma_trim_start_is_suffix(mapped);
    lemma_trim_end_is_prefix(u);
    if t.len() == 0 {
        reveal_strlit("Plugin");
        let p = "Plugin"@;
        assert(p =~= seq!['P', 'l', 'u', 'g', 'i', 'n']);
    } else {
        let a = mapped.len() - u.len();
        assert forall|i: int| 0 <= i < t.len() implies !spec_is_control(#[trigger] t[i])
            && !spec_is_reserved_file_char(t[i]) by {
            assert(t[i] == u[i]);
            assert(u[i] == mapped[a + i]);
        }
        assert(t[0] == u[0]);
    }
}

/// Law: a clean file stem passes through the sanitizer unchanged.
pub proof fn lemma_clean_file_stem_unchanged(s: Seq<char>)
    requires
        is_clean_file_stem(s),
    ensures
        spec_sanitize_file_stem(s) == s,
{
    let mapped = s.map_values(|c: char| spec_sanitize_char(c));
    assert(mapped =~= s);
    assert(spec_trim_start(s) == s);
    assert(spec_trim_end(s) == s);
}

/// Law: sanitizing is idempotent; sanitizing a file stem again changes nothing.
pub proof fn lemma_sanitize_file_stem_idempotent(value: Seq<char>)
    ensures
        spec_sanitize_file_stem(spec_sanitize_file_stem(value)) == spec_sanitize_file_stem(value),
{
    lemma_sanitized_file_stem_is_clean(value);
    lemma_clean_file_stem_unchanged(spec_sanitize_file_stem(value));
}

/// Law: what the sanitizer keeps. A name of nothing but whitespace (none of it a
/// control character) becomes `Plugin`. Otherwise the stem is a contiguous part
/// of the name, character for character, except that each control or reserved
/// character reads `_`; everything left out is plain whitespace at either end.
pub proof fn lemma_sanitize_keeps_the_name(value: Seq<char>)
    ensures
        (forall|i: int| 0 <= i < value.len() ==> spec_is_whitespace(#[trigger] value[i])
            && !spec_is_control(value[i])) ==> spec_sanitize_file_stem(value) == "Plugin"@,
        (exists|i: int| 0 <= i < value.len() && !(spec_is_whitespace(#[trigger] value[i])
            && !spec_is_control(value[i]))) ==> exists|a: int|
            #![trigger value.subrange(0, a)]
            0 <= a && a + spec_sanitize_file_stem(value).len() <= value.len() && (forall|i: int|
                0 <= i < a ==> spec_is_whitespace(#[trigger] value[i]) && !spec_is_control(value[i]))
                && (forall|i: int|
                a + spec_sanitize_file_stem(value).len() <= i < value.len()
                    ==> spec_is_whitespace(#[trigger] value[i]) && !spec_is_control(value[i]))
                && (forall|i: int|
                0 <= i < spec_sanitize_file_stem(value).len() ==> if spec_is_control(
                    #[trigger] value[a + i],
                ) || spec_is_reserved_file_char(value[a + i]) {
                    spec_sanitize_file_stem(value)[i] == '_'
                } else {
                    spec_sanitize_file_stem(value)[i] == value[a + i]
                }),
{
    let mapped = value.map_values(|c: char| spec_sanitize_char(c));
    lemma_trim_removes_only_surrounding_whitespace(mapped);
    let (a, b) = choose|a: int, b: int|
        #![trigger mapped.subrange(a, b)]
        0 <= a <= b <= mapped.len() && spec_trim(mapped) == mapped.subrange(a, b) && (forall|i: int|
            0 <= i < a ==> spec_is_whitespace(#[trigger] mapped[i])) && (forall|i: int|
            b <= i < mapped.len() ==> spec_is_whitespace(#[trigger] mapped[i]));
    // A character that maps to whitespace is plain whitespace: '_' is not whitespace.
    assert forall|i: int| 0 <= i < value.len() && spec_is_whitespace(#[trigger] mapped[i]) implies
        spec_is_whitespace(value[i]) && !spec_is_control(value[i]) by {
        assert(mapped[i] == spec_sanitize_char(value[i]));
    }
    if forall|i: int| 0 <= i < value.len() ==> spec_is_whitespace(#[trigger] value[i]) && !spec_is_control(value[i]) {
        assert forall|i: int| 0 <= i < mapped.len() implies spec_is_whitespace(#[trigger] mapped[i]) by {
            assert(mapped[i] == spec_sanitize_char(value[i]));
        }
        if a < b {
            assert(mapped.subrange(a, b)[0] == mapped[a]);
            lemma_trim_removes_only_surrounding_whitespace(mapped);
        }
    }
    if exists|i: int| 0 <= i < value.len() && !(spec_is_whitespace(#[trigger] value[i]) && !spec_is_control(value[i])) {
        let k = choose|i: int| 0 <= i < value.len() && !(spec_is_whitespace(#[trigger] value[i]) && !spec_is_control(value[i]));
        assert(mapped[k] == spec_sanitize_char(value[k]));
        assert(!spec_is_whitespace(mapped[k]));
        assert(a <= k < b);
        let stem = spec_sanitize_file_stem(value);
        assert(stem == mapped.subrange(a, b));
        assert forall|i: int| 0 <= i < a implies spec_is_whitespace(#[trigger] value[i])
            && !spec_is_control(value[i]) by {
            assert(spec_is_whitespace(mapped[i]));
        }
        assert forall|i: int| a + stem.len() <= i < value.len() implies spec_is_whitespace(
            #[trigger] value[i],
        ) && !spec_is_control(value[i]) by {
            assert(spec_is_whitespace(mapped[i]));
        }
        assert(value.subrange(0, a) == value.subrange(0, a));
        assert forall|i: int| 0 <= i < stem.len() implies (if spec_is_control(#[trigger] value[a + i])
            || spec_is_reserved_file_char(value[a + i]) {
            stem[i] == '_'
        } else {
            stem[i] == value[a + i]
        }) by {
            assert(stem[i] == mapped[a + i]);
        }
    }
}

} // verus!
