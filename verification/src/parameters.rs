//! Host-visible parameters of the gain plugin and how their IDs are routed.
use vstd::prelude::*;

use crate::text::{
    chars_of, lemma_trim_idempotent, spec_is_whitespace, spec_trim, spec_trim_end, spec_trim_start, string_from_chars,
    trimmed_bounds,
};

verus! {

/// Stable host ID of the gain parameter.
pub const PARAM_GAIN_ID: u32 = 1;

/// Stable host ID of the bypass parameter.
pub const PARAM_BYPASS_ID: u32 = 2;

/// The parameters that the shared state stores.
#[derive(Debug, Clone, Copy, PartialEq, Eq, Structural)]
pub enum ParameterKind {
    Gain,
    Bypass,
}

/// Host ID of a parameter.
pub open spec fn spec_parameter_id(kind: ParameterKind) -> u32 {
    match kind {
        ParameterKind::Gain => PARAM_GAIN_ID,
        ParameterKind::Bypass => PARAM_BYPASS_ID,
    }
}

/// The parameter with a host ID, if any.
pub open spec fn spec_parameter_from_id(id: u32) -> Option<ParameterKind> {
    if id == PARAM_GAIN_ID {
        Some(ParameterKind::Gain)
    } else if id == PARAM_BYPASS_ID {
        Some(ParameterKind::Bypass)
    } else {
        None
    }
}

impl ParameterKind {
    /// The parameter that a host or GUI request names, or `None` for an unknown ID.
    pub fn from_id(parameter_id: u32) -> (kind: Option<ParameterKind>)
        ensures
            kind == spec_parameter_from_id(parameter_id),
    {
        match parameter_id {
            PARAM_GAIN_ID => Some(ParameterKind::Gain),
            PARAM_BYPASS_ID => Some(ParameterKind::Bypass),
            _ => None,
        }
    }

    /// Host ID of this parameter.
    pub fn id(self) -> (id: u32)
        ensures
            id == spec_parameter_id(self),
    {
        match self {
            ParameterKind::Gain => PARAM_GAIN_ID,
            ParameterKind::Bypass => PARAM_BYPASS_ID,
        }
    }
}

/// Law: every parameter is found again by its ID, and an ID names at most one
/// parameter.
pub proof fn lemma_parameter_id_round_trip(kind: ParameterKind, id: u32)
    ensures
        spec_parameter_from_id(spec_parameter_id(kind)) == Some(kind),
        spec_parameter_from_id(id) matches Some(k) ==> spec_parameter_id(k) == id,
{
}

/// Whether `s` ends with the unit `dB`.
pub open spec fn spec_ends_with_db(s: Seq<char>) -> bool {
    s.len() >= 2 && s.subrange(s.len() - 2, s.len() as int) == "dB"@
}

/// The number part of a gain text such as `3 dB`: the text trimmed, without a
/// trailing `dB`, and trimmed again.
pub open spec fn spec_db_number_text(text: Seq<char>) -> Seq<char> {
    let t = spec_trim(text);
    spec_trim(
        if spec_ends_with_db(t) {
            t.subrange(0, t.len() - 2)
        } else {
            t
        },
    )
}

/// The number part of a gain text typed by the user in the host, e.g. `3` for
/// ` 3 dB `: surrounding whitespace and one trailing `dB` unit are removed.
pub fn db_number_text(text: &str) -> (number: String)
    ensures
        number@ == spec_db_number_text(text@),
{
    let chars = chars_of(text);
    let n = chars.len();
    assert(chars@.subrange(0, n as int) =~= chars@);
    let (start, end) = trimmed_bounds(&chars, 0, n);
    let ghost t = chars@.subrange(start as int, end as int);
    proof {
        reveal_strlit("dB");
    }
    let unit_end = if end - start >= 2 && chars[end - 2] == 'd' && chars[end - 1] == 'B' {
        assert(t.subrange(t.len() - 2, t.len() as int) =~= "dB"@);
        assert(t.subrange(0, t.len() - 2) =~= chars@.subrange(start as int, end - 2));
        end - 2
    } else {
        assert(t.len() >= 2 ==> t.subrange(t.len() - 2, t.len() as int)[0] == chars@[end - 2]);
        assert(t.len() >= 2 ==> t.subrange(t.len() - 2, t.len() as int)[1] == chars@[end - 1]);
        end
    };
    let (lo, hi) = trimmed_bounds(&chars, start, unit_end);
    string_from_chars(&chars, lo, hi)
}

/// Law: the number part of `<number> dB` is `<number>`, for any number text
/// without surrounding whitespace that does not itself end in `dB`; the number
/// alone reads the same.
pub proof fn lemma_db_unit_is_stripped(number: Seq<char>)
    requires
        number.len() > 0,
        !spec_is_whitespace(number[0]),
        !spec_is_whitespace(number.last()),
        !spec_ends_with_db(number),
    ensures
        spec_db_number_text(number + " dB"@) == number,
        spec_db_number_text(number) == number,
{
    reveal_strlit(" dB");
    reveal_strlit("dB");
    let full = number + " dB"@;
    assert(spec_trim_start(number) == number);
    assert(spec_trim_end(number) == number);
    assert(!spec_is_whitespace(full[0]));
    assert(full.last() == 'B');
    assert(spec_trim_start(full) == full);
    assert(spec_trim_end(full) == full);
    assert(full.subrange(full.len() - 2, full.len() as int) =~= "dB"@);
    let stripped = full.subrange(0, full.len() - 2);
    assert(stripped =~= number.push(' '));
    assert(stripped.drop_last() =~= number);
    assert(spec_trim_start(stripped) == stripped);
    assert(spec_trim_end(stripped) == spec_trim_end(number));
}

/// Law: the number part never has surrounding whitespace, and surrounding
/// whitespace of the typed text never changes it.
pub proof fn lemma_db_number_text_is_trimmed(text: Seq<char>)
    ensures
        spec_db_number_text(text).len() > 0 ==> !spec_is_whitespace(spec_db_number_text(text)[0])
            && !spec_is_whitespace(spec_db_number_text(text).last()),
        spec_db_number_text(spec_trim(text)) == spec_db_number_text(text),
{
    let t = spec_trim(text);
    lemma_trim_idempotent(text);
    lemma_trim_idempotent(
        if spec_ends_with_db(t) {
            t.subrange(0, t.len() - 2)
        } else {
            t
        },
    );
}

} // verus!
