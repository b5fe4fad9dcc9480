use vstd::prelude::*;

verus! {

pub open spec fn is_hex_char(c: char) -> bool {
    ('0' <= c && c <= '9') || ('a' <= c && c <= 'f') || ('A' <= c && c <= 'F')
}

/// 32 hexadecimal digits.
pub open spec fn is_simple_form(s: Seq<char>) -> bool {
    s.len() == 32 && forall|i: int| 0 <= i < 32 ==> is_hex_char(#[trigger] s[i])
}

/// 36 characters: hyphens at 8, 13, 18 and 23, hexadecimal digits elsewhere.
pub open spec fn is_hyphenated_form(s: Seq<char>) -> bool {
    &&& s.len() == 36
    &&& forall|i: int|
        0 <= i < 36 ==> if i == 8 || i == 13 || i == 18 || i == 23 {
            #[trigger] s[i] == '-'
        } else {
            is_hex_char(s[i])
        }
}

/// The hyphenated form between `{` and `}`.
pub open spec fn is_braced_form(s: Seq<char>) -> bool {
    &&& s.len() == 38
    &&& s[0] == '{'
    &&& s[37] == '}'
    &&& is_hyphenated_form(s.subrange(1, 37))
}

/// `c` equals the lowercase ASCII character `p`, ignoring ASCII case.
pub open spec fn eq_ignoring_case(c: char, p: char) -> bool {
    c == p || ('a' <= p && p <= 'z' && (c as u32) + 32 == (p as u32))
}

/// `urn:uuid:` in any ASCII case, then the hyphenated form.
pub open spec fn is_urn_form(s: Seq<char>) -> bool {
    let prefix = seq!['u', 'r', 'n', ':', 'u', 'u', 'i', 'd', ':'];
    &&& s.len() == 45
    &&& forall|i: int| 0 <= i < 9 ==> eq_ignoring_case(#[trigger] s[i], prefix[i])
    &&& is_hyphenated_form(s.subrange(9, 45))
}

/// The textual forms of a UUID.
pub open spec fn uuid_text_form(s: Seq<char>) -> bool {
    is_simple_form(s) || is_hyphenated_form(s) || is_braced_form(s) || is_urn_form(s)
}

/// Relies on `uuid::Uuid::parse_str`, which accepts exactly the simple,
/// hyphenated, braced and URN forms (all of them ASCII).
#[verifier::external_body]
fn uuid_parses(s: &str) -> (r: bool)
    ensures
        r == uuid_text_form(s@),
{
    uuid::Uuid::parse_str(s).is_ok()
}

/// Relies on `uuid::Uuid::new_v4` and its `to_string`, which writes the
/// hyphenated form.
#[verifier::external_body]
pub(crate) fn new_uuid_string() -> (r: String)
    ensures
        is_hyphenated_form(r@),
{
    uuid::Uuid::new_v4().to_string()
}

/// A task id is well formed when it is a UUID in one of its textual forms.
pub fn is_valid_task_id(id: &str) -> (r: bool)
    ensures
        r == uuid_text_form(id@),
{
    uuid_parses(id)
}

} // verus!
