use vstd::prelude::*;

use crate::text::{decimal, decimal_text};

verus! {

/// The pattern a credential must match, anchored at both ends.
pub const UUID_PATTERN: &'static str = "^[0-9a-f]{8}-[0-9a-f]{4}-[0-9a-f]{4}-[0-9a-f]{4}-[0-9a-f]{12}$";

/// A lowercase hexadecimal digit.
pub open spec fn is_lower_hex(c: char) -> bool {
    ('0' <= c && c <= '9') || ('a' <= c && c <= 'f')
}

/// Positions of the four hyphens in a credential.
pub open spec fn is_hyphen_position(i: int) -> bool {
    i == 8 || i == 13 || i == 18 || i == 23
}

/// Eight, four, four, four and twelve lowercase hex digits joined by hyphens.
pub open spec fn is_uuid_shape(s: Seq<char>) -> bool {
    &&& s.len() == 36
    &&& forall|i: int|
        0 <= i < 36 ==> if is_hyphen_position(i) {
            #[trigger] s[i] == '-'
        } else {
            is_lower_hex(s[i])
        }
}

/// Relies on regex::Regex::new and Regex::is_match: compiled from the anchored
/// credential pattern, the regex matches exactly the texts of that shape.
#[verifier::external_body]
pub(crate) fn regex_matches(pattern: &str, text: &str) -> (r: bool)
    requires
        pattern@ == UUID_PATTERN@,
    ensures
        r == is_uuid_shape(text@),
{
    regex::Regex::new(pattern).expect("the credential pattern compiles").is_match(text)
}

/// The API versions the library speaks, in the order they are offered.
pub open spec fn supported_version_seq() -> Seq<i32> {
    seq![1]
}

/// A version the library speaks.
pub open spec fn is_supported_version(v: i32) -> bool {
    supported_version_seq().contains(v)
}

/// Versions written in decimal and separated by `", "`.
pub open spec fn joined_versions(s: Seq<i32>) -> Seq<char>
    decreases s.len(),
{
    if s.len() == 0 {
        Seq::empty()
    } else if s.len() == 1 {
        decimal_text(s[0] as int)
    } else {
        joined_versions(s.drop_last()) + ", "@ + decimal_text(s.last() as int)
    }
}

/// The message of an `InvalidVersion` error.
pub open spec fn version_message(v: i32) -> Seq<char> {
    "Invalid version: "@ + decimal_text(v as int) + ", please choose: ["@ + joined_versions(
        supported_version_seq(),
    ) + "]"@
}

/// The supported versions.
pub fn supported_versions() -> (r: Vec<i32>)
    ensures
        r@ == supported_version_seq(),
{
    vec![1]
}

/// The supported versions in decimal, separated by `", "`.
pub(crate) fn join_versions(vs: &Vec<i32>) -> (r: String)
    ensures
        r@ == joined_versions(vs@),
{
    let mut out = String::new();
    let mut i: usize = 0;
    while i < vs.len()
        invariant
            i <= vs@.len(),
            out@ == joined_versions(vs@.subrange(0, i as int)),
        decreases vs.len() - i,
    {
        assert(vs@.subrange(0, i as int + 1).drop_last() == vs@.subrange(0, i as int));
        if i > 0 {
            out.append(", ");
        }
        let d = decimal(vs[i]);
        out.append(d.as_str());
        i = i + 1;
    }
    assert(vs@.subrange(0, vs@.len() as int) == vs@);
    out
}

/// Of the integers, only 1 is a supported version at present.
pub proof fn lemma_only_version_one(v: i32)
    ensures
        is_supported_version(v) <==> v == 1,
{
    assert(supported_version_seq()[0] == 1);
}

} // verus!
