use vstd::prelude::*;

verus! {

/// One member of a JSON object, as plain values: its key, its value when
/// that value is a string, and its value when that value is an integer in
/// the range of `u64`.
pub type MemberView = (Seq<char>, Option<Seq<char>>, Option<u64>);

/// The members of `text` as serde_json reads it: `None` when `text` is not
/// one JSON document, `Some(None)` when it is one but not an object, and
/// `Some(Some(ms))` when it is an object with members `ms`.
pub uninterp spec fn json_object_members(text: Seq<char>) -> Option<Option<Seq<MemberView>>>;

pub open spec fn member_view(m: (String, Option<String>, Option<u64>)) -> MemberView {
    (m.0@, match m.1 {
        Some(s) => Some(s@),
        None => None,
    }, m.2)
}

pub open spec fn members_view(ms: Seq<(String, Option<String>, Option<u64>)>) -> Seq<MemberView> {
    ms.map_values(|m: (String, Option<String>, Option<u64>)| member_view(m))
}

pub open spec fn object_outcome(
    r: Result<Option<Vec<(String, Option<String>, Option<u64>)>>, serde_json::Error>,
) -> Option<Option<Seq<MemberView>>> {
    match r {
        Err(_) => None,
        Ok(None) => Some(None),
        Ok(Some(ms)) => Some(Some(members_view(ms@))),
    }
}

#[verifier::external_type_specification]
#[verifier::external_body]
pub struct ExJsonError(serde_json::Error);

/// Relies on serde_json::from_str::<serde_json::Value> to read `text` as a
/// JSON document, and on Value::as_str and Value::as_u64 to read the value
/// of each member of an object.
#[verifier::external_body]
pub(crate) fn parse_object(text: &str) -> (r: Result<
    Option<Vec<(String, Option<String>, Option<u64>)>>,
    serde_json::Error,
>)
    ensures
        object_outcome(r) == json_object_members(text@),
{
    match serde_json::from_str::<serde_json::Value>(text) {
        Ok(serde_json::Value::Object(m)) => Ok(
            Some(m.into_iter().map(|(k, v)| (k, v.as_str().map(String::from), v.as_u64())).collect()),
        ),
        Ok(_) => Ok(None),
        Err(e) => Err(e),
    }
}

/// Relies on serde_json::Error's `Display`, which describes what went wrong
/// and where.
#[verifier::external_body]
pub(crate) fn error_text(e: &serde_json::Error) -> (r: String) {
    e.to_string()
}

} // verus!
