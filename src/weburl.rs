use vstd::prelude::*;

verus! {

#[verifier::external_type_specification]
#[verifier::external_body]
pub struct ExParseError(url::ParseError);

/// The serialization of the URL that `input` names when resolved against the
/// URL serialized as `base`; `None` where either cannot be parsed.
pub uninterp spec fn url_join_of(base: Seq<char>, input: Seq<char>) -> Option<Seq<char>>;

/// Relies on url::Url::join, resolving `input` against `base`, where `base`
/// is read back from its serialization by url::Url::parse; the joined URL is
/// handed back serialized.
#[verifier::external_body]
pub(crate) fn join_url(base: &str, input: &str) -> (r: Result<String, url::ParseError>)
    ensures
        r is Ok <==> url_join_of(base@, input@) is Some,
        r matches Ok(s) ==> s@ == url_join_of(base@, input@)->0,
{
    url::Url::parse(base)?.join(input).map(String::from)
}

} // verus!
