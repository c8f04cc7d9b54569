//! Form encoding of request parameters.

use vstd::prelude::*;
use vstd::string::StringExecFns;

verus! {

#[verifier::external_type_specification]
#[verifier::external_body]
pub struct ExFormError(serde_urlencoded::ser::Error);

/// The `application/x-www-form-urlencoded` serialization of a list of
/// key-value pairs, as `serde_urlencoded::to_string` computes it.
pub uninterp spec fn form_urlencoded(pairs: Seq<(Seq<char>, Seq<char>)>) -> Seq<char>;

/// Calls `serde_urlencoded::to_string` on a list of string pairs. Trusted:
/// the result is a function of the pairs alone, named [`form_urlencoded`].
/// That it is `Ok` is trusted too: the serializer fails only on a value that
/// is no sequence of pairs or on a key or value that is no string, and a
/// vector of string pairs is neither.
#[verifier::external_body]
pub(crate) fn urlencode(pairs: &Vec<(String, String)>) -> (r: Result<
    String,
    serde_urlencoded::ser::Error,
>)
    ensures
        r is Ok,
        r->Ok_0@ == form_urlencoded(pairs.deep_view()),
{
    serde_urlencoded::to_string(pairs)
}

/// Appends the pair of `key` and `value` to a parameter list.
pub fn push_pair(pairs: &mut Vec<(String, String)>, key: &str, value: &str)
    ensures
        final(pairs).deep_view() == old(pairs).deep_view().push((key@, value@)),
{
    pairs.push((String::from_str(key), String::from_str(value)));
    assert(pairs.deep_view() =~= old(pairs).deep_view().push((key@, value@)));
}

} // verus!
