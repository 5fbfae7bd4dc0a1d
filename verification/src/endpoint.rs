use vstd::prelude::*;
use crate::text::{contains_text, has_text, occurs_at};

verus! {

/// How the body of an endpoint's answer is read.
#[derive(Debug, Clone, Copy, PartialEq, Eq, Structural)]
pub enum ResponseShape {
    /// A JSON object with `status`, `country` and `countryCode`.
    IpApi,
    /// The body is left unread.
    Unparsed,
}

/// One entry of the list of lookup endpoints: the address to ask, and the
/// shape in which the answer is read. The shape is the one that the address
/// tells.
#[derive(Debug, Clone, Copy, PartialEq, Eq)]
pub struct LookupEndpoint {
    pub url: &'static str,
    pub shape: ResponseShape,
}

/// A `LookupEndpoint` as plain values.
pub struct LookupEndpointView {
    pub url: Seq<char>,
    pub shape: ResponseShape,
}

impl View for LookupEndpoint {
    type V = LookupEndpointView;

    open spec fn view(&self) -> LookupEndpointView {
        LookupEndpointView { url: self.url@, shape: self.shape }
    }
}

/// The number of lookup endpoints.
pub const ENDPOINT_COUNT: usize = 3;

/// The addresses of the lookup endpoints, in the order in which they are
/// asked.
pub open spec fn endpoint_urls() -> Seq<Seq<char>> {
    seq![
        "http://ip-api.com/json/?fields=status,country,countryCode"@,
        "https://ipapi.co/json/"@,
        "https://api.ipify.org?format=json"@,
    ]
}

/// The shape that goes with an address: the address tells it, by naming the
/// host `ip-api.com`.
pub open spec fn shape_of(url: Seq<char>) -> ResponseShape {
    if contains_text(url, "ip-api.com"@) {
        ResponseShape::IpApi
    } else {
        ResponseShape::Unparsed
    }
}

/// The entry at `index` of the list of endpoints.
pub open spec fn endpoint_at(index: int) -> LookupEndpointView
    recommends
        0 <= index < endpoint_urls().len(),
{
    LookupEndpointView { url: endpoint_urls()[index], shape: shape_of(endpoint_urls()[index]) }
}

/// The shape in which the endpoint at `url` answers.
pub fn response_shape(url: &str) -> (shape: ResponseShape)
    ensures
        shape == shape_of(url@),
{
    if has_text(url, "ip-api.com") {
        ResponseShape::IpApi
    } else {
        ResponseShape::Unparsed
    }
}

/// The endpoint at `index`, if there is one.
pub fn lookup_endpoint(index: usize) -> (endpoint: Option<LookupEndpoint>)
    ensures
        endpoint is Some <==> index < ENDPOINT_COUNT,
        endpoint matches Some(entry) ==> entry@ == endpoint_at(index as int),
{
    let url: &'static str = if index == 0 {
        "http://ip-api.com/json/?fields=status,country,countryCode"
    } else if index == 1 {
        "https://ipapi.co/json/"
    } else if index == 2 {
        "https://api.ipify.org?format=json"
    } else {
        return None;
    };
    Some(LookupEndpoint { url, shape: response_shape(url) })
}

/// A text that lacks one of the characters of `needle` does not contain
/// `needle`.
proof fn lemma_lacking_a_character(hay: Seq<char>, needle: Seq<char>, k: int)
    requires
        0 <= k < needle.len(),
        forall|i: int| 0 <= i < hay.len() ==> hay[i] != needle[k],
    ensures
        !contains_text(hay, needle),
{
    assert forall|at: int| !occurs_at(hay, needle, at) by {
        if occurs_at(hay, needle, at) {
            assert(hay.subrange(at, at + needle.len())[k] == hay[at + k]);
        }
    }
}

/// There are `ENDPOINT_COUNT` endpoints; the first answers in the `IpApi`
/// shape, and the body of every other one is left unread.
pub proof fn lemma_only_first_endpoint_is_read()
    ensures
        endpoint_urls().len() == ENDPOINT_COUNT,
        endpoint_at(0).shape == ResponseShape::IpApi,
        forall|index: int|
            1 <= index < ENDPOINT_COUNT ==> (#[trigger] endpoint_at(index)).shape
                == ResponseShape::Unparsed,
{
    let host = "ip-api.com"@;
    reveal_strlit("ip-api.com");

    let first = "http://ip-api.com/json/?fields=status,country,countryCode"@;
    reveal_strlit("http://ip-api.com/json/?fields=status,country,countryCode");
    assert(occurs_at(first, host, 7)) by {
        assert(first.subrange(7, 17) =~= host);
    }

    let second = "https://ipapi.co/json/"@;
    reveal_strlit("https://ipapi.co/json/");
    assert forall|i: int| 0 <= i < second.len() implies second[i] != '-' by {}
    lemma_lacking_a_character(second, host, 2);

    let third = "https://api.ipify.org?format=json"@;
    reveal_strlit("https://api.ipify.org?format=json");
    assert forall|i: int| 0 <= i < third.len() implies third[i] != '-' by {}
    lemma_lacking_a_character(third, host, 2);
}

} // verus!
