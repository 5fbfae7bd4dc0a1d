use vstd::prelude::*;
use crate::country::{
    country_from_response, lemma_unknown_is_well_formed, located, reports_success,
    unknown_country, CountryInfo, CountryInfoView, IpApiResponse, IpApiResponseView,
};
use crate::endpoint::{
    endpoint_at, endpoint_urls, lemma_only_first_endpoint_is_read, lookup_endpoint,
    LookupEndpoint, LookupEndpointView, ResponseShape,
};

verus! {

/// What came of one request to an endpoint.
#[derive(Debug, PartialEq, Eq)]
pub enum Reply {
    /// The request failed on the way: no address, no connection, no answer
    /// in time.
    Unreachable,
    /// An answer came and its body was left unread.
    Unread,
    /// An answer came and its body did not decode.
    Malformed,
    /// An answer came and its body decoded to these fields.
    Decoded(IpApiResponse),
}

/// A `Reply` as plain text.
pub enum ReplyView {
    Unreachable,
    Unread,
    Malformed,
    Decoded(IpApiResponseView),
}

impl View for Reply {
    type V = ReplyView;

    open spec fn view(&self) -> ReplyView {
        match self {
            Reply::Unreachable => ReplyView::Unreachable,
            Reply::Unread => ReplyView::Unread,
            Reply::Malformed => ReplyView::Malformed,
            Reply::Decoded(response) => ReplyView::Decoded(response@),
        }
    }
}

impl Clone for Reply {
    fn clone(&self) -> (copy: Self)
        ensures
            copy == *self,
    {
        match self {
            Reply::Unreachable => Reply::Unreachable,
            Reply::Unread => Reply::Unread,
            Reply::Malformed => Reply::Malformed,
            Reply::Decoded(response) => Reply::Decoded(response.clone()),
        }
    }
}

/// Why an endpoint gave no country.
#[derive(Debug, Clone, Copy, PartialEq, Eq, Structural)]
pub enum Unavailable {
    /// The request failed on the way.
    Transport,
    /// The body did not decode.
    Decode,
    /// The answer named no country: its body was left unread, or it did not
    /// report success.
    NoData,
}

/// What one attempt at an endpoint of the given shape comes to.
pub open spec fn attempt(shape: ResponseShape, reply: ReplyView) -> Result<
    CountryInfoView,
    Unavailable,
> {
    match reply {
        ReplyView::Unreachable => Err(Unavailable::Transport),
        ReplyView::Malformed => Err(Unavailable::Decode),
        ReplyView::Unread => Err(Unavailable::NoData),
        ReplyView::Decoded(response) => if shape == ResponseShape::IpApi && reports_success(
            response,
        ) {
            Ok(located(response))
        } else {
            Err(Unavailable::NoData)
        },
    }
}

/// The outcome of an attempt as plain text.
pub open spec fn outcome_view(outcome: Result<CountryInfo, Unavailable>) -> Result<
    CountryInfoView,
    Unavailable,
> {
    match outcome {
        Ok(info) => Ok(info@),
        Err(reason) => Err(reason),
    }
}

/// What one attempt at an endpoint of the given shape comes to: the country
/// that the answer names, or the reason why there is none.
pub fn attempt_outcome(shape: ResponseShape, reply: Reply) -> (outcome: Result<
    CountryInfo,
    Unavailable,
>)
    ensures
        outcome_view(outcome) == attempt(shape, reply@),
        outcome matches Ok(info) ==> info@.well_formed(),
{
    match reply {
        Reply::Unreachable => Err(Unavailable::Transport),
        Reply::Malformed => Err(Unavailable::Decode),
        Reply::Unread => Err(Unavailable::NoData),
        Reply::Decoded(response) => {
            match shape {
                ResponseShape::IpApi => match country_from_response(response) {
                    Some(info) => Ok(info),
                    None => Err(Unavailable::NoData),
                },
                ResponseShape::Unparsed => Err(Unavailable::NoData),
            }
        },
    }
}

/// One move of a resolution.
#[derive(Debug, PartialEq, Eq)]
pub enum Step {
    /// Send one request to the endpoint, read the body as its shape says,
    /// and come back with the reply and with `index`.
    Ask { index: usize, endpoint: LookupEndpoint },
    /// The resolution is over, and this is its result.
    Done(CountryInfo),
}

/// A `Step` as plain values.
pub enum StepView {
    Ask { index: nat, endpoint: LookupEndpointView },
    Done(CountryInfoView),
}

impl View for Step {
    type V = StepView;

    open spec fn view(&self) -> StepView {
        match self {
            Step::Ask { index, endpoint } => StepView::Ask {
                index: *index as nat,
                endpoint: endpoint@,
            },
            Step::Done(info) => StepView::Done(info@),
        }
    }
}

impl Clone for Step {
    fn clone(&self) -> (copy: Self)
        ensures
            copy == *self,
    {
        match self {
            Step::Ask { index, endpoint } => Step::Ask { index: *index, endpoint: *endpoint },
            Step::Done(info) => Step::Done(info.clone()),
        }
    }
}

/// The move that stands at `index`: a request to the endpoint there, or,
/// past the last endpoint, the end with the unknown country.
pub open spec fn step_at(index: nat) -> StepView {
    if index < endpoint_urls().len() {
        StepView::Ask { index, endpoint: endpoint_at(index as int) }
    } else {
        StepView::Done(unknown_country())
    }
}

/// The move that follows `reply` to the request at `index`: the end with the
/// country found, or the move at the next index.
pub open spec fn step_after(index: nat, reply: ReplyView) -> StepView {
    if index < endpoint_urls().len() {
        match attempt(endpoint_at(index as int).shape, reply) {
            Ok(info) => StepView::Done(info),
            Err(_) => step_at(index + 1),
        }
    } else {
        StepView::Done(unknown_country())
    }
}

/// What a resolution returns that has come to `index`, where `replies[i]` is
/// what the endpoint at `i` answers: the country of the first endpoint from
/// `index` on whose attempt succeeds, the unknown country if there is none.
pub open spec fn resolution_from(index: nat, replies: Seq<ReplyView>) -> CountryInfoView
    decreases endpoint_urls().len() - index,
{
    if index < endpoint_urls().len() {
        match attempt(endpoint_at(index as int).shape, replies[index as int]) {
            Ok(info) => info,
            Err(_) => resolution_from(index + 1, replies),
        }
    } else {
        unknown_country()
    }
}

/// What a whole resolution returns, where `replies[i]` is what the endpoint
/// at `i` answers.
pub open spec fn resolution(replies: Seq<ReplyView>) -> CountryInfoView {
    resolution_from(0, replies)
}

/// The move at `index`.
fn step_from(index: usize) -> (step: Step)
    ensures
        step@ == step_at(index as nat),
{
    proof {
        lemma_only_first_endpoint_is_read();
    }
    match lookup_endpoint(index) {
        Some(endpoint) => Step::Ask { index, endpoint },
        None => Step::Done(CountryInfo::unknown()),
    }
}

/// The first move of a resolution: a request to the first endpoint.
pub fn first_step() -> (step: Step)
    ensures
        step@ == step_at(0),
{
    step_from(0)
}

/// The move that follows `reply` to the request at `index`. Every failure
/// counts the same: the next endpoint is asked, and past the last one the
/// resolution ends with the unknown country.
pub fn next_step(index: usize, reply: Reply) -> (step: Step)
    ensures
        step@ == step_after(index as nat, reply@),
{
    proof {
        lemma_only_first_endpoint_is_read();
    }
    match lookup_endpoint(index) {
        Some(endpoint) => match attempt_outcome(endpoint.shape, reply) {
            Ok(info) => Step::Done(info),
            Err(_) => step_from(index + 1),
        },
        None => Step::Done(CountryInfo::unknown()),
    }
}

/// A move keeps what the resolution will return. The reply to the request
/// at `index` either ends the resolution with its result, or leads to a
/// request to the endpoint at `index + 1`, from where the result is the same.
pub proof fn lemma_step_keeps_resolution(index: nat, replies: Seq<ReplyView>)
    requires
        index < endpoint_urls().len(),
    ensures
        match step_after(index, replies[index as int]) {
            StepView::Done(info) => info == resolution_from(index, replies),
            StepView::Ask { index: next, endpoint } => {
                &&& next == index + 1
                &&& next < endpoint_urls().len()
                &&& endpoint == endpoint_at(next as int)
                &&& resolution_from(next, replies) == resolution_from(index, replies)
            },
        },
{
    reveal_with_fuel(resolution_from, 2);
}

/// A failed attempt never ends the resolution early: whatever the reason,
/// the move that follows is the one at the next index.
pub proof fn lemma_failure_moves_on(index: nat, reply: ReplyView)
    requires
        index < endpoint_urls().len(),
        attempt(endpoint_at(index as int).shape, reply) is Err,
    ensures
        step_after(index, reply) == step_at(index + 1),
        index + 1 < endpoint_urls().len() ==> step_after(index, reply) == (StepView::Ask {
            index: index + 1,
            endpoint: endpoint_at(index as int + 1),
        }),
        index + 1 == endpoint_urls().len() ==> step_after(index, reply) == StepView::Done(
            unknown_country(),
        ),
{
}

/// The first success wins: where the attempt at `index` succeeds and every
/// attempt before it fails, the resolution returns the country found there.
pub proof fn lemma_first_success_wins(replies: Seq<ReplyView>, index: nat)
    requires
        index < endpoint_urls().len(),
        attempt(endpoint_at(index as int).shape, replies[index as int]) is Ok,
        forall|earlier: int|
            0 <= earlier < index ==> (#[trigger] attempt(
                endpoint_at(earlier).shape,
                replies[earlier],
            )) is Err,
    ensures
        Ok::<CountryInfoView, Unavailable>(resolution(replies)) == attempt(
            endpoint_at(index as int).shape,
            replies[index as int],
        ),
{
    lemma_only_first_endpoint_is_read();
    reveal_with_fuel(resolution_from, 4);
}

/// Where every attempt fails, the resolution returns the unknown country.
pub proof fn lemma_no_success_gives_unknown(replies: Seq<ReplyView>)
    requires
        forall|index: int|
            0 <= index < endpoint_urls().len() ==> (#[trigger] attempt(
                endpoint_at(index).shape,
                replies[index],
            )) is Err,
    ensures
        resolution(replies) == unknown_country(),
{
    lemma_only_first_endpoint_is_read();
    reveal_with_fuel(resolution_from, 4);
}

/// Only the first endpoint can name a country, so its reply decides: the
/// resolution returns the country of a decoded answer that reports success,
/// and the unknown country in every other case.
pub proof fn lemma_first_endpoint_decides(replies: Seq<ReplyView>)
    ensures
        resolution(replies) == match replies[0] {
            ReplyView::Decoded(response) => if reports_success(response) {
                located(response)
            } else {
                unknown_country()
            },
            _ => unknown_country(),
        },
{
    lemma_only_first_endpoint_is_read();
    reveal_with_fuel(resolution_from, 4);
}

/// Whatever the endpoints answer, the resolution returns a country whose
/// glyph belongs to its code.
pub proof fn lemma_resolution_is_well_formed(replies: Seq<ReplyView>)
    ensures
        resolution(replies).well_formed(),
{
    lemma_first_endpoint_decides(replies);
    lemma_unknown_is_well_formed();
}

} // verus!
