//! Fetching a page, as far as it can be decided without a network: what to
//! ask for, what the server's status means, and what the fetch ends in. The
//! caller performs the request and reports each thing that happens as an
//! [`Event`]; the [`Fetch`] it holds says what to do next.

use crate::address::{build_url, spec_build_url, ClapArgs};
use crate::error::{TranslError, TranslErrorView};
use vstd::prelude::*;

verus! {

/// The one status that lets a fetch go on to read the body.
pub const STATUS_OK: u16 = 200;

/// Where a fetch stands, which is also what its caller has to do next.
#[derive(Debug, PartialEq, Eq)]
pub enum Fetch {
    /// Request `address` and report the status, or the failure to get one.
    Requesting { address: String },
    /// The status was 200: read the whole body as text and report it, or the
    /// failure to read it.
    Reading,
    /// The fetch is over, with the page's markup or with the reason why there
    /// is none.
    Done { outcome: Result<String, TranslError> },
}

/// Mathematical model of a [`Fetch`].
pub enum FetchView {
    Requesting { address: Seq<char> },
    Reading,
    Done { outcome: Result<Seq<char>, TranslErrorView> },
}

impl View for Fetch {
    type V = FetchView;

    open spec fn view(&self) -> FetchView {
        match self {
            Fetch::Requesting { address } => FetchView::Requesting { address: address@ },
            Fetch::Reading => FetchView::Reading,
            Fetch::Done { outcome } => FetchView::Done { outcome: fetched_view(*outcome) },
        }
    }
}

/// Mathematical model of a fetch's outcome.
pub open spec fn fetched_view(outcome: Result<String, TranslError>) -> Result<
    Seq<char>,
    TranslErrorView,
> {
    match outcome {
        Ok(body) => Ok(body@),
        Err(error) => Err(error@),
    }
}

/// What the caller reports to a fetch.
#[derive(Debug, PartialEq, Eq)]
pub enum Event {
    /// The server answered with this status code.
    Status(u16),
    /// The body was read in full; this is its text.
    Body(String),
    /// The transport failed, while requesting or while reading the body.
    Failed(String),
}

/// Mathematical model of an [`Event`].
pub enum EventView {
    Status(u16),
    Body(Seq<char>),
    Failed(Seq<char>),
}

impl View for Event {
    type V = EventView;

    open spec fn view(&self) -> EventView {
        match self {
            Event::Status(code) => EventView::Status(*code),
            Event::Body(text) => EventView::Body(text@),
            Event::Failed(message) => EventView::Failed(message@),
        }
    }
}

/// The state after `event`.
///
/// While requesting, status 200 leads on to reading and every other status
/// ends the fetch as `FindError`. While reading, the body ends the fetch with
/// that body. In both, a transport failure ends the fetch as `ReqError` with
/// the failure's message. An event that does not answer what the fetch is
/// waiting for changes nothing; a finished fetch stays as it is.
pub open spec fn spec_step(state: FetchView, event: EventView) -> FetchView {
    match (state, event) {
        (FetchView::Requesting { .. }, EventView::Status(code)) => if code == STATUS_OK {
            FetchView::Reading
        } else {
            FetchView::Done { outcome: Err(TranslErrorView::FindError) }
        },
        (FetchView::Reading, EventView::Body(text)) => FetchView::Done { outcome: Ok(text) },
        (FetchView::Requesting { .. }, EventView::Failed(message)) => FetchView::Done {
            outcome: Err(TranslErrorView::ReqError { message }),
        },
        (FetchView::Reading, EventView::Failed(message)) => FetchView::Done {
            outcome: Err(TranslErrorView::ReqError { message }),
        },
        (state, _) => state,
    }
}

impl Fetch {
    /// Begins the fetch of the page of the word in `args`: the address to
    /// request is the one built for that word.
    pub fn start(args: &ClapArgs) -> (fetch: Fetch)
        ensures
            fetch@ == (FetchView::Requesting { address: spec_build_url(args@) }),
    {
        Fetch::Requesting { address: build_url(args.word.as_str()) }
    }

    /// Takes the fetch one event further.
    pub fn step(self, event: Event) -> (next: Fetch)
        ensures
            next@ == spec_step(self@, event@),
    {
        match self {
            Fetch::Requesting { address } => match event {
                Event::Status(code) => if code == STATUS_OK {
                    Fetch::Reading
                } else {
                    Fetch::Done { outcome: Err(TranslError::FindError) }
                },
                Event::Failed(message) => Fetch::Done {
                    outcome: Err(TranslError::ReqError { message }),
                },
                Event::Body(_) => Fetch::Requesting { address },
            },
            Fetch::Reading => match event {
                Event::Body(text) => Fetch::Done { outcome: Ok(text) },
                Event::Failed(message) => Fetch::Done {
                    outcome: Err(TranslError::ReqError { message }),
                },
                Event::Status(_) => Fetch::Reading,
            },
            Fetch::Done { outcome } => Fetch::Done { outcome },
        }
    }
}

/// A status other than 200 ends the fetch as `FindError`, whatever the status
/// and whatever the address.
pub proof fn lemma_other_status_is_find_error(address: Seq<char>, code: u16)
    requires
        code != STATUS_OK,
    ensures
        spec_step(FetchView::Requesting { address }, EventView::Status(code)) == (FetchView::Done {
            outcome: Err(TranslErrorView::FindError),
        }),
{
}

/// Status 200 followed by a body that could be read ends the fetch with that
/// body, unchanged.
pub proof fn lemma_ok_status_yields_body(address: Seq<char>, body: Seq<char>)
    ensures
        spec_step(
            spec_step(FetchView::Requesting { address }, EventView::Status(STATUS_OK)),
            EventView::Body(body),
        ) == (FetchView::Done { outcome: Ok(body) }),
{
}

/// A transport failure ends the fetch as `ReqError` with the failure's
/// message, be it met while requesting or, after status 200, while reading.
pub proof fn lemma_transport_failure_is_req_error(address: Seq<char>, message: Seq<char>)
    ensures
        spec_step(FetchView::Requesting { address }, EventView::Failed(message)) == (
        FetchView::Done { outcome: Err(TranslErrorView::ReqError { message }) }),
        spec_step(
            spec_step(FetchView::Requesting { address }, EventView::Status(STATUS_OK)),
            EventView::Failed(message),
        ) == (FetchView::Done { outcome: Err(TranslErrorView::ReqError { message }) }),
{
}

/// A finished fetch is final: no event changes its outcome.
pub proof fn lemma_done_is_final(outcome: Result<Seq<char>, TranslErrorView>, event: EventView)
    ensures
        spec_step(FetchView::Done { outcome }, event) == (FetchView::Done { outcome }),
{
}

} // verus!
