//! The decisions of one GET: parse the URI, send the request, read the first
//! body chunk, and hand back the outcome.
use hyper::http::uri::InvalidUri;
use hyper::Uri;
use vstd::prelude::*;

verus! {

#[verifier::external_type_specification]
#[verifier::external_body]
pub struct ExUri(hyper::Uri);

#[verifier::external_type_specification]
#[verifier::external_body]
pub struct ExInvalidUri(hyper::http::uri::InvalidUri);

/// Whether `s` is accepted as a URI by `http`'s parser.
pub uninterp spec fn uri_parses(s: Seq<char>) -> bool;

/// Relies on `<hyper::Uri as FromStr>::from_str` (`Uri::try_from` on the
/// string's bytes): whether it succeeds depends on the text alone.
#[verifier::external_body]
fn parse_uri(s: &str) -> (r: Result<Uri, InvalidUri>)
    ensures
        r.is_ok() == uri_parses(s@),
{
    s.parse::<Uri>()
}

/// Where a fetch stands.
#[derive(Clone, Copy, Debug, PartialEq, Eq, Structural)]
pub enum Stage {
    /// Nothing has happened yet.
    Start,
    /// The URI did not parse; the rejection is being logged.
    Rejected,
    /// The request is in flight.
    Sent,
    /// The response arrived; its body's first chunk is awaited.
    Reading,
    /// The fetch is over.
    Done,
}

/// What the driver of a fetch reports back.
pub enum FetchEvent<E> {
    /// The outcome of parsing the URI.
    UriParsed(Result<Uri, InvalidUri>),
    /// The URI's rejection was written to the error log.
    Logged,
    /// The client call returned: `Ok` once a response is there, or the
    /// transport error.
    Responded(Result<(), E>),
    /// The first element of the response body stream, `None` if it had none.
    BodyChunk(Option<Result<Vec<u8>, E>>),
}

/// What the driver of a fetch does next.
pub enum FetchAction<E> {
    /// Write one error-level log line naming the URI and this parse error.
    LogInvalidUri(InvalidUri),
    /// Issue a GET for this URI.
    SendRequest(Uri),
    /// Pull the first element of the response body.
    ReadFirstChunk,
    /// The fetch is over; hand this to the caller.
    Finish(Option<Result<Vec<u8>, E>>),
}

/// Whether a fetch at stage `s` takes the event `ev`.
pub open spec fn accepts<E>(s: Stage, ev: FetchEvent<E>) -> bool {
    match (s, ev) {
        (Stage::Start, FetchEvent::UriParsed(_)) => true,
        (Stage::Rejected, FetchEvent::Logged) => true,
        (Stage::Sent, FetchEvent::Responded(_)) => true,
        (Stage::Reading, FetchEvent::BodyChunk(_)) => true,
        _ => false,
    }
}

/// The stage a fetch moves to and the action it asks for, on an event it
/// takes.
pub open spec fn next<E>(s: Stage, ev: FetchEvent<E>) -> (Stage, FetchAction<E>)
    recommends
        accepts(s, ev),
{
    match ev {
        FetchEvent::UriParsed(Ok(uri)) => (Stage::Sent, FetchAction::SendRequest(uri)),
        FetchEvent::UriParsed(Err(e)) => (Stage::Rejected, FetchAction::LogInvalidUri(e)),
        FetchEvent::Logged => (Stage::Done, FetchAction::Finish(None)),
        FetchEvent::Responded(Ok(())) => (Stage::Reading, FetchAction::ReadFirstChunk),
        FetchEvent::Responded(Err(e)) => (Stage::Done, FetchAction::Finish(Some(Err(e)))),
        FetchEvent::BodyChunk(c) => (Stage::Done, FetchAction::Finish(c)),
    }
}

/// One GET in progress.
pub struct Fetch {
    pub stage: Stage,
}

impl Fetch {
    /// A fetch that has not begun.
    pub fn new() -> (r: Fetch)
        ensures
            r.stage == Stage::Start,
    {
        Fetch { stage: Stage::Start }
    }

    /// Whether the fetch takes `ev` at its current stage.
    pub fn expects<E>(&self, ev: &FetchEvent<E>) -> (r: bool)
        ensures
            r == accepts(self.stage, *ev),
    {
        match (self.stage, ev) {
            (Stage::Start, FetchEvent::UriParsed(_)) => true,
            (Stage::Rejected, FetchEvent::Logged) => true,
            (Stage::Sent, FetchEvent::Responded(_)) => true,
            (Stage::Reading, FetchEvent::BodyChunk(_)) => true,
            _ => false,
        }
    }

    /// Whether the fetch is over.
    pub fn is_done(&self) -> (r: bool)
        ensures
            r == (self.stage == Stage::Done),
    {
        self.stage == Stage::Done
    }

    /// Takes one event and says what to do next.
    pub fn step<E>(&mut self, ev: FetchEvent<E>) -> (r: FetchAction<E>)
        requires
            accepts(old(self).stage, ev),
        ensures
            (final(self).stage, r) == next(old(self).stage, ev),
    {
        match ev {
            FetchEvent::UriParsed(Ok(uri)) => {
                self.stage = Stage::Sent;
                FetchAction::SendRequest(uri)
            },
            FetchEvent::UriParsed(Err(e)) => {
                self.stage = Stage::Rejected;
                FetchAction::LogInvalidUri(e)
            },
            FetchEvent::Logged => {
                self.stage = Stage::Done;
                FetchAction::Finish(None)
            },
            FetchEvent::Responded(Ok(())) => {
                self.stage = Stage::Reading;
                FetchAction::ReadFirstChunk
            },
            FetchEvent::Responded(Err(e)) => {
                self.stage = Stage::Done;
                FetchAction::Finish(Some(Err(e)))
            },
            FetchEvent::BodyChunk(c) => {
                self.stage = Stage::Done;
                FetchAction::Finish(c)
            },
        }
    }

    /// Begins a GET of `uri`: parses it and asks for the request, or for the
    /// rejection to be logged when it does not parse.
    pub fn start<E>(uri: &str) -> (r: (Fetch, FetchAction<E>))
        ensures
            uri_parses(uri@) ==> r.0.stage == Stage::Sent && r.1 is SendRequest,
            !uri_parses(uri@) ==> r.0.stage == Stage::Rejected && r.1 is LogInvalidUri,
    {
        let mut f = Fetch::new();
        let parsed = parse_uri(uri);
        let a = f.step(FetchEvent::UriParsed(parsed));
        (f, a)
    }
}

/// A URI that does not parse ends the fetch after exactly one log entry and
/// with no result: the rejection asks for a log line, the one event that
/// follows ends the fetch with `None`, and a finished fetch takes no event, so
/// no request is ever sent.
pub proof fn lemma_rejected_uri_logs_once<E>(e: InvalidUri)
    ensures
        next::<E>(Stage::Start, FetchEvent::UriParsed(Err(e))) == (
            Stage::Rejected,
            FetchAction::<E>::LogInvalidUri(e),
        ),
        forall|ev: FetchEvent<E>| #[trigger]
            accepts(Stage::Rejected, ev) ==> next(Stage::Rejected, ev) == (
                Stage::Done,
                FetchAction::<E>::Finish(None),
            ),
        forall|ev: FetchEvent<E>| !#[trigger] accepts(Stage::Done, ev),
{
}

/// A request that fails in transport ends the fetch with that very error,
/// and no body is read.
pub proof fn lemma_transport_error_is_returned<E>(e: E)
    ensures
        next(Stage::Sent, FetchEvent::Responded(Err(e))) == (
            Stage::Done,
            FetchAction::<E>::Finish(Some(Err(e))),
        ),
{
}

/// When the response body arrives as the single chunk `first`, the fetch
/// returns it, and it is the whole body.
pub proof fn lemma_single_chunk_body_is_whole<E>(chunks: Seq<Seq<u8>>, first: Vec<u8>)
    requires
        chunks.len() == 1,
        first@ == chunks[0],
    ensures
        next(Stage::Reading, FetchEvent::<E>::BodyChunk(Some(Ok(first)))) == (
            Stage::Done,
            FetchAction::<E>::Finish(Some(Ok(first))),
        ),
        first@ == chunks.flatten(),
{
    chunks.lemma_flatten_one_element();
}

/// When the response body arrives as two or more non-empty chunks, the fetch
/// returns the first one only, a strict prefix of the body.
pub proof fn lemma_split_body_is_truncated<E>(chunks: Seq<Seq<u8>>, first: Vec<u8>)
    requires
        chunks.len() > 1,
        forall|i: int| 0 <= i < chunks.len() ==> #[trigger] chunks[i].len() > 0,
        first@ == chunks[0],
    ensures
        next(Stage::Reading, FetchEvent::<E>::BodyChunk(Some(Ok(first)))) == (
            Stage::Done,
            FetchAction::<E>::Finish(Some(Ok(first))),
        ),
        first@.is_prefix_of(chunks.flatten()),
        first@.len() < chunks.flatten().len(),
{
    let rest = chunks.drop_first();
    assert(chunks.flatten() == chunks[0] + rest.flatten());
    assert(rest[0] == chunks[1]);
    assert(rest.flatten() == rest[0] + rest.drop_first().flatten());
    assert(first@ =~= chunks.flatten().subrange(0, first@.len() as int));
}

} // verus!
