//! The deferred fetch: a descriptor that captures a URL when it is made and
//! asks for the GET only when a stream is wanted.
//!
//! The library does no network access of its own. A descriptor hands out the
//! request to perform; whoever owns the transport performs it and gives the
//! answer to the request, which turns it into the stream or the error that the
//! consumer sees.

use vstd::prelude::*;
use crate::error::FetchError;

verus! {

/// One HTTP GET to perform: a blocking request to `url`, on a connection of
/// its own, with no header and no cookie added.
#[derive(Debug)]
pub struct GetRequest {
    url: String,
}

impl View for GetRequest {
    type V = Seq<char>;

    /// The URL to fetch.
    closed spec fn view(&self) -> Seq<char> {
        self.url@
    }
}

/// What a request yields for an answer of the transport: the stream it
/// opened, untouched, or a fetch error that carries the transport's error.
pub open spec fn completed<S>(answer: Result<S, reqwest::Error>) -> Result<S, FetchError> {
    match answer {
        Ok(stream) => Ok(stream),
        Err(cause) => Err(FetchError { cause }),
    }
}

impl GetRequest {
    pub(crate) fn new(url: String) -> (request: GetRequest)
        ensures
            request@ == url@,
    {
        GetRequest { url }
    }

    pub fn url(&self) -> (url: &str)
        ensures
            url@ == self@,
    {
        self.url.as_str()
    }

    /// Ends the request with the transport's answer to it. A response passes
    /// to the caller as it came, nothing of it read; a failure is final, with
    /// no second attempt and no partial result.
    pub fn complete<S>(self, answer: Result<S, reqwest::Error>) -> (outcome: Result<S, FetchError>)
        ensures
            outcome == completed(answer),
    {
        match answer {
            Ok(stream) => Ok(stream),
            Err(cause) => Err(FetchError { cause }),
        }
    }
}

/// The parameters of one future HTTP GET. A descriptor owns its URL and never
/// changes; making one touches no network and cannot fail.
#[derive(Debug)]
pub struct RequestReader {
    url: String,
}

impl View for RequestReader {
    type V = Seq<char>;

    /// The captured URL.
    closed spec fn view(&self) -> Seq<char> {
        self.url@
    }
}

impl RequestReader {
    /// Captures `url` as it is. A malformed or unreachable URL shows only when
    /// a request generated from the descriptor is performed.
    pub fn new(url: String) -> (reader: RequestReader)
        ensures
            reader@ == url@,
    {
        RequestReader { url }
    }

    pub fn url(&self) -> (url: &str)
        ensures
            url@ == self@,
    {
        self.url.as_str()
    }

    /// The GET that produces the byte stream. Every call gives a request of
    /// its own for the captured URL; the descriptor keeps nothing of earlier
    /// requests or of their answers.
    pub fn generate(&self) -> (request: GetRequest)
        ensures
            request@ == self@,
    {
        GetRequest::new(self.url.clone())
    }
}

/// A fetch fails exactly when the transport failed, and then with the
/// transport's own error as its cause; otherwise the stream is the one the
/// transport opened. Making the descriptor plays no part in it.
pub proof fn lemma_failure_comes_with_the_answer<S>(answer: Result<S, reqwest::Error>)
    ensures
        completed(answer) is Err <==> answer is Err,
        answer matches Err(cause) ==> completed(answer) == Err::<S, FetchError>(
            FetchError { cause },
        ),
        answer matches Ok(stream) ==> completed(answer) == Ok::<S, FetchError>(stream),
{
}

/// Two requests generated from one descriptor are both for the captured URL,
/// and the second ends by the answer given to it: whatever the first answer
/// was, it decides nothing about the second outcome.
pub proof fn lemma_generate_twice<S>(
    reader: RequestReader,
    first: GetRequest,
    second: GetRequest,
    first_answer: Result<S, reqwest::Error>,
    second_answer: Result<S, reqwest::Error>,
)
    requires
        first@ == reader@,
        second@ == reader@,
    ensures
        first@ == second@,
        completed(second_answer) is Ok <==> second_answer is Ok,
        second_answer matches Ok(stream) ==> completed(second_answer) == Ok::<S, FetchError>(
            stream,
        ),
{
}

} // verus!
