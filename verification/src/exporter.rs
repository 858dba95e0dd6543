//! The scrape endpoint: where the exporter listens, and what it answers.
//!
//! The exporter answers every request alike, whatever its method and path,
//! with a snapshot of all the instruments that the process has registered.
//! Listening and serving are left to the program around this library.

use vstd::prelude::*;
use vstd::string::StringExecFns;
use crate::instruments::{encode_text, gather_families, text_encoding, text_format_type};
use crate::register::MetricsError;
use crate::text::{decimal, decimal_string};

verus! {

/// The status of every answer.
pub const STATUS_OK: u16 = 200;

/// The answer to a scrape request.
pub struct ScrapeResponse {
    /// The HTTP status.
    pub status: u16,
    /// The value of the `Content-Type` header.
    pub content_type: String,
    /// The snapshot, in the plaintext exposition format.
    pub body: Vec<u8>,
}

/// The address to listen on, as text: the host, a colon, the port in decimal.
pub open spec fn listen_address_of(address: Seq<char>, port: u16) -> Seq<char> {
    address + ":"@ + decimal(port as nat)
}

/// Builds the text of the address to listen on.
pub fn listen_address(address: &str, port: u16) -> (text: String)
    ensures
        text@ == listen_address_of(address@, port),
{
    let port_text = decimal_string(port);
    String::from_str(address).concat(":").concat(port_text.as_str())
}

/// What a scrape answers for an encoded snapshot: the snapshot with the
/// status and the content type of every answer, or the encoder's refusal.
pub open spec fn response_for(
    encoded: Result<Vec<u8>, prometheus::Error>,
    content_type: String,
    answer: Result<ScrapeResponse, MetricsError>,
) -> bool {
    match encoded {
        Ok(body) => answer == Ok::<ScrapeResponse, MetricsError>(
            ScrapeResponse { status: STATUS_OK, content_type, body },
        ),
        Err(cause) => answer == Err::<ScrapeResponse, MetricsError>(MetricsError::Encode { cause }),
    }
}

/// Wraps an encoded snapshot into the answer to a scrape request.
pub fn respond(encoded: Result<Vec<u8>, prometheus::Error>, content_type: String) -> (answer: Result<
    ScrapeResponse,
    MetricsError,
>)
    ensures
        response_for(encoded, content_type, answer),
{
    match encoded {
        Ok(body) => Ok(ScrapeResponse { status: STATUS_OK, content_type, body }),
        Err(cause) => Err(MetricsError::Encode { cause }),
    }
}

/// The content type of every answer: the one that the text encoder declares.
pub const TEXT_FORMAT: &'static str = "text/plain; version=0.0.4";

/// The answer to a scrape request on a snapshot: its plaintext exposition
/// with the status and the content type of every answer, or an encode error
/// where the encoder refuses the snapshot.
pub open spec fn is_answer_for(
    families: Seq<prometheus::proto::MetricFamily>,
    answer: Result<ScrapeResponse, MetricsError>,
) -> bool {
    match answer {
        Ok(response) => {
            &&& response.status == STATUS_OK
            &&& response.content_type@ == TEXT_FORMAT@
            &&& text_encoding(families) == Some(response.body@)
        },
        Err(error) => error is Encode && text_encoding(families) is None,
    }
}

/// Answers a scrape request on a snapshot that was gathered.
pub fn answer_for(families: &Vec<prometheus::proto::MetricFamily>) -> (answer: Result<
    ScrapeResponse,
    MetricsError,
>)
    ensures
        is_answer_for(families@, answer),
{
    respond(encode_text(families), text_format_type())
}

/// Answers a scrape request: gathers a snapshot of every instrument that the
/// process has registered and encodes it. What the snapshot holds is the
/// backend's to say; the answer is the one for that snapshot.
pub fn scrape() -> (answer: Result<ScrapeResponse, MetricsError>)
    ensures
        exists|families: Seq<prometheus::proto::MetricFamily>| #[trigger] is_answer_for(families, answer),
        match answer {
            Ok(response) => response.status == STATUS_OK && response.content_type@ == TEXT_FORMAT@,
            Err(error) => error is Encode,
        },
{
    let families = gather_families();
    answer_for(&families)
}

} // verus!
