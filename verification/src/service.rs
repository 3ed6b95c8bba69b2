//! The exporter service's decisions: how a request is routed, and what one
//! scrape does to the gauges and answers to the caller.
//!
//! The service owns no socket: the surrounding program accepts connections,
//! hands in the request's method and path as strings and — for a scrape —
//! the bytes captured from the measurement program, and writes the returned
//! reply back out.

use vstd::prelude::*;
use vstd::string::*;
use crate::bbk::{parse_output, spec_parse_output, BbkError, BbkOutput, BbkOutputModel};
use crate::gauges::{text_format, GaugeSet};
use crate::text::str_eq;

verus! {

/// A response of the service: the status code, the `Content-Type` header
/// if one is set, and the body text.
#[derive(Debug, PartialEq, Clone)]
pub struct HttpReply {
    pub status: u16,
    pub content_type: Option<String>,
    pub body: String,
}

/// What the service decides for one incoming request.
#[derive(Debug)]
pub enum RequestAction {
    /// The request is a scrape: run the measurement program and hand its
    /// captured output to [`handle_scrape`].
    RunMeasurement,
    /// Answer at once with this reply.
    Respond(HttpReply),
}

/// The 404 reply: any route other than `GET /metrics` gets this.
pub fn not_found() -> (r: HttpReply)
    ensures
        r.status == 404,
        r.body@ == "Not found"@,
        r.content_type is None,
{
    HttpReply { status: 404, content_type: None, body: "Not found".to_owned() }
}

/// The 500 reply: every scrape failure is answered with this fixed body.
pub fn internal_server_error() -> (r: HttpReply)
    ensures
        r.status == 500,
        r.body@ == "Failure while running bbk"@,
        r.content_type is None,
{
    HttpReply { status: 500, content_type: None, body: "Failure while running bbk".to_owned() }
}

/// Routes one request: `GET /metrics` triggers a fresh measurement; every
/// other method or path is answered at once with 404 `Not found`.
pub fn route_request(method: &str, path: &str) -> (r: RequestAction)
    ensures
        (method@ == "GET"@ && path@ == "/metrics"@ ==> r is RunMeasurement),
        (!(method@ == "GET"@ && path@ == "/metrics"@) ==> (r matches RequestAction::Respond(rep)
            && rep.status == 404 && rep.body@ == "Not found"@ && rep.content_type is None)),
{
    if str_eq(method, "GET") && str_eq(path, "/metrics") {
        RequestAction::RunMeasurement
    } else {
        RequestAction::Respond(not_found())
    }
}

/// The 200 reply serving a rendered exposition: the body verbatim, under
/// the text exposition content type.
pub fn metrics_reply(rendered: String) -> (r: HttpReply)
    ensures
        r.status == 200,
        r.body@ == rendered@,
        (r.content_type matches Some(ct) && ct@ == "text/plain; version=0.0.4"@),
{
    HttpReply { status: 200, content_type: Some(text_format().to_owned()), body: rendered }
}

/// What one capture yields: the spawn failure as handed in, or the parse
/// of the captured bytes.
pub open spec fn scrape_outcome(captured: Result<Vec<u8>, BbkError>) -> Result<
    BbkOutputModel,
    BbkError,
> {
    match captured {
        Ok(bytes) => spec_parse_output(bytes@),
        Err(e) => Err(e),
    }
}

/// One scrape, given what came back from the measurement program: on a
/// parseable capture the three gauges are set at the record's label pair
/// and the rendered exposition of the updated state is served with 200;
/// on any failure — the program could not run, its output did not decode,
/// or it did not parse — the gauges are left untouched and the reply is
/// the fixed 500.
pub fn handle_scrape(gauges: &mut GaugeSet, captured: Result<Vec<u8>, BbkError>) -> (r: HttpReply)
    requires
        old(gauges).wf(),
    ensures
        final(gauges).wf(),
        (scrape_outcome(captured) matches Ok(rec) ==> final(gauges)@ == old(gauges)@.with_record(
            rec,
        ) && r.status == 200 && r.body@ == crate::gauges::rendered_text(final(gauges)@)
            && (r.content_type matches Some(ct) && ct@ == "text/plain; version=0.0.4"@)),
        (scrape_outcome(captured) is Err ==> final(gauges)@ == old(gauges)@ && r.status == 500
            && r.body@ == "Failure while running bbk"@ && r.content_type is None),
{
    let rec: BbkOutput = match captured {
        Ok(bytes) => {
            match parse_output(bytes) {
                Ok(rec) => rec,
                Err(_) => {
                    return internal_server_error();
                },
            }
        },
        Err(_) => {
            return internal_server_error();
        },
    };
    gauges.update(&rec);
    metrics_reply(gauges.render())
}

} // verus!
