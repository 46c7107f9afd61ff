//! Protocol loop logic: the engine's request dispatch and event handling.
//! The transport (line framing, JSON encoding and decoding) is the
//! embedding program's concern; requests reach this module as plain
//! values, and responses and notifications leave it as plain values. Every
//! response answers exactly one request by id and carries exactly one of a
//! result or an error.

use vstd::prelude::*;
use vstd::string::StringExecFns;

use crate::cache::FileCache;
use crate::events::ChangeEvent;
use crate::scanner::Scanner;
use crate::types::FileResult;
use crate::types::ScanReport;

verus! {

/// Parameters of a request, as the transport layer decoded them: the root
/// path for `scan` and `watch`, or the decoder's error text when the
/// parameters did not match the expected shape.
pub enum ParamsValue {
    Root(String),
    Malformed(String),
}

/// One request: its id, its method name, and its decoded parameters.
pub struct Request {
    pub id: u64,
    pub method: String,
    pub params: ParamsValue,
}

/// What a successful request produces.
pub enum ResponseBody {
    /// The report of a completed `scan`.
    Report(ScanReport),
    /// Acknowledgement that a `watch` began observation.
    WatchStarted,
}

/// One response: the id of the request it answers, and its outcome.
pub struct Response {
    pub id: u64,
    pub result: Option<ResponseBody>,
    pub error: Option<String>,
}

/// A well-formed response carries exactly one of a result or an error.
pub open spec fn response_wf(r: Response) -> bool {
    r.result is Some <==> r.error is None
}

/// An unsolicited message from engine to client, carrying the fresh result
/// for one changed file.
pub struct Notification {
    pub method: String,
    pub params: FileResult,
}

/// What the loop must do for a request: run a scan, start a watcher, or
/// reply at once.
pub enum DispatchAction {
    /// Run a full scan rooted at the given path, then answer the request
    /// with its report.
    RunScan(u64, String),
    /// Start observing the given root, then answer the request with the
    /// outcome.
    RunWatch(u64, String),
    /// Answer at once, without scanning or watching.
    Reply(Response),
}

/// The action answers the request `id` at once, with no result and with
/// exactly the error text `msg`.
pub open spec fn replies_error(a: DispatchAction, id: u64, msg: Seq<char>) -> bool {
    &&& a is Reply
    &&& a->Reply_0.id == id
    &&& a->Reply_0.result is None
    &&& a->Reply_0.error is Some
    &&& a->Reply_0.error->Some_0@ == msg
}

/// Decides what a request asks for. `scan` and `watch` requests with a
/// well-shaped root proceed; ill-shaped parameters and unknown methods are
/// answered at once with an error naming the cause, and never stop the
/// loop.
pub fn dispatch(req: Request) -> (a: DispatchAction)
    ensures
        req.method@ == "scan"@ && req.params is Root ==> a is RunScan && a->RunScan_0 == req.id
            && a->RunScan_1@ == req.params->Root_0@,
        req.method@ == "watch"@ && req.params is Root ==> a is RunWatch && a->RunWatch_0 == req.id
            && a->RunWatch_1@ == req.params->Root_0@,
        (req.method@ == "scan"@ || req.method@ == "watch"@) && req.params is Malformed
            ==> replies_error(a, req.id, "Invalid params: "@ + req.params->Malformed_0@),
        req.method@ != "scan"@ && req.method@ != "watch"@ ==> replies_error(
            a,
            req.id,
            "Unknown method: "@ + req.method@,
        ),
        a is Reply ==> response_wf(a->Reply_0),
{
    proof {
        reveal_strlit("scan");
        reveal_strlit("watch");
        assert("scan"@.len() == 4);
        assert("watch"@.len() == 5);
    }
    let is_scan = req.method == "scan".to_owned();
    let is_watch = req.method == "watch".to_owned();
    if is_scan || is_watch {
        match req.params {
            ParamsValue::Root(root) => {
                if is_scan {
                    DispatchAction::RunScan(req.id, root)
                } else {
                    DispatchAction::RunWatch(req.id, root)
                }
            },
            ParamsValue::Malformed(e) => {
                let msg = "Invalid params: ".to_owned().concat(e.as_str());
                DispatchAction::Reply(
                    Response { id: req.id, result: Option::None, error: Option::Some(msg) },
                )
            },
        }
    } else {
        let msg = "Unknown method: ".to_owned().concat(req.method.as_str());
        DispatchAction::Reply(
            Response { id: req.id, result: Option::None, error: Option::Some(msg) },
        )
    }
}

/// Builds the response to a completed `scan` request: its report as the
/// result, and no error.
pub fn scan_response(id: u64, report: ScanReport) -> (r: Response)
    ensures
        r.id == id,
        r.result is Some && r.result->Some_0 is Report && r.result->Some_0->Report_0@ == report@,
        r.error is None,
        response_wf(r),
{
    Response { id, result: Option::Some(ResponseBody::Report(report)), error: Option::None }
}

/// Builds the response to a `watch` request from the attempt to start
/// observation: an acknowledgement on success, or an error naming the
/// failure; no watcher state is recorded on failure.
pub fn watch_response(id: u64, outcome: Result<(), String>) -> (r: Response)
    ensures
        r.id == id,
        outcome is Ok ==> r.result is Some && r.result->Some_0 is WatchStarted && r.error is None,
        outcome is Err ==> r.result is None && r.error is Some && r.error->Some_0@
            == "Failed to start watcher: "@ + outcome->Err_0@,
        response_wf(r),
{
    match outcome {
        Result::Ok(()) => Response {
            id,
            result: Option::Some(ResponseBody::WatchStarted),
            error: Option::None,
        },
        Result::Err(e) => {
            let msg = "Failed to start watcher: ".to_owned().concat(e.as_str());
            Response { id, result: Option::None, error: Option::Some(msg) }
        },
    }
}

/// Builds the `file_updated` notification for one changed file, carrying
/// exactly the per-file result a fresh single-file scan computed for it.
pub fn file_updated_notification(fr: FileResult) -> (n: Notification)
    ensures
        n.method@ == "file_updated"@,
        n.params@ == fr@,
{
    Notification { method: "file_updated".to_owned(), params: fr }
}

/// Reacts to one drained filesystem event. A removed file's cache entry is
/// invalidated and nothing is reported for it. A created or modified file
/// must be re-scanned when a scanner exists, so its path is handed back;
/// without a scanner there is nothing to re-run and the event is dropped.
pub fn apply_event(cache: &mut FileCache, has_scanner: bool, event: ChangeEvent) -> (r: Option<
    String,
>)
    ensures
        final(cache)@.fingerprint == old(cache)@.fingerprint,
        event matches ChangeEvent::Removed(p) ==> final(cache)@.entries == old(
            cache,
        )@.entries.remove(p@) && r is None,
        event matches ChangeEvent::Created(p) ==> final(cache)@ == old(cache)@ && (if has_scanner {
            r matches Some(q) && q@ == p@
        } else {
            r is None
        }),
        event matches ChangeEvent::Modified(p) ==> final(cache)@ == old(cache)@ && (if has_scanner {
            r matches Some(q) && q@ == p@
        } else {
            r is None
        }),
{
    match event {
        ChangeEvent::Removed(p) => {
            cache.invalidate(&p);
            Option::None
        },
        ChangeEvent::Created(p) => {
            if has_scanner {
                Option::Some(p)
            } else {
                Option::None
            }
        },
        ChangeEvent::Modified(p) => {
            if has_scanner {
                Option::Some(p)
            } else {
                Option::None
            }
        },
    }
}

/// The protocol loop's state: the scanner kept from the last `scan`
/// request, whether a watcher is active, and the cache shared by every
/// scan and re-scan of this process.
pub struct ServerState {
    pub scanner: Option<Scanner>,
    pub watching: bool,
    pub cache: FileCache,
}

impl ServerState {
    /// Fresh state: no scanner, no watcher, an empty cache under
    /// fingerprint zero.
    pub fn new() -> (r: ServerState)
        ensures
            r.scanner is None,
            !r.watching,
            r.cache@.entries == crate::cache::empty_entries(),
            r.cache@.fingerprint == 0,
    {
        ServerState { scanner: Option::None, watching: false, cache: FileCache::new() }
    }
}

} // verus!
