//! What the control logic hands to the HTTP interface and takes from it:
//! the bodies of answers before they are encoded, the summary of the
//! stepper, and the assembly of an answer from an encoded body.

use vstd::prelude::*;
use vstd::string::*;
use crate::config::{ConfigInstance, ConfigModel};
use crate::error::{Error, Result};
use crate::mister::Mister;
use crate::mode::{ChangeMode, Mode, Status};
use crate::schedule::{AutoScheduleMode, AutoScheduleState};
use crate::sensor::SensorMetrics;

verus! {

/// The status code of an answer that reports a fault of the device.
pub const INTERNAL_SERVER_ERROR: u16 = 500;

/// The number of the HTTP server's status code for a fault of the device.
///
/// Calls `StatusCode::as_u16` of picoserve on its constant
/// `StatusCode::INTERNAL_SERVER_ERROR`. Taken on trust: the number is 500.
#[verifier::external_body]
fn internal_server_error() -> (code: u16)
    ensures
        code == INTERNAL_SERVER_ERROR,
{
    picoserve::response::StatusCode::INTERNAL_SERVER_ERROR.as_u16()
}

/// The body of an answer that reports success.
#[derive(Clone, Debug, PartialEq, Eq)]
pub struct OkResponse {
    pub success: bool,
    pub message: Option<String>,
}

impl OkResponse {
    /// Success, with a message.
    pub fn new(message: String) -> (r: OkResponse)
        ensures
            r.success,
            r.message == Some(message),
    {
        OkResponse { success: true, message: Some(message) }
    }
}

impl Default for OkResponse {
    /// Success, without a message.
    fn default() -> (r: OkResponse)
        ensures
            r.success,
            r.message is None,
    {
        OkResponse { success: true, message: None }
    }
}

/// The body of an answer that reports a fault: the status code and the text
/// of the fault.
#[derive(Clone, Debug, PartialEq, Eq)]
pub struct ApiError {
    pub code: u16,
    pub message: String,
}

impl ApiError {
    /// A body with the given status code and text.
    pub fn new(code: u16, message: String) -> (r: ApiError)
        ensures
            r.code == code,
            r.message == message,
    {
        ApiError { code, message }
    }

    /// The body that reports `err` as a fault of the device.
    pub fn from_error(err: &Error) -> (r: ApiError)
        ensures
            r.code == INTERNAL_SERVER_ERROR,
            r.message@ == err.text(),
    {
        ApiError::new(internal_server_error(), err.to_text())
    }
}

/// The body of an answer that reports a fault, as the answers assembled
/// here carry it.
#[derive(Clone, Debug, PartialEq, Eq)]
pub struct ErrorResponse {
    pub status: u16,
    pub msg: String,
}

impl ErrorResponse {
    /// A body with the given status code and text.
    pub fn new(status: u16, msg: String) -> (r: ErrorResponse)
        ensures
            r.status == status,
            r.msg == msg,
    {
        ErrorResponse { status, msg }
    }
}

/// The name of the header that says what kind of body an answer has.
pub const HTTP_HEADER_CONTENT_TYPE: &'static str = "Content-Type";

/// The name of the header that says what becomes of the connection.
pub const HTTP_HEADER_CONNECTION: &'static str = "Connection";

/// The headers of an answer, in the order in which they were added.
#[derive(Clone, Debug, PartialEq, Eq)]
pub struct Headers(pub Vec<(&'static str, &'static str)>);

impl Headers {
    /// No headers.
    pub fn new() -> (r: Headers)
        ensures
            r.0@ == Seq::<(&'static str, &'static str)>::empty(),
    {
        Headers(Vec::new())
    }

    /// The headers with one more at the end.
    pub fn push(self, key: &'static str, value: &'static str) -> (r: Headers)
        ensures
            r.0@ == self.0@.push((key, value)),
    {
        let mut headers = self;
        headers.0.push((key, value));
        headers
    }
}

/// An answer in the making: status code, body and headers.
#[derive(Clone, Debug, PartialEq, Eq)]
pub struct ResponseBuilder {
    pub status: u16,
    pub body: String,
    pub headers: Headers,
}

impl ResponseBuilder {
    /// An answer without headers.
    pub fn new(status: u16, body: String) -> (r: ResponseBuilder)
        ensures
            r.status == status,
            r.body == body,
            r.headers.0@ == Seq::<(&'static str, &'static str)>::empty(),
    {
        ResponseBuilder { status, body, headers: Headers::new() }
    }

    /// The answer with one more header at the end.
    pub fn with_headers(self, key: &'static str, value: &'static str) -> (r: ResponseBuilder)
        ensures
            r.status == self.status,
            r.body == self.body,
            r.headers.0@ == self.headers.0@.push((key, value)),
    {
        let ResponseBuilder { status, body, headers } = self;
        ResponseBuilder { status, body, headers: headers.push(key, value) }
    }
}

/// The answer with the status `status` whose body was encoded as JSON into
/// `encoded`. A body that could not be encoded gives the fault of encoding.
pub fn _json_response(status: u16, encoded: Result<String>) -> (r: Result<ResponseBuilder>)
    ensures
        match (encoded, r) {
            (Ok(body), Ok(resp)) => {
                &&& resp.status == status
                &&& resp.body == body
                &&& resp.headers.0@ == seq![(HTTP_HEADER_CONTENT_TYPE, "application/json")]
            },
            (Err(e), Err(f)) => e == f,
            _ => false,
        },
{
    match encoded {
        Ok(body) => {
            let resp = ResponseBuilder::new(status, body).with_headers(
                HTTP_HEADER_CONTENT_TYPE,
                "application/json",
            );
            assert(resp.headers.0@ =~= seq![(HTTP_HEADER_CONTENT_TYPE, "application/json")]);
            Ok(resp)
        },
        Err(e) => Err(e),
    }
}

/// The answer that reports the fault `err` with the status `status`.
///
/// `encoded` is the JSON of the body `ErrorResponse::new(status,
/// err.to_text())`. Where that body could not be encoded, the answer
/// carries the text of the fault as it is and asks to close the connection.
pub fn _error_response(status: u16, err: &Error, encoded: Result<String>) -> (r: ResponseBuilder)
    ensures
        r.status == status,
        match encoded {
            Ok(body) => r.body == body && r.headers.0@ == seq![
                (HTTP_HEADER_CONTENT_TYPE, "application/json"),
            ],
            Err(_) => r.body@ == err.text() && r.headers.0@ == seq![
                (HTTP_HEADER_CONNECTION, "Close"),
            ],
        },
{
    match _json_response(status, encoded) {
        Ok(resp) => resp,
        Err(_) => {
            let resp = ResponseBuilder::new(status, err.to_text()).with_headers(
                HTTP_HEADER_CONNECTION,
                "Close",
            );
            assert(resp.headers.0@ =~= seq![(HTTP_HEADER_CONNECTION, "Close")]);
            resp
        },
    }
}

/// Finishes an answer: one that was made asks to close the connection; a
/// fault in its place becomes the answer that reports the fault with the
/// status 500.
///
/// `encoded_error` is looked at only where `maybe_resp` is a fault, and is
/// then the JSON of the body `ErrorResponse::new(500, fault.to_text())`.
pub fn prepare_response(maybe_resp: Result<ResponseBuilder>, encoded_error: Result<String>) -> (r:
    ResponseBuilder)
    ensures
        match maybe_resp {
            Ok(resp) => {
                &&& r.status == resp.status
                &&& r.body == resp.body
                &&& r.headers.0@ == resp.headers.0@.push((HTTP_HEADER_CONNECTION, "Close"))
            },
            Err(e) => {
                &&& r.status == INTERNAL_SERVER_ERROR
                &&& match encoded_error {
                    Ok(body) => r.body == body && r.headers.0@ == seq![
                        (HTTP_HEADER_CONTENT_TYPE, "application/json"),
                    ],
                    Err(_) => r.body@ == e.text() && r.headers.0@ == seq![
                        (HTTP_HEADER_CONNECTION, "Close"),
                    ],
                }
            },
        },
{
    match maybe_resp {
        Ok(resp) => resp.with_headers(HTTP_HEADER_CONNECTION, "Close"),
        Err(e) => _error_response(internal_server_error(), &e, encoded_error),
    }
}

/// The finished answer with the status `status` whose body was encoded as
/// JSON into `encoded`; see `prepare_response` for `encoded_error`.
pub fn json_response(status: u16, encoded: Result<String>, encoded_error: Result<String>) -> (r:
    ResponseBuilder)
    ensures
        match encoded {
            Ok(body) => {
                &&& r.status == status
                &&& r.body == body
                &&& r.headers.0@ == seq![
                    (HTTP_HEADER_CONTENT_TYPE, "application/json"),
                    (HTTP_HEADER_CONNECTION, "Close"),
                ]
            },
            Err(e) => {
                &&& r.status == INTERNAL_SERVER_ERROR
                &&& match encoded_error {
                    Ok(body) => r.body == body && r.headers.0@ == seq![
                        (HTTP_HEADER_CONTENT_TYPE, "application/json"),
                    ],
                    Err(_) => r.body@ == e.text() && r.headers.0@ == seq![
                        (HTTP_HEADER_CONNECTION, "Close"),
                    ],
                }
            },
        },
{
    let r = prepare_response(_json_response(status, encoded), encoded_error);
    proof {
        if encoded is Ok {
            assert(r.headers.0@ =~= seq![
                (HTTP_HEADER_CONTENT_TYPE, "application/json"),
                (HTTP_HEADER_CONNECTION, "Close"),
            ]);
        }
    }
    r
}

/// The finished answer that reports the fault `err` with the status
/// `status`; see `_error_response` for `encoded`.
pub fn error_response(status: u16, err: &Error, encoded: Result<String>) -> (r: ResponseBuilder)
    ensures
        r.status == status,
        match encoded {
            Ok(body) => r.body == body && r.headers.0@ == seq![
                (HTTP_HEADER_CONTENT_TYPE, "application/json"),
                (HTTP_HEADER_CONNECTION, "Close"),
            ],
            Err(_) => r.body@ == err.text() && r.headers.0@ == seq![
                (HTTP_HEADER_CONNECTION, "Close"),
                (HTTP_HEADER_CONNECTION, "Close"),
            ],
        },
{
    let resp = _error_response(status, err, encoded);
    let r = resp.with_headers(HTTP_HEADER_CONNECTION, "Close");
    proof {
        if encoded is Ok {
            assert(r.headers.0@ =~= seq![
                (HTTP_HEADER_CONTENT_TYPE, "application/json"),
                (HTTP_HEADER_CONNECTION, "Close"),
            ]);
        } else {
            assert(r.headers.0@ =~= seq![
                (HTTP_HEADER_CONNECTION, "Close"),
                (HTTP_HEADER_CONNECTION, "Close"),
            ]);
        }
    }
    r
}

/// The summary of the stepper in a status answer: its mode and, once it has
/// a setpoint, the setpoint's index and target and, while it runs, the
/// milliseconds left of the run.
#[derive(Copy, Clone, PartialEq, Eq, Debug)]
pub struct ActiveAutoSchedule {
    pub mode: AutoScheduleMode,
    pub idx: Option<usize>,
    /// Target humidity, in thousandths of a percent.
    pub rh: Option<i32>,
    pub remaining_ms: Option<u64>,
}

/// The summary of the stepper `state` at the time `now`, or nothing where
/// the stepper has a setpoint that the schedule does not hold.
pub open spec fn active_auto_schedule(state: AutoScheduleState, cfg: ConfigModel, now: u32) -> Option<
    ActiveAutoSchedule,
> {
    match state.mode {
        AutoScheduleMode::Initial => Some(
            ActiveAutoSchedule { mode: state.mode, idx: None, rh: None, remaining_ms: None },
        ),
        AutoScheduleMode::Pending => match state.entry(cfg) {
            Some(sched) => Some(
                ActiveAutoSchedule {
                    mode: state.mode,
                    idx: Some(state.idx),
                    rh: Some(sched.rh),
                    remaining_ms: None,
                },
            ),
            None => None,
        },
        AutoScheduleMode::Running => match state.entry(cfg) {
            Some(sched) => Some(
                ActiveAutoSchedule {
                    mode: state.mode,
                    idx: Some(state.idx),
                    rh: Some(sched.rh),
                    remaining_ms: state.remaining(cfg, now),
                },
            ),
            None => None,
        },
    }
}

impl ActiveAutoSchedule {
    /// The summary of the stepper `state` at the time `now`.
    pub fn from(state: &AutoScheduleState, cfg: &ConfigInstance, now: u32) -> (r: Option<
        ActiveAutoSchedule,
    >)
        ensures
            r == active_auto_schedule(*state, cfg@, now),
    {
        match state.mode {
            AutoScheduleMode::Initial => Some(
                ActiveAutoSchedule { mode: state.mode, idx: None, rh: None, remaining_ms: None },
            ),
            AutoScheduleMode::Pending => {
                let sched = match state.get_auto_schedule(cfg) {
                    Some(sched) => sched,
                    None => { return None; },
                };
                Some(
                    ActiveAutoSchedule {
                        mode: state.mode,
                        idx: Some(state.idx),
                        rh: Some(sched.rh),
                        remaining_ms: None,
                    },
                )
            },
            AutoScheduleMode::Running => {
                let sched = match state.get_auto_schedule(cfg) {
                    Some(sched) => sched,
                    None => { return None; },
                };
                let remaining_ms = match state.remaining_ms(cfg, now) {
                    Some(remaining_ms) => remaining_ms,
                    None => { return None; },
                };
                Some(
                    ActiveAutoSchedule {
                        mode: state.mode,
                        idx: Some(state.idx),
                        rh: Some(sched.rh),
                        remaining_ms: Some(remaining_ms),
                    },
                )
            },
        }
    }
}

/// The body of a status answer. What is not known is left out.
#[derive(Copy, Clone, PartialEq, Eq, Debug)]
pub struct StatusResponse {
    pub mode: Option<Mode>,
    pub status: Option<Status>,
    pub active_auto_schedule: Option<ActiveAutoSchedule>,
    pub metrics: Option<SensorMetrics>,
}

impl StatusResponse {
    /// The status of the device at the time `now`: the engine's mode and
    /// status, the summary of the stepper and the last reading.
    pub fn new(
        mister: &Mister,
        active_auto: &AutoScheduleState,
        cfg: &ConfigInstance,
        metrics: Option<SensorMetrics>,
        now: u32,
    ) -> (r: StatusResponse)
        ensures
            r == (StatusResponse {
                mode: mister.active_mode,
                status: mister.status,
                active_auto_schedule: active_auto_schedule(*active_auto, cfg@, now),
                metrics,
            }),
    {
        StatusResponse {
            mode: mister.active_mode,
            status: mister.status,
            active_auto_schedule: ActiveAutoSchedule::from(active_auto, cfg, now),
            metrics,
        }
    }
}

/// The body of a mode answer.
#[derive(Copy, Clone, PartialEq, Eq, Debug)]
pub struct GetModeResponse {
    pub mode: Option<Mode>,
}

/// The body of a request to change the mode.
#[derive(Copy, Clone, PartialEq, Eq, Debug)]
pub struct ChangeModeRequest {
    pub mode: Mode,
}

/// The request that is published for a request to change the mode.
pub fn handle_change(req: ChangeModeRequest) -> (r: ChangeMode)
    ensures
        r.mode == Some(req.mode),
{
    ChangeMode::new(Some(req.mode))
}

} // verus!
