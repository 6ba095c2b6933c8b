//! The decisions of a download: which request goes out, when another one
//! follows, when a host is quarantined and when the body is too large.
//!
//! The caller performs the requests and reports what came back as events.

use vstd::prelude::*;

verus! {

/// The size limit that applies when none is configured: 100 MB.
pub const DEFAULT_SIZE_LIMIT: u64 = 100_000_000;

/// Why a download failed.
#[derive(Clone, Copy, Debug, PartialEq, Eq, Structural)]
pub enum FileDownloadError {
    /// The address is no absolute URL or names no host.
    InvalidUrl,
    /// The declared or the received length exceeds the limit.
    Oversize,
    /// The final response carries this status, which is no usable success.
    InvalidStatusCode(u16),
    /// The transport failed, or events came out of order.
    RequestError,
}

/// The two request variants.
#[derive(Clone, Copy, Debug, PartialEq, Eq, Structural)]
pub enum RequestKind {
    /// The proxy's own user agent, no referer.
    Default,
    /// The caller's user agent, and the referer host where one was given.
    Caller,
}

#[derive(Clone, Copy, Debug, PartialEq, Eq, Structural)]
pub enum FetchState {
    /// Nothing was sent yet.
    Idle,
    /// The default request is in flight.
    Direct,
    /// The caller-variant request is in flight; `known` says whether the
    /// host was quarantined when the download began.
    Retry { known: bool },
    /// The body is being read; `received` bytes were accepted so far.
    Body { received: u64 },
    Done,
    Failed,
}

#[derive(Clone, Copy, Debug, PartialEq, Eq, Structural)]
pub enum FetchEvent {
    /// The download begins; `known` says whether the host is quarantined.
    Begin { known: bool },
    /// Response headers arrived.
    Response { status: u16, declared_length: Option<u64> },
    /// A chunk of the body arrived.
    Chunk { len: u64 },
    /// The body ended.
    End,
    /// The transport reported an error.
    Failure,
}

#[derive(Clone, Copy, Debug, PartialEq, Eq, Structural)]
pub enum FetchAction {
    /// Send a request of this kind and report its response.
    Send(RequestKind),
    /// Read the next chunk of the body, or its end.
    ReadBody,
    /// The download is complete.
    Complete,
    /// Give up with this error, reading nothing further.
    Fail(FileDownloadError),
}

/// What a step decides.
#[derive(Clone, Copy, Debug, PartialEq, Eq, Structural)]
pub struct Transition {
    pub state: FetchState,
    pub action: FetchAction,
    /// The host is to be added to the quarantine set.
    pub quarantine: bool,
}

pub open spec fn is_client_error(status: u16) -> bool {
    400 <= status < 500
}

pub open spec fn is_success(status: u16) -> bool {
    200 <= status < 300
}

/// A success that carries a body: any 2xx but 204.
pub open spec fn is_usable(status: u16) -> bool {
    is_success(status) && status != 204
}

pub open spec fn fail(error: FileDownloadError, quarantine: bool) -> Transition {
    Transition { state: FetchState::Failed, action: FetchAction::Fail(error), quarantine }
}

/// The decision on the final response.
pub open spec fn spec_accept(
    status: u16,
    declared_length: Option<u64>,
    limit: u64,
    quarantine: bool,
) -> Transition {
    if !is_usable(status) {
        fail(FileDownloadError::InvalidStatusCode(status), quarantine)
    } else if declared_length is Some && declared_length->0 > limit {
        fail(FileDownloadError::Oversize, quarantine)
    } else {
        Transition {
            state: FetchState::Body { received: 0 },
            action: FetchAction::ReadBody,
            quarantine,
        }
    }
}

/// The transition relation of a download.
pub open spec fn spec_step(state: FetchState, event: FetchEvent, limit: u64) -> Transition {
    match (state, event) {
        (FetchState::Idle, FetchEvent::Begin { known }) => if known {
            Transition {
                state: FetchState::Retry { known: true },
                action: FetchAction::Send(RequestKind::Caller),
                quarantine: false,
            }
        } else {
            Transition {
                state: FetchState::Direct,
                action: FetchAction::Send(RequestKind::Default),
                quarantine: false,
            }
        },
        (FetchState::Direct, FetchEvent::Response { status, declared_length }) => if is_client_error(
            status,
        ) {
            Transition {
                state: FetchState::Retry { known: false },
                action: FetchAction::Send(RequestKind::Caller),
                quarantine: false,
            }
        } else {
            spec_accept(status, declared_length, limit, false)
        },
        (FetchState::Retry { known }, FetchEvent::Response { status, declared_length }) => spec_accept(
            status,
            declared_length,
            limit,
            !known && is_success(status),
        ),
        (FetchState::Body { received }, FetchEvent::Chunk { len }) => if received + len > limit {
            fail(FileDownloadError::Oversize, false)
        } else {
            Transition {
                state: FetchState::Body { received: (received + len) as u64 },
                action: FetchAction::ReadBody,
                quarantine: false,
            }
        },
        (FetchState::Body { received }, FetchEvent::End) => Transition {
            state: FetchState::Done,
            action: FetchAction::Complete,
            quarantine: false,
        },
        _ => fail(FileDownloadError::RequestError, false),
    }
}

/// While the body is read, what was accepted lies within the limit.
pub open spec fn state_wf(state: FetchState, limit: u64) -> bool {
    state matches FetchState::Body { received } ==> received <= limit
}

/// What a request carries: its user agent and, if any, its referer.
pub struct RequestHeaders {
    pub user_agent: String,
    pub referer: Option<String>,
}

/// The user agent under which the proxy asks in its own name.
pub open spec fn proxy_user_agent() -> Seq<char> {
    "MediaProxyRS"@
}

/// The referer that a request of this kind carries: none in the proxy's
/// own name, the referer host, where one was given, in the caller's.
pub open spec fn spec_referer(kind: RequestKind, referer_host: Option<&String>) -> Option<
    Seq<char>,
> {
    match (kind, referer_host) {
        (RequestKind::Caller, Some(host)) => Some(host@),
        _ => None,
    }
}

/// The headers of a request of either kind: the proxy's own user agent and
/// no referer, or the caller's user agent and the referer host, where one
/// was given.
pub fn request_headers(kind: RequestKind, referer_host: Option<&String>, caller_agent: &str) -> (r:
    RequestHeaders)
    ensures
        r.user_agent@ == (match kind {
            RequestKind::Default => proxy_user_agent(),
            RequestKind::Caller => caller_agent@,
        }),
        match r.referer {
            Some(referer) => spec_referer(kind, referer_host) == Some(referer@),
            None => spec_referer(kind, referer_host) is None,
        },
{
    match kind {
        RequestKind::Default => RequestHeaders {
            user_agent: "MediaProxyRS".to_owned(),
            referer: None,
        },
        RequestKind::Caller => RequestHeaders {
            user_agent: caller_agent.to_owned(),
            referer: match referer_host {
                Some(host) => Some(host.clone()),
                None => None,
            },
        },
    }
}

pub fn status_is_client_error(status: u16) -> (r: bool)
    ensures
        r == is_client_error(status),
{
    400 <= status && status < 500
}

pub fn status_is_success(status: u16) -> (r: bool)
    ensures
        r == is_success(status),
{
    200 <= status && status < 300
}

fn accept(status: u16, declared_length: Option<u64>, limit: u64, quarantine: bool) -> (t:
    Transition)
    ensures
        t == spec_accept(status, declared_length, limit, quarantine),
{
    if !status_is_success(status) || status == 204 {
        return Transition {
            state: FetchState::Failed,
            action: FetchAction::Fail(FileDownloadError::InvalidStatusCode(status)),
            quarantine,
        };
    }
    if let Some(n) = declared_length {
        if n > limit {
            return Transition {
                state: FetchState::Failed,
                action: FetchAction::Fail(FileDownloadError::Oversize),
                quarantine,
            };
        }
    }
    Transition { state: FetchState::Body { received: 0 }, action: FetchAction::ReadBody, quarantine }
}

/// One step of a download: the next state, what the caller is to do, and
/// whether the host is to be quarantined.
pub fn step(state: FetchState, event: FetchEvent, limit: u64) -> (t: Transition)
    ensures
        t == spec_step(state, event, limit),
        state_wf(state, limit) ==> state_wf(t.state, limit),
{
    let failed = Transition {
        state: FetchState::Failed,
        action: FetchAction::Fail(FileDownloadError::RequestError),
        quarantine: false,
    };
    match state {
        FetchState::Idle => match event {
            FetchEvent::Begin { known } => if known {
                Transition {
                    state: FetchState::Retry { known: true },
                    action: FetchAction::Send(RequestKind::Caller),
                    quarantine: false,
                }
            } else {
                Transition {
                    state: FetchState::Direct,
                    action: FetchAction::Send(RequestKind::Default),
                    quarantine: false,
                }
            },
            _ => failed,
        },
        FetchState::Direct => match event {
            FetchEvent::Response { status, declared_length } => if status_is_client_error(status) {
                Transition {
                    state: FetchState::Retry { known: false },
                    action: FetchAction::Send(RequestKind::Caller),
                    quarantine: false,
                }
            } else {
                accept(status, declared_length, limit, false)
            },
            _ => failed,
        },
        FetchState::Retry { known } => match event {
            FetchEvent::Response { status, declared_length } => accept(
                status,
                declared_length,
                limit,
                !known && status_is_success(status),
            ),
            _ => failed,
        },
        FetchState::Body { received } => match event {
            FetchEvent::Chunk { len } => if len > limit || received > limit - len {
                Transition {
                    state: FetchState::Failed,
                    action: FetchAction::Fail(FileDownloadError::Oversize),
                    quarantine: false,
                }
            } else {
                Transition {
                    state: FetchState::Body { received: received + len },
                    action: FetchAction::ReadBody,
                    quarantine: false,
                }
            },
            FetchEvent::End => Transition {
                state: FetchState::Done,
                action: FetchAction::Complete,
                quarantine: false,
            },
            _ => failed,
        },
        _ => failed,
    }
}

/// A response that is taken as final and declares more than the limit ends
/// the download as oversize; no read of the body is asked for then, nor by
/// any later step, since a failed download stays failed.
pub proof fn lemma_declared_oversize_reads_nothing(
    state: FetchState,
    status: u16,
    declared: u64,
    limit: u64,
)
    requires
        state is Direct || state is Retry,
        is_usable(status),
        declared > limit,
    ensures
        spec_step(
            state,
            FetchEvent::Response { status, declared_length: Some(declared) },
            limit,
        ).action == FetchAction::Fail(FileDownloadError::Oversize),
        spec_step(
            state,
            FetchEvent::Response { status, declared_length: Some(declared) },
            limit,
        ).state == FetchState::Failed,
        forall|event: FetchEvent|
            #![trigger spec_step(FetchState::Failed, event, limit)]
            spec_step(FetchState::Failed, event, limit) == fail(
                FileDownloadError::RequestError,
                false,
            ),
{
}

/// Whatever the response declared, the chunk that takes the body past the
/// limit ends the download as oversize; until then the bytes accepted never
/// exceed the limit.
pub proof fn lemma_stream_is_capped(received: u64, len: u64, limit: u64)
    requires
        received <= limit,
    ensures
        received + len > limit ==> spec_step(
            FetchState::Body { received },
            FetchEvent::Chunk { len },
            limit,
        ) == fail(FileDownloadError::Oversize, false),
        received + len <= limit ==> spec_step(
            FetchState::Body { received },
            FetchEvent::Chunk { len },
            limit,
        ).state == (FetchState::Body { received: (received + len) as u64 }),
        state_wf(
            spec_step(FetchState::Body { received }, FetchEvent::Chunk { len }, limit).state,
            limit,
        ),
{
}

/// A download to a quarantined host begins with the caller variant. The
/// default variant is sent only when a download to an unknown host begins,
/// and no step leads back to the beginning.
pub proof fn lemma_quarantined_host_skips_default(limit: u64)
    ensures
        spec_step(FetchState::Idle, FetchEvent::Begin { known: true }, limit) == (Transition {
            state: FetchState::Retry { known: true },
            action: FetchAction::Send(RequestKind::Caller),
            quarantine: false,
        }),
        forall|state: FetchState, event: FetchEvent|
            #![trigger spec_step(state, event, limit)]
            spec_step(state, event, limit).action == FetchAction::Send(RequestKind::Default) ==> state
                is Idle && event == (FetchEvent::Begin { known: false }),
        forall|state: FetchState, event: FetchEvent|
            #![trigger spec_step(state, event, limit)]
            !(spec_step(state, event, limit).state is Idle),
{
}

/// A download to an unknown host begins with the default variant; a client
/// error in reply is followed by the caller variant, and a success of that
/// second request quarantines the host.
pub proof fn lemma_client_error_is_retried(
    first_status: u16,
    second_status: u16,
    declared_length: Option<u64>,
    first_length: Option<u64>,
    limit: u64,
)
    requires
        is_client_error(first_status),
    ensures
        spec_step(FetchState::Idle, FetchEvent::Begin { known: false }, limit) == (Transition {
            state: FetchState::Direct,
            action: FetchAction::Send(RequestKind::Default),
            quarantine: false,
        }),
        spec_step(
            FetchState::Direct,
            FetchEvent::Response { status: first_status, declared_length: first_length },
            limit,
        ) == (Transition {
            state: FetchState::Retry { known: false },
            action: FetchAction::Send(RequestKind::Caller),
            quarantine: false,
        }),
        is_success(second_status) ==> spec_step(
            FetchState::Retry { known: false },
            FetchEvent::Response { status: second_status, declared_length },
            limit,
        ).quarantine,
{
}

/// The state of a download that began idle and has seen the first `n`
/// events.
pub open spec fn state_after(events: Seq<FetchEvent>, n: int, limit: u64) -> FetchState
    decreases n,
{
    if n <= 0 {
        FetchState::Idle
    } else {
        spec_step(state_after(events, n - 1, limit), events[n - 1], limit).state
    }
}

/// What the download asks for in answer to event `n`.
pub open spec fn action_at(events: Seq<FetchEvent>, n: int, limit: u64) -> FetchAction {
    spec_step(state_after(events, n, limit), events[n], limit).action
}

/// Whatever events follow, a download that began at a quarantined host
/// never sends the default variant.
pub proof fn lemma_quarantined_run_never_sends_default(
    events: Seq<FetchEvent>,
    n: int,
    limit: u64,
)
    requires
        0 <= n < events.len(),
        events[0] == (FetchEvent::Begin { known: true }),
    ensures
        action_at(events, n, limit) != FetchAction::Send(RequestKind::Default),
{
    if n > 0 {
        assert(!(state_after(events, n, limit) is Idle));
    }
}

/// Once a download has failed, whatever events follow, it stays failed and
/// asks for nothing more to be sent or read.
pub proof fn lemma_failed_run_stays_failed(
    events: Seq<FetchEvent>,
    failed_at: int,
    n: int,
    limit: u64,
)
    requires
        0 <= failed_at <= n < events.len(),
        state_after(events, failed_at, limit) is Failed,
    ensures
        state_after(events, n, limit) is Failed,
        action_at(events, n, limit) == FetchAction::Fail(FileDownloadError::RequestError),
    decreases n - failed_at,
{
    if failed_at < n {
        lemma_failed_run_stays_failed(events, failed_at, n - 1, limit);
    }
}

/// While a download runs, the bytes it has accepted stay within the limit.
pub proof fn lemma_run_stays_within_limit(events: Seq<FetchEvent>, n: int, limit: u64)
    requires
        0 <= n <= events.len(),
    ensures
        state_wf(state_after(events, n, limit), limit),
    decreases n,
{
    if n > 0 {
        lemma_run_stays_within_limit(events, n - 1, limit);
    }
}

} // verus!
