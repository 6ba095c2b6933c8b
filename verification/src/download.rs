//! One download in progress: the state machine of `fetch` together with the
//! host it talks to, the bytes it has accepted and the quarantine set.

use vstd::prelude::*;
use crate::fetch::spec_step;
use crate::fetch::step;
use crate::fetch::FetchAction;
use crate::fetch::FetchEvent;
use crate::fetch::FetchState;
use crate::fetch::FileDownloadError;
use crate::fetch::DEFAULT_SIZE_LIMIT;
use crate::quarantine::QuarantineSet;

verus! {

/// The parts of an address that a download needs.
pub struct UrlParts {
    pub scheme: Option<String>,
    pub host: Option<String>,
    pub path: String,
}

pub struct UrlPartsView {
    pub scheme: Option<Seq<char>>,
    pub host: Option<Seq<char>>,
    pub path: Seq<char>,
}

impl View for UrlParts {
    type V = UrlPartsView;

    open spec fn view(&self) -> UrlPartsView {
        UrlPartsView {
            scheme: match self.scheme {
                Some(s) => Some(s@),
                None => None,
            },
            host: match self.host {
                Some(h) => Some(h@),
                None => None,
            },
            path: self.path@,
        }
    }
}

/// What `reqwest::Url::parse` makes of an address: `None` where it
/// refuses the text, else the scheme, host and path that its accessors
/// report.
pub uninterp spec fn parsed_url(url: Seq<char>) -> Option<UrlPartsView>;

/// Parses with `reqwest::Url::parse`, as the request itself does, and
/// copies out what `scheme`, `host_str` and `path` return. The contract
/// names the outcome.
#[verifier::external_body]
pub(crate) fn parse_url(url: &str) -> (r: Option<UrlParts>)
    ensures
        match r {
            Some(parts) => parsed_url(url@) == Some(parts@),
            None => parsed_url(url@) is None,
        },
{
    match reqwest::Url::parse(url) {
        Ok(parsed) => Some(
            UrlParts {
                scheme: Some(parsed.scheme().to_string()),
                host: parsed.host_str().map(|h| h.to_string()),
                path: parsed.path().to_string(),
            },
        ),
        Err(_) => None,
    }
}

/// The host of an absolute address, if it has one.
pub open spec fn spec_target_host(parsed: Option<UrlPartsView>) -> Option<Seq<char>> {
    match parsed {
        Some(parts) => if parts.scheme is Some && parts.host is Some && parts.host->0.len() > 0 {
            parts.host
        } else {
            None
        },
        None => None,
    }
}

/// Picks the host out of a parsed address: the address must carry a
/// scheme and a host that is not empty.
pub fn host_of(parsed: Option<UrlParts>) -> (r: Result<String, FileDownloadError>)
    ensures
        match r {
            Ok(host) => spec_target_host(option_view(parsed)) == Some(host@),
            Err(e) => e == FileDownloadError::InvalidUrl && spec_target_host(option_view(parsed))
                is None,
        },
{
    match parsed {
        Some(parts) => {
            if parts.scheme.is_none() {
                return Err(FileDownloadError::InvalidUrl);
            }
            match parts.host {
                Some(host) => {
                    if host.as_str().is_empty() {
                        Err(FileDownloadError::InvalidUrl)
                    } else {
                        Ok(host)
                    }
                },
                None => Err(FileDownloadError::InvalidUrl),
            }
        },
        None => Err(FileDownloadError::InvalidUrl),
    }
}

pub open spec fn option_view(parsed: Option<UrlParts>) -> Option<UrlPartsView> {
    match parsed {
        Some(parts) => Some(parts@),
        None => None,
    }
}

/// The host that a download of this address talks to.
pub fn target_host(url: &str) -> (r: Result<String, FileDownloadError>)
    ensures
        match r {
            Ok(host) => spec_target_host(parsed_url(url@)) == Some(host@),
            Err(e) => e == FileDownloadError::InvalidUrl && spec_target_host(parsed_url(url@))
                is None,
        },
{
    host_of(parse_url(url))
}

/// What a download hands on: the bytes, the declared content type, and a
/// file name.
pub struct DownloadedFile(pub Vec<u8>, pub Option<String>, pub Vec<u8>);

/// The settings of all downloads.
#[derive(Clone, Copy)]
pub struct Downloader {
    size_limit: u64,
}

impl Downloader {
    pub closed spec fn spec_size_limit(&self) -> u64 {
        self.size_limit
    }

    pub fn new(size_limit: Option<u64>) -> (d: Downloader)
        ensures
            d.spec_size_limit() == match size_limit {
                Some(n) => n,
                None => DEFAULT_SIZE_LIMIT,
            },
    {
        match size_limit {
            Some(n) => Downloader { size_limit: n },
            None => Downloader { size_limit: DEFAULT_SIZE_LIMIT },
        }
    }

    pub fn size_limit(&self) -> (n: u64)
        ensures
            n == self.spec_size_limit(),
    {
        self.size_limit
    }

    /// Begins a download: finds the host, looks it up in the quarantine set
    /// and says which request goes out first.
    pub fn begin(&self, url: &str, quarantine: &QuarantineSet) -> (r: Result<
        (Download, FetchAction),
        FileDownloadError,
    >)
        ensures
            match r {
                Ok((download, action)) => {
                    &&& spec_target_host(parsed_url(url@)) == Some(download.host())
                    &&& download.limit() == self.spec_size_limit()
                    &&& download.body() == Seq::<u8>::empty()
                    &&& download.state() == spec_step(
                        FetchState::Idle,
                        FetchEvent::Begin { known: quarantine@.contains(download.host()) },
                        self.spec_size_limit(),
                    ).state
                    &&& action == spec_step(
                        FetchState::Idle,
                        FetchEvent::Begin { known: quarantine@.contains(download.host()) },
                        self.spec_size_limit(),
                    ).action
                },
                Err(e) => e == FileDownloadError::InvalidUrl && spec_target_host(
                    parsed_url(url@),
                ) is None,
            },
    {
        match target_host(url) {
            Ok(host) => {
                let known = quarantine.contains(&host);
                let t = step(FetchState::Idle, FetchEvent::Begin { known }, self.size_limit);
                let phase = if known {
                    Phase::Retry { known: true }
                } else {
                    Phase::Direct
                };
                Ok((Download { host, limit: self.size_limit, phase, body: Vec::new() }, t.action))
            },
            Err(e) => Err(e),
        }
    }
}

/// Where a download stands. While the body is read, the bytes held say
/// how many were received.
enum Phase {
    Direct,
    Retry { known: bool },
    Body,
    Done,
    Failed,
}

/// A download in progress.
pub struct Download {
    host: String,
    limit: u64,
    phase: Phase,
    body: Vec<u8>,
}

impl Download {
    /// Before the body is read nothing is held, and at no time are more
    /// bytes held than the limit allows.
    #[verifier::type_invariant]
    spec fn within_limit(&self) -> bool {
        &&& self.body@.len() <= self.limit
        &&& self.phase is Direct || self.phase is Retry ==> self.body@.len() == 0
    }

    pub closed spec fn host(&self) -> Seq<char> {
        self.host@
    }

    pub closed spec fn limit(&self) -> u64 {
        self.limit
    }

    pub closed spec fn state(&self) -> FetchState {
        match self.phase {
            Phase::Direct => FetchState::Direct,
            Phase::Retry { known } => FetchState::Retry { known },
            Phase::Body => FetchState::Body { received: self.body@.len() as u64 },
            Phase::Done => FetchState::Done,
            Phase::Failed => FetchState::Failed,
        }
    }

    pub closed spec fn body(&self) -> Seq<u8> {
        self.body@
    }

    pub fn current_state(&self) -> (s: FetchState)
        ensures
            s == self.state(),
    {
        match self.phase {
            Phase::Direct => FetchState::Direct,
            Phase::Retry { known } => FetchState::Retry { known },
            Phase::Body => FetchState::Body { received: self.body.len() as u64 },
            Phase::Done => FetchState::Done,
            Phase::Failed => FetchState::Failed,
        }
    }

    pub fn bytes_held(&self) -> (n: usize)
        ensures
            n == self.body().len(),
            n <= self.limit(),
    {
        proof {
            use_type_invariant(self);
        }
        self.body.len()
    }

    /// Takes up the state that a step has led to. A step never leads back
    /// to the beginning.
    fn enter(&mut self, state: FetchState)
        requires
            !(state is Idle),
            state matches FetchState::Body { received } ==> received == old(self).body@.len(),
            state is Direct || state is Retry ==> old(self).body@.len() == 0,
        ensures
            final(self).state() == state,
            final(self).host() == old(self).host(),
            final(self).limit() == old(self).limit(),
            final(self).body() == old(self).body(),
    {
        proof {
            use_type_invariant(&*self);
        }
        match state {
            FetchState::Direct => {
                self.phase = Phase::Direct;
            },
            FetchState::Retry { known } => {
                self.phase = Phase::Retry { known };
            },
            FetchState::Body { received } => {
                self.phase = Phase::Body;
            },
            FetchState::Done => {
                self.phase = Phase::Done;
            },
            _ => {
                self.phase = Phase::Failed;
            },
        }
    }

    /// Response headers arrived. A successful answer to the second request
    /// to a host that was not quarantined adds the host to the set.
    pub fn on_response(
        &mut self,
        quarantine: &mut QuarantineSet,
        status: u16,
        declared_length: Option<u64>,
    ) -> (action: FetchAction)
        ensures
            final(self).host() == old(self).host(),
            final(self).limit() == old(self).limit(),
            final(self).body() == old(self).body(),
            final(self).state() == spec_step(
                old(self).state(),
                FetchEvent::Response { status, declared_length },
                old(self).limit(),
            ).state,
            action == spec_step(
                old(self).state(),
                FetchEvent::Response { status, declared_length },
                old(self).limit(),
            ).action,
            final(quarantine)@ == if spec_step(
                old(self).state(),
                FetchEvent::Response { status, declared_length },
                old(self).limit(),
            ).quarantine {
                old(quarantine)@.insert(old(self).host())
            } else {
                old(quarantine)@
            },
    {
        proof {
            use_type_invariant(&*self);
        }
        let t = step(
            self.current_state(),
            FetchEvent::Response { status, declared_length },
            self.limit,
        );
        if t.quarantine {
            quarantine.insert(&self.host);
        }
        self.enter(t.state);
        t.action
    }

    /// A chunk of the body arrived. It is kept only if the body stays within
    /// the limit with it.
    pub fn on_chunk(&mut self, chunk: &[u8]) -> (action: FetchAction)
        ensures
            final(self).host() == old(self).host(),
            final(self).limit() == old(self).limit(),
            final(self).state() == spec_step(
                old(self).state(),
                FetchEvent::Chunk { len: chunk@.len() as u64 },
                old(self).limit(),
            ).state,
            action == spec_step(
                old(self).state(),
                FetchEvent::Chunk { len: chunk@.len() as u64 },
                old(self).limit(),
            ).action,
            final(self).body() == if action == FetchAction::ReadBody {
                old(self).body() + chunk@
            } else {
                old(self).body()
            },
            action == FetchAction::ReadBody <==> old(self).state() is Body && old(
                self,
            ).body().len() + chunk@.len() <= old(self).limit(),
            final(self).body().len() <= final(self).limit(),
    {
        proof {
            use_type_invariant(&*self);
        }
        let t = step(
            self.current_state(),
            FetchEvent::Chunk { len: chunk.len() as u64 },
            self.limit,
        );
        if let FetchState::Body { received } = t.state {
            let mut body: Vec<u8> = Vec::new();
            std::mem::swap(&mut body, &mut self.body);
            body.extend_from_slice(chunk);
            self.body = body;
        } else {
            self.enter(t.state);
        }
        t.action
    }

    /// The body ended.
    pub fn on_end(&mut self) -> (action: FetchAction)
        ensures
            final(self).host() == old(self).host(),
            final(self).limit() == old(self).limit(),
            final(self).body() == old(self).body(),
            final(self).state() == spec_step(
                old(self).state(),
                FetchEvent::End,
                old(self).limit(),
            ).state,
            action == spec_step(old(self).state(), FetchEvent::End, old(self).limit()).action,
    {
        proof {
            use_type_invariant(&*self);
        }
        let t = step(self.current_state(), FetchEvent::End, self.limit);
        self.enter(t.state);
        t.action
    }

    /// The transport failed.
    pub fn on_failure(&mut self) -> (action: FetchAction)
        ensures
            final(self).host() == old(self).host(),
            final(self).limit() == old(self).limit(),
            final(self).body() == old(self).body(),
            final(self).state() == FetchState::Failed,
            action == FetchAction::Fail(FileDownloadError::RequestError),
    {
        proof {
            use_type_invariant(&*self);
        }
        let t = step(self.current_state(), FetchEvent::Failure, self.limit);
        self.enter(t.state);
        t.action
    }

    /// The file of a completed download; `None` while it is not complete.
    /// The file is never larger than the limit.
    pub fn finish(self, content_type: Option<String>, filename: Vec<u8>) -> (r: Option<
        DownloadedFile,
    >)
        ensures
            r is Some <==> self.state() == FetchState::Done,
            r matches Some(file) ==> file.0@ == self.body() && file.1 == content_type && file.2
                == filename && file.0@.len() <= self.limit(),
    {
        proof {
            use_type_invariant(&self);
        }
        match self.phase {
            Phase::Done => Some(DownloadedFile(self.body, content_type, filename)),
            _ => None,
        }
    }
}

} // verus!
