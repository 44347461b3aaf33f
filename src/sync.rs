//! The sync engine: a state machine that turns the cursor-based sync endpoint
//! into a sequence of payloads. The transport stays outside: the engine hands
//! out the request to send and is told what the transport reported.

use vstd::prelude::*;
use vstd::string::*;
use crate::endpoint::BaseUrl;
use crate::payload::{
    decode_sync_payload, json_accepts, json_error_text, json_next_batch, SyncPayload,
    MISSING_NEXT_BATCH,
};
use crate::query::{build_sync_target, is_unreserved, sync_target};

verus! {

/// Where a session stands between cycles.
#[derive(Clone, Copy, Debug, PartialEq, Eq, Structural)]
pub enum SyncPhase {
    /// No request is outstanding.
    Idle,
    /// One request has been handed out and its response is pending.
    Awaiting,
    /// The last cycle failed; the session produces nothing more.
    Failed,
}

/// The request of one cycle. Sync requests carry no headers and no body.
pub struct SyncRequest {
    pub method: String,
    pub target: String,
}

/// A response as the transport delivered it.
pub struct WireResponse {
    pub code: u16,
    pub data: Vec<u8>,
}

/// What driving the transport and polling the pending response gave.
pub enum TransportPoll {
    /// The response has not arrived yet.
    Pending,
    /// The byte stream failed, with the transport's reason.
    Failed(String),
    /// The response arrived.
    Ready(WireResponse),
}

/// Why a session stopped.
pub enum SyncError {
    /// The transport failed.
    Io(String),
    /// The server answered with a status other than 200.
    Status(u16),
    /// A 200 response whose body could not be decoded, with the reason.
    Decode(String),
}

/// The outcome of a poll that did not fail.
pub enum SyncPoll {
    NotReady,
    Ready(SyncPayload),
}

/// Abstract state of a session.
pub struct SyncModel {
    pub host: Seq<char>,
    pub port: u16,
    pub access_token: Seq<char>,
    pub next_token: Option<Seq<char>>,
    pub phase: SyncPhase,
}

pub open spec fn opt_view(o: Option<String>) -> Option<Seq<char>> {
    match o {
        Some(s) => Some(s@),
        None => None,
    }
}

/// A fresh session: no continuation token yet.
pub open spec fn initial_model(base: (Seq<char>, u16), access_token: Seq<char>) -> SyncModel {
    SyncModel {
        host: base.0,
        port: base.1,
        access_token,
        next_token: None,
        phase: SyncPhase::Idle,
    }
}

/// Target of the request that the session sends next, from its present state.
pub open spec fn request_target(m: SyncModel) -> Seq<char> {
    sync_target(m.access_token, m.next_token)
}

/// A request goes out only from an idle session.
pub open spec fn after_request(m: SyncModel) -> SyncModel {
    if m.phase == SyncPhase::Idle {
        SyncModel { phase: SyncPhase::Awaiting, ..m }
    } else {
        m
    }
}

/// A completed cycle adopts the received token and returns to idle.
pub open spec fn after_success(m: SyncModel, next_batch: Seq<char>) -> SyncModel {
    SyncModel { next_token: Some(next_batch), phase: SyncPhase::Idle, ..m }
}

/// A failed cycle keeps the token and ends the session.
pub open spec fn after_failure(m: SyncModel) -> SyncModel {
    SyncModel { phase: SyncPhase::Failed, ..m }
}

/// The state after a run of successful cycles, one received token each.
pub open spec fn after_cycles(m: SyncModel, batches: Seq<Seq<char>>) -> SyncModel
    decreases batches.len(),
{
    if batches.len() == 0 {
        m
    } else {
        after_cycles(after_success(after_request(m), batches[0]), batches.drop_first())
    }
}

/// A run of successful cycles from an idle session leaves it idle with the
/// same credential, holding the token of the last cycle, if there was one.
pub proof fn lemma_after_cycles(m: SyncModel, batches: Seq<Seq<char>>)
    requires
        m.phase == SyncPhase::Idle,
    ensures
        after_cycles(m, batches).phase == SyncPhase::Idle,
        after_cycles(m, batches).access_token == m.access_token,
        after_cycles(m, batches).next_token == if batches.len() == 0 {
            m.next_token
        } else {
            Some(batches.last())
        },
    decreases batches.len(),
{
    if batches.len() > 0 {
        let step = after_success(after_request(m), batches[0]);
        lemma_after_cycles(step, batches.drop_first());
        if batches.len() > 1 {
            assert(batches.drop_first().last() == batches.last());
        }
    }
}

/// The first request of a session carries no `since`; after any run of
/// successful cycles the next request carries as `since` exactly the
/// `next_batch` that the last cycle received.
pub proof fn lemma_since_follows_next_batch(
    base: (Seq<char>, u16),
    access_token: Seq<char>,
    batches: Seq<Seq<char>>,
)
    ensures
        request_target(initial_model(base, access_token)) == sync_target(access_token, None),
        after_cycles(initial_model(base, access_token), batches).phase == SyncPhase::Idle,
        batches.len() > 0 ==> request_target(after_cycles(initial_model(base, access_token), batches))
            == sync_target(access_token, Some(batches.last())),
{
    lemma_after_cycles(initial_model(base, access_token), batches);
}

/// Once a request is out, the session is not idle, so a second request is
/// never handed out before the first one's cycle has ended.
pub proof fn lemma_one_request_outstanding(m: SyncModel)
    ensures
        after_request(m).phase != SyncPhase::Idle,
        after_request(after_request(m)) == after_request(m),
        m.phase == SyncPhase::Idle ==> after_request(m).phase == SyncPhase::Awaiting,
{
}

/// The request target is a function of the present credential and token
/// alone: nothing of an earlier request carries over, and after a successful
/// cycle the earlier token is gone from it.
pub proof fn lemma_target_from_present_state(m1: SyncModel, m2: SyncModel, next_batch: Seq<char>)
    ensures
        m1.access_token == m2.access_token && m1.next_token == m2.next_token ==> request_target(m1)
            == request_target(m2),
        request_target(after_success(m1, next_batch)) == sync_target(
            m1.access_token,
            Some(next_batch),
        ),
{
}

/// One long-poll session against one Matrix server.
pub struct MatrixSyncClient {
    base: BaseUrl,
    access_token: String,
    next_token: Option<String>,
    phase: SyncPhase,
}

impl View for MatrixSyncClient {
    type V = SyncModel;

    closed spec fn view(&self) -> SyncModel {
        SyncModel {
            host: self.base@.0,
            port: self.base@.1,
            access_token: self.access_token@,
            next_token: opt_view(self.next_token),
            phase: self.phase,
        }
    }
}

impl MatrixSyncClient {
    /// A session that starts without a continuation token.
    pub fn new(base_url: &BaseUrl, access_token: String) -> (r: MatrixSyncClient)
        ensures
            r@ == initial_model(base_url@, access_token@),
    {
        let base = BaseUrl::new(String::from_str(base_url.host()), base_url.port());
        MatrixSyncClient { base, access_token, next_token: None, phase: SyncPhase::Idle }
    }

    /// A session that resumes from a continuation token kept from earlier.
    pub fn resume(base_url: &BaseUrl, access_token: String, next_token: String) -> (r:
        MatrixSyncClient)
        ensures
            r@ == (SyncModel { next_token: Some(next_token@), ..initial_model(base_url@, access_token@) }),
    {
        let base = BaseUrl::new(String::from_str(base_url.host()), base_url.port());
        MatrixSyncClient { base, access_token, next_token: Some(next_token), phase: SyncPhase::Idle }
    }

    pub fn base_url(&self) -> (r: &BaseUrl)
        ensures
            r@ == (self@.host, self@.port),
    {
        &self.base
    }

    pub fn phase(&self) -> (r: SyncPhase)
        ensures
            r == self@.phase,
    {
        self.phase
    }

    pub fn next_token(&self) -> (r: Option<&str>)
        ensures
            r is Some <==> self@.next_token is Some,
            r is Some ==> r->Some_0@ == self@.next_token->Some_0,
    {
        match &self.next_token {
            Some(t) => Some(t.as_str()),
            None => None,
        }
    }

    /// Starts a cycle: from an idle session, the request to send, built from
    /// the present credential and token alone; otherwise nothing, so that a
    /// session never has two requests outstanding.
    pub fn next_request(&mut self) -> (r: Option<SyncRequest>)
        ensures
            final(self)@ == after_request(old(self)@),
            r is Some <==> old(self)@.phase == SyncPhase::Idle,
            r is Some ==> r->Some_0.method@ == "GET"@ && r->Some_0.target@ == request_target(
                old(self)@,
            ),
            r is Some && old(self)@.next_token is Some && (forall|i: int|
                0 <= i < old(self)@.next_token->Some_0.len() ==> is_unreserved(
                    #[trigger] old(self)@.next_token->Some_0[i],
                )) ==> r->Some_0.target@ == sync_target(old(self)@.access_token, None) + "&since="@
                + old(self)@.next_token->Some_0,
    {
        if self.phase != SyncPhase::Idle {
            return None;
        }
        let since = match &self.next_token {
            Some(t) => Some(t.as_str()),
            None => None,
        };
        let target = build_sync_target(self.access_token.as_str(), since);
        self.phase = SyncPhase::Awaiting;
        Some(SyncRequest { method: String::from_str("GET"), target })
    }

    /// Ends the pending cycle given its status and the decoded body. Only a
    /// 200 with a decoded body moves the token on.
    pub fn complete_cycle(&mut self, code: u16, decoded: Result<SyncPayload, String>) -> (r: Result<
        SyncPayload,
        SyncError,
    >)
        requires
            old(self)@.phase == SyncPhase::Awaiting,
        ensures
            code != 200 ==> r == Err::<SyncPayload, SyncError>(SyncError::Status(code))
                && final(self)@ == after_failure(old(self)@),
            code == 200 && decoded is Err ==> r == Err::<SyncPayload, SyncError>(
                SyncError::Decode(decoded->Err_0),
            ) && final(self)@ == after_failure(old(self)@),
            code == 200 && decoded is Ok ==> r is Ok && r->Ok_0 == decoded->Ok_0
                && final(self)@ == after_success(old(self)@, decoded->Ok_0.next_batch@),
    {
        if code != 200 {
            self.phase = SyncPhase::Failed;
            return Err(SyncError::Status(code));
        }
        match decoded {
            Ok(payload) => {
                self.next_token = Some(payload.next_batch.clone());
                self.phase = SyncPhase::Idle;
                Ok(payload)
            },
            Err(e) => {
                self.phase = SyncPhase::Failed;
                Err(SyncError::Decode(e))
            },
        }
    }

    /// Attempts progress on the pending cycle with what the transport
    /// reported: not ready leaves the session as it is; a transport failure,
    /// a status other than 200 or an undecodable body end it with the token
    /// kept; a decoded body yields its payload and adopts its token.
    pub fn poll_sync(&mut self, report: TransportPoll) -> (r: Result<SyncPoll, SyncError>)
        requires
            old(self)@.phase == SyncPhase::Awaiting,
        ensures
            report is Pending ==> r is Ok && r->Ok_0 is NotReady && final(self)@ == old(self)@,
            report is Failed ==> r == Err::<SyncPoll, SyncError>(SyncError::Io(report->Failed_0))
                && final(self)@ == after_failure(old(self)@),
            report is Ready && report->Ready_0.code != 200 ==> r == Err::<SyncPoll, SyncError>(
                SyncError::Status(report->Ready_0.code),
            ) && final(self)@ == after_failure(old(self)@),
            report is Ready && report->Ready_0.code == 200 && !json_accepts(report->Ready_0.data@)
                ==> r is Err && r->Err_0 is Decode
                && r->Err_0->Decode_0@ == json_error_text(report->Ready_0.data@)
                && final(self)@ == after_failure(old(self)@),
            report is Ready && report->Ready_0.code == 200 && json_accepts(report->Ready_0.data@)
                && json_next_batch(report->Ready_0.data@) is None ==> r is Err && r->Err_0
                is Decode && r->Err_0->Decode_0@ == MISSING_NEXT_BATCH@ && final(self)@ == after_failure(
                old(self)@,
            ),
            report is Ready && report->Ready_0.code == 200 && json_accepts(report->Ready_0.data@)
                && json_next_batch(report->Ready_0.data@) is Some ==> r is Ok && r->Ok_0 is Ready
                && r->Ok_0->Ready_0.next_batch@ == json_next_batch(report->Ready_0.data@)->Some_0
                && final(self)@ == after_success(
                old(self)@,
                json_next_batch(report->Ready_0.data@)->Some_0,
            ),
    {
        match report {
            TransportPoll::Pending => Ok(SyncPoll::NotReady),
            TransportPoll::Failed(e) => {
                self.phase = SyncPhase::Failed;
                Err(SyncError::Io(e))
            },
            TransportPoll::Ready(response) => {
                let decoded = if response.code == 200 {
                    decode_sync_payload(response.data.as_slice())
                } else {
                    Err(String::new())
                };
                match self.complete_cycle(response.code, decoded) {
                    Ok(payload) => Ok(SyncPoll::Ready(payload)),
                    Err(e) => Err(e),
                }
            },
        }
    }
}

} // verus!
