//! The session service: looking a session up and making it fit for use.
//!
//! A session that is found is stamped with the time of its use. If its
//! access token is about to expire, or it names no PDS, it is refreshed
//! first. In either case it is written back before it is handed out.

use crate::authserver::ClientIdentity;
use crate::error::{AppError, ErrorKind};
use crate::http::{asks_store, fails_with, Effect, Reply, Step};
use crate::jwt::{client_assertion, dpop_proof, outcome, ProofAudience};
use crate::metadata::{discovery_begin, Discovery, DiscoveryStep, EndpointKind};
use crate::models::{
    needs_refresh,
    CatbirdSession,
    DPoPKeyPair,
    OAuthSessionRecord,
    SessionView,
};
use crate::refresh::{refresh_advanced, refresh_begun, Refresh};
use crate::revoke::{revoke_begun, Revoke};
use crate::stamp::{Stamp, Stamps};
use crate::store::{
    clear_commands,
    commands_view,
    dpop_key,
    dpop_key_of,
    oauth_session_key,
    oauth_session_key_of,
    session_key,
    session_key_of,
    RecordView,
    StoreCommand,
    StoreCommandView,
    StoreLayout,
};
use vstd::prelude::*;
use vstd::string::*;

verus! {

/// The session service of one gateway.
#[derive(Debug)]
pub struct SessionService {
    pub client: ClientIdentity,
    pub layout: StoreLayout,
    /// Whether the gateway was built for development (see the SSRF guard).
    pub debug_build: bool,
}

/// A lookup under way: what it waits for.
#[derive(Debug)]
pub enum SessionFlow {
    /// The store, reading what the refresh needs.
    Loading { session: CatbirdSession, client: ClientIdentity, layout: StoreLayout, debug_build: bool },
    /// The refresh.
    Refreshing { inner: Refresh, layout: StoreLayout },
    /// The store, writing the session back; `session` is the result.
    Saving { session: CatbirdSession },
}

/// The session, used at `now`.
pub open spec fn touched(session: SessionView, now: i64) -> SessionView {
    SessionView {
        id: session.id,
        did: session.did,
        handle: session.handle,
        pds_url: session.pds_url,
        access_token: session.access_token,
        refresh_token: session.refresh_token,
        access_token_expires_at: session.access_token_expires_at,
        created_at: session.created_at,
        last_used_at: now,
        dpop_jkt: session.dpop_jkt,
    }
}

/// How many effects a lookup may still ask for.
pub open spec fn steps_left(m: SessionFlow) -> nat {
    match m {
        SessionFlow::Loading { .. } => 7,
        SessionFlow::Refreshing { inner, .. } => 1 + crate::refresh::steps_left(inner),
        SessionFlow::Saving { .. } => 1,
    }
}

/// `step` asks the store to write `session` under its key and goes on to
/// hand it out.
pub open spec fn saves(layout: StoreLayout, session: SessionView, step: Step<SessionFlow, CatbirdSession>) -> bool {
    &&& asks_store(
        step,
        seq![
            StoreCommandView::Put {
                key: session_key_of(layout.key_prefix@, session.id),
                ttl_seconds: layout.session_ttl_seconds,
                record: RecordView::Session(session),
            },
        ],
    )
    &&& step matches Step::Do { next: SessionFlow::Saving { session: s }, .. } && s@ == session
}

/// `step` is the step of a lookup whose refresh took the step `inner`: the
/// refresh goes on, or it has failed and so has the lookup, or it is done
/// and the refreshed session is written back.
pub open spec fn lifted(
    layout: StoreLayout,
    inner: Step<Refresh, CatbirdSession>,
    step: Step<SessionFlow, CatbirdSession>,
) -> bool {
    match inner {
        Step::Do { next, effect } => step matches Step::Do {
            next: SessionFlow::Refreshing { inner: n, layout: l },
            effect: e,
        } && n == next && e == effect && l == layout,
        Step::Done(Ok(session)) => saves(layout, session@, step),
        Step::Done(Err(error)) => step matches Step::Done(Err(e)) && e == error,
    }
}

/// `step` is the first step of a lookup that found `found` in the store.
pub open spec fn lookup_begun(
    found: Option<CatbirdSession>,
    now: i64,
    client: ClientIdentity,
    layout: StoreLayout,
    debug_build: bool,
    step: Step<SessionFlow, CatbirdSession>,
) -> bool {
    match found {
        None => fails_with(step, ErrorKind::InvalidSession),
        Some(s) => if needs_refresh(s@, now) {
            step matches Step::Do {
                next: SessionFlow::Loading { session, client: c, layout: l, debug_build: d },
                effect: Effect::Load { oauth_session_key: record_key, dpop_key: pair_key },
            } && session@ == touched(s@, now) && c.same_as(client) && l.same_as(layout) && d
                == debug_build && record_key@ == oauth_session_key_of(layout.key_prefix@, s.id@)
                && pair_key@ == dpop_key_of(layout.key_prefix@, s.id@)
        } else {
            saves(layout, touched(s@, now), step)
        },
    }
}

/// `step` is the step a lookup in state `m` takes on `reply`.
pub open spec fn lookup_advanced(
    m: SessionFlow,
    reply: Reply,
    stamps: Stamps,
    step: Step<SessionFlow, CatbirdSession>,
) -> bool {
    match m {
        SessionFlow::Loading { session, client, layout, debug_build } => match reply {
            Reply::Material { record, key } => exists|
                inner: Step<Refresh, CatbirdSession>,
                inner_layout: StoreLayout,
            |
                inner_layout.same_as(layout) && refresh_begun(
                    session,
                    record,
                    key,
                    client,
                    inner_layout,
                    debug_build,
                    inner,
                ) && lifted(layout, inner, step),
            Reply::Failed(_) => fails_with(step, ErrorKind::Redis),
            _ => fails_with(step, ErrorKind::Internal),
        },
        SessionFlow::Refreshing { inner, layout } => exists|taken: Step<Refresh, CatbirdSession>|
            refresh_advanced(inner, reply, stamps, taken) && lifted(layout, taken, step),
        SessionFlow::Saving { session } => match reply {
            Reply::Stored => step matches Step::Done(Ok(s)) && s == session,
            Reply::Failed(_) => fails_with(step, ErrorKind::Redis),
            _ => fails_with(step, ErrorKind::Internal),
        },
    }
}

fn save(layout: &StoreLayout, session: CatbirdSession) -> (r: Step<SessionFlow, CatbirdSession>)
    ensures
        saves(*layout, session@, r),
{
    let mut commands: Vec<StoreCommand> = Vec::new();
    commands.push(
        crate::store::save_session(layout.key_prefix.as_str(), layout.session_ttl_seconds, &session),
    );
    proof {
        assert(commands_view(commands@) =~= seq![
            StoreCommandView::Put {
                key: session_key_of(layout.key_prefix@, session.id@),
                ttl_seconds: layout.session_ttl_seconds,
                record: RecordView::Session(session@),
            },
        ]);
    }
    Step::Do { next: SessionFlow::Saving { session }, effect: Effect::Store(commands) }
}

fn lift(layout: StoreLayout, inner: Step<Refresh, CatbirdSession>) -> (r: Step<
    SessionFlow,
    CatbirdSession,
>)
    ensures
        lifted(layout, inner, r),
        r matches Step::Do { next, .. } ==> (match inner {
            Step::Do { next: n, .. } => steps_left(next) == 1 + crate::refresh::steps_left(n),
            _ => steps_left(next) == 1,
        }),
{
    match inner {
        Step::Do { next, effect } => Step::Do {
            next: SessionFlow::Refreshing { inner: next, layout },
            effect,
        },
        Step::Done(Ok(session)) => save(&layout, session),
        Step::Done(Err(error)) => Step::Done(Err(error)),
    }
}

impl SessionFlow {
    /// Goes on with the reply to the effect that was asked for last.
    pub fn advance(self, reply: Reply, stamps: &Stamps) -> (r: Step<SessionFlow, CatbirdSession>)
        ensures
            lookup_advanced(self, reply, *stamps, r),
            r matches Step::Do { next, .. } ==> steps_left(next) < steps_left(self),
    {
        match self {
            SessionFlow::Loading { session, client, layout, debug_build } => match reply {
                Reply::Material { record, key } => {
                    let inner_layout = layout.duplicate();
                    let inner = Refresh::begin(
                        session,
                        record,
                        key,
                        client,
                        inner_layout,
                        debug_build,
                    );
                    lift(layout, inner)
                },
                Reply::Failed(message) => Step::Done(Err(AppError::Redis(message))),
                _ => Step::Done(Err(AppError::Internal(String::from_str("unexpected reply")))),
            },
            SessionFlow::Refreshing { inner, layout } => {
                let taken = inner.advance(reply, stamps);
                lift(layout, taken)
            },
            SessionFlow::Saving { session } => match reply {
                Reply::Stored => Step::Done(Ok(session)),
                Reply::Failed(message) => Step::Done(Err(AppError::Redis(message))),
                _ => Step::Done(Err(AppError::Internal(String::from_str("unexpected reply")))),
            },
        }
    }
}

impl SessionService {
    /// The session service of a gateway that is the client `client` and
    /// keeps its sessions as `layout` says.
    pub fn new(client: ClientIdentity, layout: StoreLayout, debug_build: bool) -> (r: SessionService)
        ensures
            r.client == client,
            r.layout == layout,
            r.debug_build == debug_build,
    {
        SessionService { client, layout, debug_build }
    }

    /// The key under which the session `session_id` is read, without any
    /// refresh.
    pub fn get_session(&self, session_id: &str) -> (r: String)
        ensures
            r@ == session_key_of(self.layout.key_prefix@, session_id@),
    {
        session_key(self.layout.key_prefix.as_str(), session_id)
    }

    /// The command that writes `session`, to live for the configured time.
    pub fn save_session(&self, session: &CatbirdSession) -> (r: StoreCommand)
        ensures
            r@ == (StoreCommandView::Put {
                key: session_key_of(self.layout.key_prefix@, session.id@),
                ttl_seconds: self.layout.session_ttl_seconds,
                record: RecordView::Session(session@),
            }),
    {
        crate::store::save_session(
            self.layout.key_prefix.as_str(),
            self.layout.session_ttl_seconds,
            session,
        )
    }

    /// The command that deletes the `CatbirdSession` record of a session.
    pub fn delete_session(&self, session_id: &str) -> (r: StoreCommand)
        ensures
            r@ == (StoreCommandView::Delete {
                key: session_key_of(self.layout.key_prefix@, session_id@),
            }),
    {
        crate::store::delete_session(self.layout.key_prefix.as_str(), session_id)
    }

    /// The commands that delete all three records of a session.
    pub fn clear_session_data(&self, session_id: &str) -> (r: Vec<StoreCommand>)
        ensures
            commands_view(r@) == clear_commands(self.layout.key_prefix@, session_id@),
    {
        crate::store::clear_session_data(self.layout.key_prefix.as_str(), session_id)
    }

    /// Starts making the session found under a session identifier fit for
    /// use at `now`; `found` is what the store holds under the key of
    /// [`SessionService::get_session`]. No session there is an
    /// `InvalidSession` error.
    pub fn get_valid_session(&self, found: Option<CatbirdSession>, now: i64) -> (r: Step<
        SessionFlow,
        CatbirdSession,
    >)
        ensures
            lookup_begun(found, now, self.client, self.layout, self.debug_build, r),
    {
        let session = match found {
            Some(s) => s,
            None => {
                return Step::Done(Err(AppError::InvalidSession));
            },
        };
        let refresh = session.needs_refresh(now);
        let session = CatbirdSession {
            id: session.id,
            did: session.did,
            handle: session.handle,
            pds_url: session.pds_url,
            access_token: session.access_token,
            refresh_token: session.refresh_token,
            access_token_expires_at: session.access_token_expires_at,
            created_at: session.created_at,
            last_used_at: now,
            dpop_jkt: session.dpop_jkt,
        };
        if refresh {
            let record_key = oauth_session_key(
                self.layout.key_prefix.as_str(),
                session.id.as_str(),
            );
            let pair_key = dpop_key(self.layout.key_prefix.as_str(), session.id.as_str());
            Step::Do {
                next: SessionFlow::Loading {
                    session,
                    client: self.client.duplicate(),
                    layout: self.layout.duplicate(),
                    debug_build: self.debug_build,
                },
                effect: Effect::Load { oauth_session_key: record_key, dpop_key: pair_key },
            }
        } else {
            save(&self.layout, session)
        }
    }

    /// Starts the refresh of the tokens of `session`; `record` and `key`
    /// are what the store holds under the session's OAuth record and DPoP
    /// key. The refresh uses the refresh token of the session's own record.
    pub fn refresh_session_tokens(
        &self,
        session: CatbirdSession,
        record: Option<OAuthSessionRecord>,
        key: Option<DPoPKeyPair>,
    ) -> (r: Step<Refresh, CatbirdSession>)
        ensures
            refresh_begun(session, record, key, self.client, self.layout, self.debug_build, r),
    {
        Refresh::begin(
            session,
            record,
            key,
            self.client.duplicate(),
            self.layout.duplicate(),
            self.debug_build,
        )
    }

    /// Starts the discovery of the token endpoint of the authorization
    /// server of `pds_url`.
    pub fn get_token_endpoint(&self, pds_url: &str) -> (r: DiscoveryStep)
        ensures
            r@ == discovery_begin(pds_url@, EndpointKind::Token, self.debug_build),
    {
        Discovery::begin(pds_url, EndpointKind::Token, self.debug_build)
    }

    /// Starts the discovery of the revocation endpoint of the
    /// authorization server of `pds_url`.
    pub fn get_revocation_endpoint(&self, pds_url: &str) -> (r: DiscoveryStep)
        ensures
            r@ == discovery_begin(pds_url@, EndpointKind::Revocation, self.debug_build),
    {
        Discovery::begin(pds_url, EndpointKind::Revocation, self.debug_build)
    }

    /// Makes the client assertion by which the gateway authenticates one
    /// request to `endpoint` of an authorization server.
    pub fn generate_client_assertion(&self, endpoint: &str, stamp: &Stamp) -> (r: Result<
        String,
        AppError,
    >)
        ensures
            outcome(r) == client_assertion(
                self.client.client_id@,
                self.client.kid@,
                self.client.secret@,
                endpoint@,
                stamp.jti@,
                stamp.now,
            ),
    {
        crate::jwt::generate_client_assertion(
            self.client.client_id.as_str(),
            self.client.kid.as_str(),
            self.client.secret.as_slice(),
            endpoint,
            stamp,
        )
    }

    /// Makes the DPoP proof for one request to an endpoint of an
    /// authorization server: it carries no `ath`.
    pub fn generate_dpop_proof_for_auth_server(
        &self,
        session: &CatbirdSession,
        key: &DPoPKeyPair,
        http_method: &str,
        http_url: &str,
        nonce: Option<String>,
        stamp: &Stamp,
    ) -> (r: Result<String, AppError>)
        ensures
            outcome(r) == dpop_proof(
                ProofAudience::AuthorizationServer,
                key@,
                http_method@,
                http_url@,
                session.access_token@,
                nonce.deep_view(),
                stamp.jti@,
                stamp.now,
            ),
    {
        crate::jwt::generate_dpop_proof_for_auth_server(
            session,
            key,
            http_method,
            http_url,
            nonce,
            stamp,
        )
    }

    /// Starts the revocation of `session`; `key` is what the store holds
    /// under the session's DPoP key.
    pub fn revoke_session(&self, session: CatbirdSession, key: Option<DPoPKeyPair>) -> (r: Step<
        Revoke,
        bool,
    >)
        ensures
            revoke_begun(session, key, self.client, self.layout, self.debug_build, r),
            r is Do,
    {
        Revoke::begin(
            session,
            key,
            self.client.duplicate(),
            self.layout.duplicate(),
            self.debug_build,
        )
    }
}

} // verus!
