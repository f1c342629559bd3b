//! Token refresh.
//!
//! A session is refreshed with the refresh token of its own OAuth record,
//! never with one kept under the user's DID: two devices of one user hold
//! two sessions, and refreshing one must leave the other's record alone.
//!
//! The refresh is a state machine. It finds the token endpoint, posts the
//! grant, answers one `DPoP-Nonce` challenge, and then either stores the
//! new tokens or, where the server answers `invalid_grant`, deletes the
//! session's three records: the one upstream failure that ends a session.

use crate::authserver::{auth_post, build_post, challenge, nonce_challenge, ClientIdentity, Grant};
use crate::error::{AppError, ErrorKind};
use crate::http::{
    asks_get,
    asks_post,
    asks_store,
    fails_with,
    is_success,
    status_is_success,
    Effect,
    Reply,
    Step,
};
use crate::json::{
    int_member,
    is_json,
    json_int_member,
    json_text_member,
    json_valid,
    text_member,
};
use crate::metadata::{
    discovery_begin,
    discovery_next,
    fetches_left,
    Discovery,
    DiscoveryStep,
    DiscoveryStepView,
    EndpointKind,
};
use crate::models::{
    CatbirdSession,
    DPoPKeyPair,
    OAuthSessionRecord,
    OAuthSessionRecordView,
    SessionView,
    TokenSet,
    TokenSetView,
};
use crate::stamp::Stamps;
use crate::store::{
    apply_all,
    clear_commands,
    commands_view,
    dpop_key_of,
    keys_are_distinct,
    session_key_of,
    touches,
    untouched_stays,
    StoreModel,
    clear_session_data,
    oauth_session_key,
    oauth_session_key_of,
    Record,
    RecordView,
    StoreCommand,
    StoreCommandView,
    StoreLayout,
};
use crate::text::{contains, has_substring, u64_decimal};
use vstd::prelude::*;
use vstd::string::*;
use vstd::utf8::encode_utf8;

verus! {

/// The lifetime assumed for an access token whose response names none, in
/// seconds.
pub const DEFAULT_EXPIRES_IN: i64 = 3600;

/// What a refresh works with from start to end.
#[derive(Debug)]
pub struct RefreshContext {
    pub session: CatbirdSession,
    pub record: OAuthSessionRecord,
    /// The refresh token of `record`.
    pub refresh_token: String,
    pub key: DPoPKeyPair,
    pub client: ClientIdentity,
    pub layout: StoreLayout,
}

/// A refresh under way: what it waits for.
#[derive(Debug)]
pub enum Refresh {
    /// A metadata document, on the way to the token endpoint.
    Discovering { ctx: RefreshContext, discovery: Discovery },
    /// The answer to the first attempt.
    FirstAttempt { ctx: RefreshContext, endpoint: String },
    /// The answer to the second and last attempt.
    Retry { ctx: RefreshContext, endpoint: String },
    /// The store, writing the new OAuth record; `session` is the result.
    Storing { session: CatbirdSession },
    /// The store, deleting the records of a session whose grant was
    /// rejected.
    Clearing,
}

/// The PDS a session is bound to: the one it names, or, where it names
/// none, the audience of its tokens.
pub open spec fn bound_pds(session: SessionView, record: OAuthSessionRecordView) -> Seq<char> {
    if session.pds_url.len() == 0 {
        record.token_set.aud
    } else {
        session.pds_url
    }
}

/// `now + seconds`, kept within the range of `i64`.
pub open spec fn instant_after(now: i64, seconds: i64) -> i64 {
    if now + seconds > i64::MAX {
        i64::MAX
    } else if now + seconds < i64::MIN {
        i64::MIN
    } else {
        (now + seconds) as i64
    }
}

/// The session after a refresh: identity, handle, binding and creation
/// time stay; tokens, expiry and time of last use are new.
pub open spec fn refreshed_session(
    session: SessionView,
    pds_url: Seq<char>,
    access_token: Seq<char>,
    refresh_token: Seq<char>,
    expires_at: i64,
    now: i64,
) -> SessionView {
    SessionView {
        id: session.id,
        did: session.did,
        handle: session.handle,
        pds_url,
        access_token,
        refresh_token,
        access_token_expires_at: expires_at,
        created_at: session.created_at,
        last_used_at: now,
        dpop_jkt: session.dpop_jkt,
    }
}

/// The OAuth record after a refresh: the new tokens and expiry, all else
/// as before.
pub open spec fn refreshed_record(
    record: OAuthSessionRecordView,
    access_token: Seq<char>,
    refresh_token: Seq<char>,
    expires_at: i64,
) -> OAuthSessionRecordView {
    OAuthSessionRecordView {
        dpop_key_jwk: record.dpop_key_jwk,
        token_set: TokenSetView {
            iss: record.token_set.iss,
            sub: record.token_set.sub,
            aud: record.token_set.aud,
            scope: record.token_set.scope,
            refresh_token: Some(refresh_token),
            access_token,
            token_type: record.token_set.token_type,
            expires_at: Some(expires_at),
        },
    }
}

/// The body of a failed response says that the grant was rejected.
pub open spec fn grant_rejected(body: Seq<char>) -> bool {
    has_substring(body, "invalid_grant"@) || has_substring(body, "InvalidGrant"@)
}

/// The refresh token a successful answer grants: the one it names, else
/// the one that was used.
pub open spec fn granted_refresh_token(named: Option<Seq<char>>, used: Seq<char>) -> Seq<char> {
    match named {
        Some(t) => t,
        None => used,
    }
}

/// When the access token of a successful answer expires: after the
/// lifetime it names, else after [`DEFAULT_EXPIRES_IN`] seconds.
pub open spec fn granted_expiry(expires_in: Option<i64>, now: i64) -> i64 {
    instant_after(
        now,
        match expires_in {
            Some(s) => s,
            None => DEFAULT_EXPIRES_IN,
        },
    )
}

/// How many effects a refresh may still ask for.
pub open spec fn steps_left(m: Refresh) -> nat {
    match m {
        Refresh::Discovering { discovery, .. } => 4 + fetches_left(discovery),
        Refresh::FirstAttempt { .. } => 3,
        Refresh::Retry { .. } => 2,
        Refresh::Storing { .. } => 1,
        Refresh::Clearing => 1,
    }
}

/// How many requests to the token endpoint a refresh may still make.
pub open spec fn attempts_left(m: Refresh) -> nat {
    match m {
        Refresh::Discovering { .. } => 2,
        Refresh::FirstAttempt { .. } => 1,
        _ => 0,
    }
}

/// The context of a machine that still has one.
pub open spec fn context_of(m: Refresh) -> Option<RefreshContext> {
    match m {
        Refresh::Discovering { ctx, .. } => Some(ctx),
        Refresh::FirstAttempt { ctx, .. } => Some(ctx),
        Refresh::Retry { ctx, .. } => Some(ctx),
        _ => None,
    }
}

/// `step` is what an attempt at `endpoint` comes to: the post of the grant
/// with the context's refresh token, after which the answer is awaited (as
/// the first or, with `retry`, as the last), or the error that kept the
/// request from being built.
pub open spec fn attempt_made(
    ctx: RefreshContext,
    endpoint: Seq<char>,
    nonce: Option<Seq<char>>,
    retry: bool,
    stamps: Stamps,
    step: Step<Refresh, CatbirdSession>,
) -> bool {
    match auth_post(
        Grant::Refresh,
        endpoint,
        ctx.refresh_token@,
        ctx.client.client_id@,
        ctx.client.kid@,
        ctx.client.secret@,
        ctx.key@,
        nonce,
        stamps.now,
        stamps.assertion_jti@,
        stamps.proof_jti@,
    ) {
        Err(kind) => fails_with(step, kind),
        Ok(post) => {
            &&& asks_post(step, post)
            &&& step matches Step::Do { next, .. } && context_of(next) == Some(ctx) && (if retry {
                next matches Refresh::Retry { endpoint: e, .. } && e@ == endpoint
            } else {
                next matches Refresh::FirstAttempt { endpoint: e, .. } && e@ == endpoint
            })
        },
    }
}

/// `step` is what the final answer of the token endpoint comes to, given
/// what was read in it: `valid` says whether its body is JSON, and
/// `access_token`, `refresh_token` and `expires_in` are the members of
/// these names, as far as the body has them.
///
/// An answer of success stores the new tokens; it is an `HttpClient` error
/// where its body is no JSON and an `OAuth` error where it names no access
/// token. An answer of failure that rejects the grant deletes the
/// session's records; any other is an `OAuth` error.
pub open spec fn settled_with(
    ctx: RefreshContext,
    status: u16,
    body: Seq<char>,
    valid: bool,
    access_token: Option<Seq<char>>,
    refresh_token: Option<Seq<char>>,
    expires_in: Option<i64>,
    now: i64,
    step: Step<Refresh, CatbirdSession>,
) -> bool {
    if is_success(status) {
        if !valid {
            fails_with(step, ErrorKind::HttpClient)
        } else {
            match access_token {
                None => fails_with(step, ErrorKind::OAuth),
                Some(access) => {
                    let refresh = granted_refresh_token(refresh_token, ctx.refresh_token@);
                    let expires_at = granted_expiry(expires_in, now);
                    &&& asks_store(
                        step,
                        seq![
                            StoreCommandView::Put {
                                key: oauth_session_key_of(ctx.layout.key_prefix@, ctx.session.id@),
                                ttl_seconds: ctx.layout.session_ttl_seconds,
                                record: RecordView::OAuthSession(
                                    refreshed_record(ctx.record@, access, refresh, expires_at),
                                ),
                            },
                        ],
                    )
                    &&& step matches Step::Do { next: Refresh::Storing { session }, .. }
                        && session@ == refreshed_session(
                        ctx.session@,
                        bound_pds(ctx.session@, ctx.record@),
                        access,
                        refresh,
                        expires_at,
                        now,
                    )
                },
            }
        }
    } else if grant_rejected(body) {
        &&& asks_store(step, clear_commands(ctx.layout.key_prefix@, ctx.session.id@))
        &&& step matches Step::Do { next: Refresh::Clearing, .. }
    } else {
        fails_with(step, ErrorKind::OAuth)
    }
}

/// `step` is what the final answer of the token endpoint comes to.
pub open spec fn settled(
    ctx: RefreshContext,
    status: u16,
    body: Seq<char>,
    now: i64,
    step: Step<Refresh, CatbirdSession>,
) -> bool {
    let bytes = encode_utf8(body);
    settled_with(
        ctx,
        status,
        body,
        json_valid(bytes),
        json_text_member(bytes, "access_token"@),
        json_text_member(bytes, "refresh_token"@),
        json_int_member(bytes, "expires_in"@),
        now,
        step,
    )
}

/// `step` is the first step of a refresh.
pub open spec fn refresh_begun(
    session: CatbirdSession,
    record: Option<OAuthSessionRecord>,
    key: Option<DPoPKeyPair>,
    client: ClientIdentity,
    layout: StoreLayout,
    debug_build: bool,
    step: Step<Refresh, CatbirdSession>,
) -> bool {
    match record {
        None => fails_with(step, ErrorKind::Internal),
        Some(rec) => match rec.token_set.refresh_token {
            None => step matches Step::Done(Err(e)) && e@.kind == ErrorKind::OAuth && e@.detail
                == "No refresh token in session"@,
            Some(token) => match key {
                None => fails_with(step, ErrorKind::Internal),
                Some(k) => match discovery_begin(
                    bound_pds(session@, rec@),
                    EndpointKind::Token,
                    debug_build,
                ) {
                    DiscoveryStepView::Fetch { state, url } => {
                        &&& asks_get(step, url)
                        &&& step matches Step::Do {
                            next: Refresh::Discovering { ctx, discovery },
                            ..
                        } && discovery == state && ctx.session == session && ctx.record@ == rec@
                            && ctx.refresh_token@ == token@ && ctx.key == k && ctx.client.same_as(
                            client,
                        ) && ctx.layout.same_as(layout)
                    },
                    DiscoveryStepView::Found(_) => false,
                    DiscoveryStepView::Failed(kind) => fails_with(step, kind),
                },
            },
        },
    }
}

/// `step` is the step a refresh in state `m` takes on `reply`.
pub open spec fn refresh_advanced(
    m: Refresh,
    reply: Reply,
    stamps: Stamps,
    step: Step<Refresh, CatbirdSession>,
) -> bool {
    match m {
        Refresh::Discovering { ctx, discovery } => match reply {
            Reply::Response { status, headers, body } => match discovery_next(
                discovery,
                status,
                body@,
            ) {
                DiscoveryStepView::Failed(kind) => fails_with(step, kind),
                DiscoveryStepView::Fetch { state, url } => {
                    &&& asks_get(step, url)
                    &&& step matches Step::Do {
                        next: Refresh::Discovering { ctx: c, discovery: d },
                        ..
                    } && c == ctx && d == state
                },
                DiscoveryStepView::Found(endpoint) => attempt_made(
                    ctx,
                    endpoint,
                    None,
                    false,
                    stamps,
                    step,
                ),
            },
            Reply::Failed(_) => fails_with(step, ErrorKind::HttpClient),
            _ => fails_with(step, ErrorKind::Internal),
        },
        Refresh::FirstAttempt { ctx, endpoint } => match reply {
            Reply::Response { status, headers, body } => match nonce_challenge(
                status,
                headers@,
                true,
            ) {
                Some(nonce) => attempt_made(ctx, endpoint@, Some(nonce), true, stamps, step),
                None => settled(ctx, status, body@, stamps.now, step),
            },
            Reply::Failed(_) => fails_with(step, ErrorKind::HttpClient),
            _ => fails_with(step, ErrorKind::Internal),
        },
        Refresh::Retry { ctx, endpoint } => match reply {
            Reply::Response { status, headers, body } => settled(
                ctx,
                status,
                body@,
                stamps.now,
                step,
            ),
            Reply::Failed(_) => fails_with(step, ErrorKind::HttpClient),
            _ => fails_with(step, ErrorKind::Internal),
        },
        Refresh::Storing { session } => match reply {
            Reply::Stored => step matches Step::Done(Ok(s)) && s == session,
            Reply::Failed(_) => fails_with(step, ErrorKind::Redis),
            _ => fails_with(step, ErrorKind::Internal),
        },
        Refresh::Clearing => step matches Step::Done(Err(e)) && e@.kind == ErrorKind::TokenRefresh
            && e@.detail == "Session expired. Please log in again."@,
    }
}

fn instant_after_exec(now: i64, seconds: i64) -> (r: i64)
    ensures
        r == instant_after(now, seconds),
{
    let sum: i128 = now as i128 + seconds as i128;
    if sum > i64::MAX as i128 {
        i64::MAX
    } else if sum < i64::MIN as i128 {
        i64::MIN
    } else {
        sum as i64
    }
}

fn unexpected<M, T>() -> (r: Step<M, T>)
    ensures
        fails_with(r, ErrorKind::Internal),
{
    Step::Done(Err(AppError::Internal(String::from_str("unexpected reply"))))
}

fn attempt(
    ctx: RefreshContext,
    endpoint: String,
    nonce: Option<String>,
    retry: bool,
    stamps: &Stamps,
) -> (r: Step<Refresh, CatbirdSession>)
    ensures
        attempt_made(ctx, endpoint@, nonce.deep_view(), retry, *stamps, r),
{
    match build_post(
        Grant::Refresh,
        endpoint.as_str(),
        ctx.refresh_token.as_str(),
        &ctx.client,
        &ctx.key,
        nonce,
        stamps,
    ) {
        Err(e) => Step::Done(Err(e)),
        Ok(post) => {
            let next = if retry {
                Refresh::Retry { ctx, endpoint }
            } else {
                Refresh::FirstAttempt { ctx, endpoint }
            };
            Step::Do { next, effect: Effect::Post(post) }
        },
    }
}

fn settle(ctx: RefreshContext, status: u16, body: &str, now: i64) -> (r: Step<
    Refresh,
    CatbirdSession,
>)
    ensures
        settled(ctx, status, body@, now, r),
{
    let bytes = body.as_bytes();
    settle_with(
        ctx,
        status,
        body,
        is_json(bytes),
        text_member(bytes, "access_token"),
        text_member(bytes, "refresh_token"),
        int_member(bytes, "expires_in"),
        now,
    )
}

/// Decides what the final answer of the token endpoint comes to, given
/// what was read in its body: whether it is JSON, and its members
/// `access_token`, `refresh_token` and `expires_in`.
pub fn settle_with(
    ctx: RefreshContext,
    status: u16,
    body: &str,
    valid: bool,
    access_token: Option<String>,
    refresh_token: Option<String>,
    expires_in: Option<i64>,
    now: i64,
) -> (r: Step<Refresh, CatbirdSession>)
    ensures
        settled_with(
            ctx,
            status,
            body@,
            valid,
            access_token.deep_view(),
            refresh_token.deep_view(),
            expires_in,
            now,
            r,
        ),
{
    if !status_is_success(status) {
        if contains(body, "invalid_grant") || contains(body, "InvalidGrant") {
            let commands = clear_session_data(
                ctx.layout.key_prefix.as_str(),
                ctx.session.id.as_str(),
            );
            return Step::Do { next: Refresh::Clearing, effect: Effect::Store(commands) };
        }
        let mut message = String::from_str("Token refresh failed with status ");
        message.append(u64_decimal(status as u64).as_str());
        message.append(": ");
        message.append(body);
        return Step::Done(Err(AppError::OAuth(message)));
    }
    if !valid {
        return Step::Done(
            Err(AppError::HttpClient(String::from_str("token response is not JSON"))),
        );
    }
    let access_token = match access_token {
        Some(t) => t,
        None => {
            return Step::Done(
                Err(AppError::OAuth(String::from_str("No access_token in refresh response"))),
            );
        },
    };
    let ghost named = refresh_token.deep_view();
    let refresh_token = match refresh_token {
        Some(t) => t,
        None => ctx.refresh_token.clone(),
    };
    let expires_in = match expires_in {
        Some(s) => s,
        None => DEFAULT_EXPIRES_IN,
    };
    let expires_at = instant_after_exec(now, expires_in);
    let key = oauth_session_key(ctx.layout.key_prefix.as_str(), ctx.session.id.as_str());
    let pds_url = if ctx.session.pds_url.as_str().unicode_len() == 0 {
        ctx.record.token_set.aud.clone()
    } else {
        ctx.session.pds_url
    };
    let record = OAuthSessionRecord {
        dpop_key_jwk: ctx.record.dpop_key_jwk,
        token_set: TokenSet {
            iss: ctx.record.token_set.iss,
            sub: ctx.record.token_set.sub,
            aud: ctx.record.token_set.aud,
            scope: ctx.record.token_set.scope,
            refresh_token: Some(refresh_token.clone()),
            access_token: access_token.clone(),
            token_type: ctx.record.token_set.token_type,
            expires_at: Some(expires_at),
        },
    };
    let session = CatbirdSession {
        id: ctx.session.id,
        did: ctx.session.did,
        handle: ctx.session.handle,
        pds_url,
        access_token,
        refresh_token,
        access_token_expires_at: expires_at,
        created_at: ctx.session.created_at,
        last_used_at: now,
        dpop_jkt: ctx.session.dpop_jkt,
    };
    let mut commands: Vec<StoreCommand> = Vec::new();
    commands.push(
        StoreCommand::Put {
            key,
            ttl_seconds: ctx.layout.session_ttl_seconds,
            record: Record::OAuthSession(record),
        },
    );
    proof {
        let expected = seq![
            StoreCommandView::Put {
                key: oauth_session_key_of(ctx.layout.key_prefix@, ctx.session.id@),
                ttl_seconds: ctx.layout.session_ttl_seconds,
                record: RecordView::OAuthSession(
                    refreshed_record(
                        ctx.record@,
                        session.access_token@,
                        granted_refresh_token(named, ctx.refresh_token@),
                        expires_at,
                    ),
                ),
            },
        ];
        assert(commands_view(commands@) =~= expected);
    }
    Step::Do { next: Refresh::Storing { session }, effect: Effect::Store(commands) }
}

impl Refresh {
    /// Starts the refresh of `session` with what the store holds for it:
    /// its OAuth record and its DPoP key pair.
    pub fn begin(
        session: CatbirdSession,
        record: Option<OAuthSessionRecord>,
        key: Option<DPoPKeyPair>,
        client: ClientIdentity,
        layout: StoreLayout,
        debug_build: bool,
    ) -> (r: Step<Refresh, CatbirdSession>)
        ensures
            refresh_begun(session, record, key, client, layout, debug_build, r),
    {
        let record = match record {
            Some(r) => r,
            None => {
                return Step::Done(
                    Err(
                        AppError::Internal(
                            String::from_str("No per-session OAuth data found for session"),
                        ),
                    ),
                );
            },
        };
        let refresh_token = match &record.token_set.refresh_token {
            Some(t) => t.clone(),
            None => {
                return Step::Done(
                    Err(AppError::OAuth(String::from_str("No refresh token in session"))),
                );
            },
        };
        let key = match key {
            Some(k) => k,
            None => {
                return Step::Done(
                    Err(AppError::Internal(String::from_str("DPoP key not found for session"))),
                );
            },
        };
        let first = if session.pds_url.as_str().unicode_len() == 0 {
            Discovery::begin(record.token_set.aud.as_str(), EndpointKind::Token, debug_build)
        } else {
            Discovery::begin(session.pds_url.as_str(), EndpointKind::Token, debug_build)
        };
        match first {
            DiscoveryStep::Fetch { state, url } => Step::Do {
                next: Refresh::Discovering {
                    ctx: RefreshContext { session, record, refresh_token, key, client, layout },
                    discovery: state,
                },
                effect: Effect::Get { url },
            },
            DiscoveryStep::Found(_) => unexpected(),
            DiscoveryStep::Failed(e) => Step::Done(Err(e)),
        }
    }

    /// Goes on with the reply to the effect that was asked for last.
    /// `stamps` are used if the step makes a request to the token
    /// endpoint; its time is the time of the refresh if the step settles
    /// it.
    pub fn advance(self, reply: Reply, stamps: &Stamps) -> (r: Step<Refresh, CatbirdSession>)
        ensures
            refresh_advanced(self, reply, *stamps, r),
            r matches Step::Do { next, .. } ==> steps_left(next) < steps_left(self),
            r matches Step::Do { next, effect } ==> (effect is Post ==> attempts_left(next)
                < attempts_left(self)),
    {
        match self {
            Refresh::Discovering { ctx, discovery } => match reply {
                Reply::Response { status, headers, body } => match discovery.on_response(
                    status,
                    body.as_str(),
                ) {
                    DiscoveryStep::Failed(e) => Step::Done(Err(e)),
                    DiscoveryStep::Fetch { state, url } => Step::Do {
                        next: Refresh::Discovering { ctx, discovery: state },
                        effect: Effect::Get { url },
                    },
                    DiscoveryStep::Found(endpoint) => attempt(ctx, endpoint, None, false, stamps),
                },
                Reply::Failed(message) => Step::Done(Err(AppError::HttpClient(message))),
                _ => unexpected(),
            },
            Refresh::FirstAttempt { ctx, endpoint } => match reply {
                Reply::Response { status, headers, body } => match challenge(
                    status,
                    &headers,
                    true,
                ) {
                    Some(nonce) => attempt(ctx, endpoint, Some(nonce), true, stamps),
                    None => settle(ctx, status, body.as_str(), stamps.now),
                },
                Reply::Failed(message) => Step::Done(Err(AppError::HttpClient(message))),
                _ => unexpected(),
            },
            Refresh::Retry { ctx, endpoint } => match reply {
                Reply::Response { status, headers, body } => settle(
                    ctx,
                    status,
                    body.as_str(),
                    stamps.now,
                ),
                Reply::Failed(message) => Step::Done(Err(AppError::HttpClient(message))),
                _ => unexpected(),
            },
            Refresh::Storing { session } => match reply {
                Reply::Stored => Step::Done(Ok(session)),
                Reply::Failed(message) => Step::Done(Err(AppError::Redis(message))),
                _ => unexpected(),
            },
            Refresh::Clearing => Step::Done(
                Err(AppError::TokenRefresh(String::from_str("Session expired. Please log in again."))),
            ),
        }
    }
}

/// A refresh that has its new tokens keeps the session's identifier, DID,
/// handle and time of creation. The access token and its expiry are those
/// of the server's answer, the refresh token is the one the answer names
/// or, where it names none, the one that was used, and the session counts
/// as used now.
pub proof fn refresh_keeps_identity(
    m: Refresh,
    reply: Reply,
    stamps: Stamps,
    step: Step<Refresh, CatbirdSession>,
)
    requires
        refresh_advanced(m, reply, stamps, step),
    ensures
        step matches Step::Do { next: Refresh::Storing { session }, .. } ==> {
            &&& context_of(m) matches Some(ctx)
            &&& reply matches Reply::Response { status, body, .. }
            &&& is_success(status)
            &&& session.id@ == ctx.session.id@
            &&& session.did@ == ctx.session.did@
            &&& session.handle@ == ctx.session.handle@
            &&& session.created_at == ctx.session.created_at
            &&& session.last_used_at == stamps.now
            &&& json_text_member(encode_utf8(body@), "access_token"@) == Some(
                session.access_token@,
            )
            &&& session.refresh_token@ == granted_refresh_token(
                json_text_member(encode_utf8(body@), "refresh_token"@),
                ctx.refresh_token@,
            )
            &&& session.access_token_expires_at == granted_expiry(
                json_int_member(encode_utf8(body@), "expires_in"@),
                stamps.now,
            )
        },
{
}

/// Refreshing one session leaves the records of every other session as
/// they are, also those of another session of the same user: whatever a
/// step of the refresh asks of the store, what is under the three keys of
/// the session `other` stays.
pub proof fn refresh_leaves_others_alone(
    m: Refresh,
    reply: Reply,
    stamps: Stamps,
    step: Step<Refresh, CatbirdSession>,
    store: StoreModel,
    prefix: Seq<char>,
    other: Seq<char>,
)
    requires
        refresh_advanced(m, reply, stamps, step),
        context_of(m) matches Some(ctx) ==> ctx.layout.key_prefix@ == prefix && ctx.session.id@
            != other,
    ensures
        step matches Step::Do { effect: Effect::Store(commands), .. } ==> {
            let after = apply_all(store, commands_view(commands@));
            forall|k: Seq<char>|
                k == session_key_of(prefix, other) || k == dpop_key_of(prefix, other) || k
                    == oauth_session_key_of(prefix, other) ==> (after.contains_key(k)
                    <==> store.contains_key(k)) && (store.contains_key(k) ==> after[k] == store[k])
        },
{
    match step {
        Step::Do { effect: Effect::Store(commands), .. } => {
            let ctx = context_of(m).unwrap();
            let id = ctx.session.id@;
            let c = commands_view(commands@);
            keys_are_distinct(prefix, id, other);
            keys_are_distinct(prefix, other, id);
            assert(c == clear_commands(prefix, id) || c.len() == 1);
            let k1 = session_key_of(prefix, other);
            let k2 = dpop_key_of(prefix, other);
            let k3 = oauth_session_key_of(prefix, other);
            assert(!touches(c, k1) && !touches(c, k2) && !touches(c, k3));
            untouched_stays(store, c, k1);
            untouched_stays(store, c, k2);
            untouched_stays(store, c, k3);
        },
        _ => {},
    }
}

} // verus!
