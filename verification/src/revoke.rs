//! Revocation of a session (logout).
//!
//! The gateway asks the authorization server to revoke the session's
//! refresh token (its access token where it has no refresh token), and
//! then deletes the session's three records. Whatever the server answers,
//! and whether or not it can be asked at all, the records are deleted: the
//! local cleanup is what ends the session.

use crate::authserver::{auth_post, build_post, challenge, nonce_challenge, ClientIdentity, Grant};
use crate::http::{
    asks_get,
    asks_post,
    asks_store,
    is_success,
    status_is_success,
    Effect,
    Reply,
    Step,
};
use crate::metadata::{
    discovery_begin,
    discovery_next,
    fetches_left,
    Discovery,
    DiscoveryStep,
    DiscoveryStepView,
    EndpointKind,
};
use crate::models::{CatbirdSession, DPoPKeyPair, SessionView};
use crate::stamp::Stamps;
use crate::store::{
    apply_all,
    clear_commands,
    clear_removes_all,
    clear_session_data,
    commands_view,
    dpop_key_of,
    oauth_session_key_of,
    session_key_of,
    StoreLayout,
    StoreModel,
};
use vstd::prelude::*;
use vstd::string::*;

verus! {

/// What a revocation works with from start to end.
#[derive(Debug)]
pub struct RevokeContext {
    pub session: CatbirdSession,
    pub key: DPoPKeyPair,
    pub client: ClientIdentity,
    pub layout: StoreLayout,
}

/// A revocation under way: what it waits for.
#[derive(Debug)]
pub enum Revoke {
    /// A metadata document, on the way to the revocation endpoint.
    Discovering { ctx: RevokeContext, discovery: Discovery },
    /// The answer to the first attempt.
    FirstAttempt { ctx: RevokeContext, endpoint: String },
    /// The answer to the second and last attempt.
    Retry { ctx: RevokeContext, endpoint: String },
    /// The store, deleting the session's records; `revoked` says whether
    /// the server confirmed the revocation.
    Clearing { revoked: bool },
}

/// The token that is revoked: the refresh token, or the access token where
/// the session has no refresh token.
pub open spec fn token_to_revoke(session: SessionView) -> Seq<char> {
    if session.refresh_token.len() > 0 {
        session.refresh_token
    } else {
        session.access_token
    }
}

/// How many effects a revocation may still ask for.
pub open spec fn steps_left(m: Revoke) -> nat {
    match m {
        Revoke::Discovering { discovery, .. } => 4 + fetches_left(discovery),
        Revoke::FirstAttempt { .. } => 3,
        Revoke::Retry { .. } => 2,
        Revoke::Clearing { .. } => 1,
    }
}

/// `step` asks the store to delete the three records of the session `id`
/// and goes on to the end, remembering `revoked`.
pub open spec fn cleans_up(
    prefix: Seq<char>,
    id: Seq<char>,
    revoked: bool,
    step: Step<Revoke, bool>,
) -> bool {
    &&& asks_store(step, clear_commands(prefix, id))
    &&& step matches Step::Do { next: Revoke::Clearing { revoked: r }, .. } && r == revoked
}

/// `step` is what an attempt at `endpoint` comes to: the post of the token
/// to revoke, or, where the request cannot be built, the cleanup.
pub open spec fn attempt_made(
    ctx: RevokeContext,
    endpoint: Seq<char>,
    nonce: Option<Seq<char>>,
    retry: bool,
    stamps: Stamps,
    step: Step<Revoke, bool>,
) -> bool {
    match auth_post(
        Grant::Revoke,
        endpoint,
        token_to_revoke(ctx.session@),
        ctx.client.client_id@,
        ctx.client.kid@,
        ctx.client.secret@,
        ctx.key@,
        nonce,
        stamps.now,
        stamps.assertion_jti@,
        stamps.proof_jti@,
    ) {
        Err(_) => cleans_up(ctx.layout.key_prefix@, ctx.session.id@, false, step),
        Ok(post) => {
            &&& asks_post(step, post)
            &&& step matches Step::Do { next, .. } && (if retry {
                next matches Revoke::Retry { ctx: c, endpoint: e } && c == ctx && e@ == endpoint
            } else {
                next matches Revoke::FirstAttempt { ctx: c, endpoint: e } && c == ctx && e@
                    == endpoint
            })
        },
    }
}

/// `step` is the first step of the revocation of `session`.
pub open spec fn revoke_begun(
    session: CatbirdSession,
    key: Option<DPoPKeyPair>,
    client: ClientIdentity,
    layout: StoreLayout,
    debug_build: bool,
    step: Step<Revoke, bool>,
) -> bool {
    match key {
        None => cleans_up(layout.key_prefix@, session.id@, false, step),
        Some(k) => match discovery_begin(session.pds_url@, EndpointKind::Revocation, debug_build) {
            DiscoveryStepView::Fetch { state, url } => {
                &&& asks_get(step, url)
                &&& step matches Step::Do { next: Revoke::Discovering { ctx, discovery }, .. }
                    && discovery == state && ctx.session == session && ctx.key == k
                    && ctx.client.same_as(client) && ctx.layout.same_as(layout)
            },
            _ => cleans_up(layout.key_prefix@, session.id@, false, step),
        },
    }
}

/// `step` is the step a revocation in state `m` takes on `reply`.
pub open spec fn revoke_advanced(m: Revoke, reply: Reply, stamps: Stamps, step: Step<Revoke, bool>) -> bool {
    match m {
        Revoke::Discovering { ctx, discovery } => match reply {
            Reply::Response { status, headers, body } => match discovery_next(
                discovery,
                status,
                body@,
            ) {
                DiscoveryStepView::Failed(_) => cleans_up(
                    ctx.layout.key_prefix@,
                    ctx.session.id@,
                    false,
                    step,
                ),
                DiscoveryStepView::Fetch { state, url } => {
                    &&& asks_get(step, url)
                    &&& step matches Step::Do {
                        next: Revoke::Discovering { ctx: c, discovery: d },
                        ..
                    } && c == ctx && d == state
                },
                DiscoveryStepView::Found(endpoint) => attempt_made(
                    ctx,
                    endpoint,
                    None,
                    false,
                    stamps,
                    step,
                ),
            },
            _ => cleans_up(ctx.layout.key_prefix@, ctx.session.id@, false, step),
        },
        Revoke::FirstAttempt { ctx, endpoint } => match reply {
            Reply::Response { status, headers, body } => match nonce_challenge(
                status,
                headers@,
                false,
            ) {
                Some(nonce) => attempt_made(ctx, endpoint@, Some(nonce), true, stamps, step),
                None => cleans_up(
                    ctx.layout.key_prefix@,
                    ctx.session.id@,
                    is_success(status),
                    step,
                ),
            },
            _ => cleans_up(ctx.layout.key_prefix@, ctx.session.id@, false, step),
        },
        Revoke::Retry { ctx, endpoint } => match reply {
            Reply::Response { status, headers, body } => cleans_up(
                ctx.layout.key_prefix@,
                ctx.session.id@,
                is_success(status),
                step,
            ),
            _ => cleans_up(ctx.layout.key_prefix@, ctx.session.id@, false, step),
        },
        Revoke::Clearing { revoked } => step matches Step::Done(Ok(r)) && r == revoked,
    }
}

fn clean_up(layout: &StoreLayout, session: &CatbirdSession, revoked: bool) -> (r: Step<
    Revoke,
    bool,
>)
    ensures
        cleans_up(layout.key_prefix@, session.id@, revoked, r),
{
    Step::Do {
        next: Revoke::Clearing { revoked },
        effect: Effect::Store(clear_session_data(layout.key_prefix.as_str(), session.id.as_str())),
    }
}

fn attempt(
    ctx: RevokeContext,
    endpoint: String,
    nonce: Option<String>,
    retry: bool,
    stamps: &Stamps,
) -> (r: Step<Revoke, bool>)
    ensures
        attempt_made(ctx, endpoint@, nonce.deep_view(), retry, *stamps, r),
{
    let built = if ctx.session.refresh_token.as_str().unicode_len() > 0 {
        build_post(
            Grant::Revoke,
            endpoint.as_str(),
            ctx.session.refresh_token.as_str(),
            &ctx.client,
            &ctx.key,
            nonce,
            stamps,
        )
    } else {
        build_post(
            Grant::Revoke,
            endpoint.as_str(),
            ctx.session.access_token.as_str(),
            &ctx.client,
            &ctx.key,
            nonce,
            stamps,
        )
    };
    match built {
        Err(_) => clean_up(&ctx.layout, &ctx.session, false),
        Ok(post) => {
            let next = if retry {
                Revoke::Retry { ctx, endpoint }
            } else {
                Revoke::FirstAttempt { ctx, endpoint }
            };
            Step::Do { next, effect: Effect::Post(post) }
        },
    }
}

impl Revoke {
    /// Starts the revocation of `session`; `key` is the session's DPoP
    /// key pair as the store holds it.
    pub fn begin(
        session: CatbirdSession,
        key: Option<DPoPKeyPair>,
        client: ClientIdentity,
        layout: StoreLayout,
        debug_build: bool,
    ) -> (r: Step<Revoke, bool>)
        ensures
            revoke_begun(session, key, client, layout, debug_build, r),
            r is Do,
    {
        let key = match key {
            Some(k) => k,
            None => {
                return clean_up(&layout, &session, false);
            },
        };
        match Discovery::begin(session.pds_url.as_str(), EndpointKind::Revocation, debug_build) {
            DiscoveryStep::Fetch { state, url } => Step::Do {
                next: Revoke::Discovering {
                    ctx: RevokeContext { session, key, client, layout },
                    discovery: state,
                },
                effect: Effect::Get { url },
            },
            _ => clean_up(&layout, &session, false),
        }
    }

    /// Goes on with the reply to the effect that was asked for last. The
    /// operation ends only after the store was asked to delete the
    /// session's records, and its result says whether the server confirmed
    /// the revocation.
    pub fn advance(self, reply: Reply, stamps: &Stamps) -> (r: Step<Revoke, bool>)
        ensures
            revoke_advanced(self, reply, *stamps, r),
            r matches Step::Do { next, .. } ==> steps_left(next) < steps_left(self),
            r is Done <==> self is Clearing,
    {
        match self {
            Revoke::Discovering { ctx, discovery } => match reply {
                Reply::Response { status, headers, body } => match discovery.on_response(
                    status,
                    body.as_str(),
                ) {
                    DiscoveryStep::Failed(_) => clean_up(&ctx.layout, &ctx.session, false),
                    DiscoveryStep::Fetch { state, url } => Step::Do {
                        next: Revoke::Discovering { ctx, discovery: state },
                        effect: Effect::Get { url },
                    },
                    DiscoveryStep::Found(endpoint) => attempt(ctx, endpoint, None, false, stamps),
                },
                _ => clean_up(&ctx.layout, &ctx.session, false),
            },
            Revoke::FirstAttempt { ctx, endpoint } => match reply {
                Reply::Response { status, headers, body } => match challenge(
                    status,
                    &headers,
                    false,
                ) {
                    Some(nonce) => attempt(ctx, endpoint, Some(nonce), true, stamps),
                    None => clean_up(&ctx.layout, &ctx.session, status_is_success(status)),
                },
                _ => clean_up(&ctx.layout, &ctx.session, false),
            },
            Revoke::Retry { ctx, endpoint } => match reply {
                Reply::Response { status, headers, body } => clean_up(
                    &ctx.layout,
                    &ctx.session,
                    status_is_success(status),
                ),
                _ => clean_up(&ctx.layout, &ctx.session, false),
            },
            Revoke::Clearing { revoked } => Step::Done(Ok(revoked)),
        }
    }
}

/// The context of a revocation that has not yet come to the cleanup.
pub open spec fn context_of(m: Revoke) -> Option<RevokeContext> {
    match m {
        Revoke::Discovering { ctx, .. } => Some(ctx),
        Revoke::FirstAttempt { ctx, .. } => Some(ctx),
        Revoke::Retry { ctx, .. } => Some(ctx),
        Revoke::Clearing { .. } => None,
    }
}

/// `step` deletes the three records of the session `id`: it asks the store
/// for just that and goes on to the end, and once the store has done as it
/// was asked, none of the session's three keys is left in it.
pub open spec fn clears(prefix: Seq<char>, id: Seq<char>, step: Step<Revoke, bool>) -> bool {
    &&& step matches Step::Do { next: Revoke::Clearing { .. }, effect: Effect::Store(commands) }
        && commands_view(commands@) == clear_commands(prefix, id)
    &&& forall|store: StoreModel|
        {
            let after = #[trigger] apply_all(store, clear_commands(prefix, id));
            &&& !after.contains_key(session_key_of(prefix, id))
            &&& !after.contains_key(dpop_key_of(prefix, id))
            &&& !after.contains_key(oauth_session_key_of(prefix, id))
        }
}

/// A revocation always begins with an effect: a request on the way to the
/// server, with the session in hand, or, where there is no way to the
/// server, the cleanup itself.
pub proof fn revocation_begins(
    session: CatbirdSession,
    key: Option<DPoPKeyPair>,
    client: ClientIdentity,
    layout: StoreLayout,
    debug_build: bool,
    step: Step<Revoke, bool>,
)
    requires
        revoke_begun(session, key, client, layout, debug_build, step),
    ensures
        step matches Step::Do { next, .. } && (match context_of(next) {
            Some(ctx) => ctx.session == session && ctx.layout.key_prefix@ == layout.key_prefix@,
            None => clears(layout.key_prefix@, session.id@, step),
        }),
{
    assert forall|store: StoreModel|
        {
            let after = #[trigger] apply_all(
                store,
                clear_commands(layout.key_prefix@, session.id@),
            );
            &&& !after.contains_key(session_key_of(layout.key_prefix@, session.id@))
            &&& !after.contains_key(dpop_key_of(layout.key_prefix@, session.id@))
            &&& !after.contains_key(oauth_session_key_of(layout.key_prefix@, session.id@))
        } by {
        clear_removes_all(store, layout.key_prefix@, session.id@);
    }
}

/// A revocation comes to its end only after the cleanup, whatever the
/// server answers and whatever fails on the way: each step before the end
/// either goes on with the same session or deletes its three records, and
/// only the step after the cleanup is the last.
pub proof fn revocation_clears(m: Revoke, reply: Reply, stamps: Stamps, step: Step<Revoke, bool>)
    requires
        revoke_advanced(m, reply, stamps, step),
    ensures
        match context_of(m) {
            None => step is Done,
            Some(ctx) => step matches Step::Do { next, .. } && (match context_of(next) {
                Some(c) => c == ctx,
                None => clears(ctx.layout.key_prefix@, ctx.session.id@, step),
            }),
        },
{
    match context_of(m) {
        Some(ctx) => {
            assert forall|store: StoreModel|
                {
                    let after = #[trigger] apply_all(
                        store,
                        clear_commands(ctx.layout.key_prefix@, ctx.session.id@),
                    );
                    &&& !after.contains_key(session_key_of(ctx.layout.key_prefix@, ctx.session.id@))
                    &&& !after.contains_key(dpop_key_of(ctx.layout.key_prefix@, ctx.session.id@))
                    &&& !after.contains_key(
                        oauth_session_key_of(ctx.layout.key_prefix@, ctx.session.id@),
                    )
                } by {
                clear_removes_all(store, ctx.layout.key_prefix@, ctx.session.id@);
            }
        },
        None => {},
    }
}

} // verus!
