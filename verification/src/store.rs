//! The session store's key schema and the commands the gateway issues to
//! it.
//!
//! Three records are kept per session, each under its own key made of the
//! configured prefix, the record's kind and the session identifier. The
//! library decides what is written and deleted; carrying a command out is
//! left to the program around it.

use crate::models::{
    CatbirdSession,
    DPoPKeyPair,
    DPoPKeyPairView,
    OAuthSessionRecord,
    OAuthSessionRecordView,
    SessionView,
};
use vstd::prelude::*;
use vstd::string::*;

verus! {

/// How long the state of a pending authorization is kept, in seconds.
pub const STATE_TTL_SECONDS: u64 = 600;

/// How long a session's cookie lives, in seconds: 30 days.
pub const COOKIE_MAX_AGE_SECONDS: u64 = 2_592_000;

/// How the store is laid out: the prefix of every key and the lifetime of a
/// session's records.
#[derive(Debug)]
pub struct StoreLayout {
    pub key_prefix: String,
    pub session_ttl_seconds: u64,
}

impl StoreLayout {
    /// Both lay the store out in the same way.
    pub open spec fn same_as(&self, other: StoreLayout) -> bool {
        self.key_prefix@ == other.key_prefix@ && self.session_ttl_seconds
            == other.session_ttl_seconds
    }

    /// A copy of this layout.
    pub fn duplicate(&self) -> (r: StoreLayout)
        ensures
            r.same_as(*self),
    {
        StoreLayout {
            key_prefix: self.key_prefix.clone(),
            session_ttl_seconds: self.session_ttl_seconds,
        }
    }
}

/// The key of a session's `CatbirdSession` record.
pub open spec fn session_key_of(prefix: Seq<char>, id: Seq<char>) -> Seq<char> {
    prefix + "catbird_session:"@ + id
}

/// The key of a session's DPoP key pair.
pub open spec fn dpop_key_of(prefix: Seq<char>, id: Seq<char>) -> Seq<char> {
    prefix + "dpop_key:"@ + id
}

/// The key of a session's OAuth record.
pub open spec fn oauth_session_key_of(prefix: Seq<char>, id: Seq<char>) -> Seq<char> {
    prefix + "oauth_session:"@ + id
}

/// The key of the state kept for a pending authorization.
pub open spec fn oauth_state_key_of(prefix: Seq<char>, state: Seq<char>) -> Seq<char> {
    prefix + "oauth_state:"@ + state
}

/// The key of a session's `CatbirdSession` record.
pub fn session_key(prefix: &str, id: &str) -> (r: String)
    ensures
        r@ == session_key_of(prefix@, id@),
{
    let mut key = String::from_str(prefix);
    key.append("catbird_session:");
    key.append(id);
    key
}

/// The key of a session's DPoP key pair.
pub fn dpop_key(prefix: &str, id: &str) -> (r: String)
    ensures
        r@ == dpop_key_of(prefix@, id@),
{
    let mut key = String::from_str(prefix);
    key.append("dpop_key:");
    key.append(id);
    key
}

/// The key of a session's OAuth record.
pub fn oauth_session_key(prefix: &str, id: &str) -> (r: String)
    ensures
        r@ == oauth_session_key_of(prefix@, id@),
{
    let mut key = String::from_str(prefix);
    key.append("oauth_session:");
    key.append(id);
    key
}

/// The key of the state kept for a pending authorization.
pub fn oauth_state_key(prefix: &str, state: &str) -> (r: String)
    ensures
        r@ == oauth_state_key_of(prefix@, state@),
{
    let mut key = String::from_str(prefix);
    key.append("oauth_state:");
    key.append(state);
    key
}

/// A record of the store.
#[derive(Debug)]
pub enum Record {
    Session(CatbirdSession),
    DpopKey(DPoPKeyPair),
    OAuthSession(OAuthSessionRecord),
}

/// [`Record`] as plain values.
pub enum RecordView {
    Session(SessionView),
    DpopKey(DPoPKeyPairView),
    OAuthSession(OAuthSessionRecordView),
}

impl View for Record {
    type V = RecordView;

    open spec fn view(&self) -> RecordView {
        match self {
            Record::Session(s) => RecordView::Session(s@),
            Record::DpopKey(k) => RecordView::DpopKey(k@),
            Record::OAuthSession(o) => RecordView::OAuthSession(o@),
        }
    }
}

/// A command to the store.
#[derive(Debug)]
pub enum StoreCommand {
    /// Write `record` under `key`, to expire after `ttl_seconds`.
    Put { key: String, ttl_seconds: u64, record: Record },
    /// Delete what is under `key`, if anything.
    Delete { key: String },
}

/// [`StoreCommand`] as plain values.
pub enum StoreCommandView {
    Put { key: Seq<char>, ttl_seconds: u64, record: RecordView },
    Delete { key: Seq<char> },
}

impl View for StoreCommand {
    type V = StoreCommandView;

    open spec fn view(&self) -> StoreCommandView {
        match self {
            StoreCommand::Put { key, ttl_seconds, record } => StoreCommandView::Put {
                key: key@,
                ttl_seconds: *ttl_seconds,
                record: record@,
            },
            StoreCommand::Delete { key } => StoreCommandView::Delete { key: key@ },
        }
    }
}

/// The views of a list of commands.
pub open spec fn commands_view(commands: Seq<StoreCommand>) -> Seq<StoreCommandView> {
    commands.map_values(|c: StoreCommand| c@)
}

/// What the store holds: the record under each key.
pub type StoreModel = Map<Seq<char>, RecordView>;

/// The store after one command.
pub open spec fn apply(store: StoreModel, command: StoreCommandView) -> StoreModel {
    match command {
        StoreCommandView::Put { key, ttl_seconds, record } => store.insert(key, record),
        StoreCommandView::Delete { key } => store.remove(key),
    }
}

/// The store after a list of commands, carried out in order.
pub open spec fn apply_all(store: StoreModel, commands: Seq<StoreCommandView>) -> StoreModel
    decreases commands.len(),
{
    if commands.len() == 0 {
        store
    } else {
        apply_all(apply(store, commands[0]), commands.drop_first())
    }
}

/// The command that deletes a session's three records.
pub open spec fn clear_commands(prefix: Seq<char>, id: Seq<char>) -> Seq<StoreCommandView> {
    seq![
        StoreCommandView::Delete { key: session_key_of(prefix, id) },
        StoreCommandView::Delete { key: dpop_key_of(prefix, id) },
        StoreCommandView::Delete { key: oauth_session_key_of(prefix, id) },
    ]
}

/// The command that writes `session` under its key.
pub fn save_session(prefix: &str, ttl_seconds: u64, session: &CatbirdSession) -> (r: StoreCommand)
    ensures
        r@ == (StoreCommandView::Put {
            key: session_key_of(prefix@, session.id@),
            ttl_seconds,
            record: RecordView::Session(session@),
        }),
{
    StoreCommand::Put {
        key: session_key(prefix, session.id.as_str()),
        ttl_seconds,
        record: Record::Session(session.duplicate()),
    }
}

/// The command that deletes the `CatbirdSession` record of a session.
pub fn delete_session(prefix: &str, session_id: &str) -> (r: StoreCommand)
    ensures
        r@ == (StoreCommandView::Delete { key: session_key_of(prefix@, session_id@) }),
{
    StoreCommand::Delete { key: session_key(prefix, session_id) }
}

/// The commands that delete all three records of a session. Deleting a
/// record that is not there does nothing, so the commands may be repeated.
pub fn clear_session_data(prefix: &str, session_id: &str) -> (r: Vec<StoreCommand>)
    ensures
        commands_view(r@) == clear_commands(prefix@, session_id@),
{
    let mut commands: Vec<StoreCommand> = Vec::new();
    commands.push(StoreCommand::Delete { key: session_key(prefix, session_id) });
    commands.push(StoreCommand::Delete { key: dpop_key(prefix, session_id) });
    commands.push(StoreCommand::Delete { key: oauth_session_key(prefix, session_id) });
    assert(commands_view(commands@) =~= clear_commands(prefix@, session_id@));
    commands
}

/// After a session's records are cleared, none of its three keys is left,
/// and every other key holds what it held.
pub proof fn clear_removes_all(store: StoreModel, prefix: Seq<char>, id: Seq<char>)
    ensures
        ({
            let after = apply_all(store, clear_commands(prefix, id));
            &&& !after.contains_key(session_key_of(prefix, id))
            &&& !after.contains_key(dpop_key_of(prefix, id))
            &&& !after.contains_key(oauth_session_key_of(prefix, id))
            &&& forall|k: Seq<char>|
                k != session_key_of(prefix, id) && k != dpop_key_of(prefix, id) && k
                    != oauth_session_key_of(prefix, id) ==> (after.contains_key(k)
                    <==> store.contains_key(k)) && (store.contains_key(k) ==> after[k] == store[k])
        }),
{
    let c = clear_commands(prefix, id);
    let s1 = apply(store, c[0]);
    let c1 = c.drop_first();
    let s2 = apply(s1, c1[0]);
    let c2 = c1.drop_first();
    let s3 = apply(s2, c2[0]);
    let c3 = c2.drop_first();
    assert(c3.len() == 0);
    assert(apply_all(s3, c3) == s3);
    assert(apply_all(s2, c2) == s3);
    assert(apply_all(s1, c1) == s3);
    assert(apply_all(store, c) == s3);
}

/// The three keys of a session differ from one another and from the keys
/// of every other session: a record's kind and its session can be read off
/// its key.
pub proof fn keys_are_distinct(prefix: Seq<char>, a: Seq<char>, b: Seq<char>)
    ensures
        session_key_of(prefix, a) != dpop_key_of(prefix, b),
        session_key_of(prefix, a) != oauth_session_key_of(prefix, b),
        dpop_key_of(prefix, a) != oauth_session_key_of(prefix, b),
        a != b ==> session_key_of(prefix, a) != session_key_of(prefix, b),
        a != b ==> dpop_key_of(prefix, a) != dpop_key_of(prefix, b),
        a != b ==> oauth_session_key_of(prefix, a) != oauth_session_key_of(prefix, b),
{
    reveal_strlit("catbird_session:");
    reveal_strlit("dpop_key:");
    reveal_strlit("oauth_session:");
    let n = prefix.len() as int;
    assert(session_key_of(prefix, a)[n] == 'c');
    assert(dpop_key_of(prefix, a)[n] == 'd');
    assert(dpop_key_of(prefix, b)[n] == 'd');
    assert(oauth_session_key_of(prefix, b)[n] == 'o');
    assert(a =~= session_key_of(prefix, a).skip(n + 16));
    assert(b =~= session_key_of(prefix, b).skip(n + 16));
    assert(a =~= dpop_key_of(prefix, a).skip(n + 9));
    assert(b =~= dpop_key_of(prefix, b).skip(n + 9));
    assert(a =~= oauth_session_key_of(prefix, a).skip(n + 14));
    assert(b =~= oauth_session_key_of(prefix, b).skip(n + 14));
}

/// Some command of the list writes or deletes what is under `key`.
pub open spec fn touches(commands: Seq<StoreCommandView>, key: Seq<char>) -> bool {
    exists|i: int|
        0 <= i < commands.len() && (match #[trigger] commands[i] {
            StoreCommandView::Put { key: k, .. } => k == key,
            StoreCommandView::Delete { key: k } => k == key,
        })
}

/// What is under a key that no command touches stays as it is.
pub proof fn untouched_stays(store: StoreModel, commands: Seq<StoreCommandView>, key: Seq<char>)
    requires
        !touches(commands, key),
    ensures
        apply_all(store, commands).contains_key(key) <==> store.contains_key(key),
        store.contains_key(key) ==> apply_all(store, commands)[key] == store[key],
    decreases commands.len(),
{
    if commands.len() > 0 {
        let rest = commands.drop_first();
        assert(commands[0] == commands[0]);
        assert forall|i: int| 0 <= i < rest.len() implies !(match #[trigger] rest[i] {
            StoreCommandView::Put { key: k, .. } => k == key,
            StoreCommandView::Delete { key: k } => k == key,
        }) by {
            assert(rest[i] == commands[i + 1]);
        }
        untouched_stays(apply(store, commands[0]), rest, key);
    }
}

} // verus!
