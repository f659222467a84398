//! Session state and the login transaction: the shared container holding
//! homeserver identity, the authenticated handle, the username and the room
//! index, together with the state machine that a login drives through it,
//! and the sync event-dispatch decision.

use vstd::prelude::*;

verus! {

/// Stands for a live protocol connection. Code around the library pairs each
/// identifier with the real connection object it holds; the library itself
/// never looks inside a connection.
#[derive(Clone, Copy, PartialEq, Eq, Structural)]
pub struct SessionHandle {
    pub id: u64,
}

/// What room discovery reads from one joined room: its display name, if it
/// has one, and its stable room identifier.
pub struct RoomInfo {
    pub name: Option<String>,
    pub room_id: String,
}

/// The key a room is indexed under: its display name, or the empty string
/// for an unnamed room.
pub open spec fn room_key(r: RoomInfo) -> Seq<char> {
    match r.name {
        Option::Some(n) => n@,
        Option::None => Seq::empty(),
    }
}

/// The mapping from display name to room identifier that indexing a listing
/// produces; a later room with the same key overwrites an earlier one.
pub open spec fn index_map_of(rooms: Seq<RoomInfo>) -> Map<Seq<char>, Seq<char>>
    decreases rooms.len(),
{
    if rooms.len() == 0 {
        Map::empty()
    } else {
        index_map_of(rooms.drop_last()).insert(room_key(rooms.last()), rooms.last().room_id@)
    }
}

/// The room index: an immutable-after-construction mapping from room display
/// name to room identifier, replaced wholesale on each login.
pub struct RoomIndex {
    pub entries: Vec<(String, String)>,
}

/// The mapping that a sequence of key/identifier entries denotes, later
/// entries overwriting earlier ones.
pub open spec fn map_of_entries(es: Seq<(String, String)>) -> Map<Seq<char>, Seq<char>>
    decreases es.len(),
{
    if es.len() == 0 {
        Map::empty()
    } else {
        map_of_entries(es.drop_last()).insert(es.last().0@, es.last().1@)
    }
}

impl View for RoomIndex {
    type V = Map<Seq<char>, Seq<char>>;

    open spec fn view(&self) -> Map<Seq<char>, Seq<char>> {
        map_of_entries(self.entries@)
    }
}

/// Entries whose keys all differ from `key` do not affect the lookup of
/// `key` in the mapping the entries denote.
proof fn lemma_lookup_skips_other_keys(es: Seq<(String, String)>, k: int, key: Seq<char>)
    requires
        0 <= k <= es.len(),
        forall|m: int| k <= m < es.len() ==> es[m].0@ != key,
    ensures
        map_of_entries(es).contains_key(key) == map_of_entries(es.subrange(0, k)).contains_key(
            key,
        ),
        map_of_entries(es).contains_key(key) ==> map_of_entries(es)[key] == map_of_entries(
            es.subrange(0, k),
        )[key],
    decreases es.len() - k,
{
    if k == es.len() {
        assert(es.subrange(0, k) =~= es);
    } else {
        let shorter = es.drop_last();
        assert(es.last().0@ != key);
        lemma_lookup_skips_other_keys(shorter, k, key);
        assert(shorter.subrange(0, k) =~= es.subrange(0, k));
    }
}

impl RoomIndex {
    /// The number of entries the index was built from.
    pub fn entry_count(&self) -> (r: usize)
        ensures
            r == self.entries@.len(),
    {
        self.entries.len()
    }

    /// Looks a room up by display name: the identifier of the last room
    /// indexed under that name, if any.
    pub fn room_id_for(&self, name: &String) -> (r: Option<&String>)
        ensures
            r is Some <==> self@.contains_key(name@),
            r matches Some(v) ==> self@.contains_key(name@) && v@ == self@[name@],
    {
        let mut k: usize = self.entries.len();
        while k > 0
            invariant
                k <= self.entries@.len(),
                forall|m: int| k <= m < self.entries@.len() ==> self.entries@[m].0@ != name@,
            decreases k,
        {
            k -= 1;
            let entry = &self.entries[k];
            if entry.0 == *name {
                proof {
                    lemma_lookup_skips_other_keys(self.entries@, k + 1, name@);
                    assert(self.entries@.subrange(0, k + 1).drop_last() =~= self.entries@.subrange(
                        0,
                        k as int,
                    ));
                    assert(self.entries@.subrange(0, k + 1).last() == self.entries@[k as int]);
                }
                return Some(&entry.1);
            }
        }
        proof {
            lemma_lookup_skips_other_keys(self.entries@, 0, name@);
            assert(self.entries@.subrange(0, 0) =~= Seq::<(String, String)>::empty());
        }
        None
    }
}

/// Builds the room index from a listing of joined rooms: each room is keyed
/// by its display name, falling back to the empty string when it has none,
/// and a name collision silently overwrites (last write wins).
pub fn build_room_index(rooms: &Vec<RoomInfo>) -> (r: RoomIndex)
    ensures
        r@ == index_map_of(rooms@),
        r.entries@.len() == rooms@.len(),
{
    let mut entries: Vec<(String, String)> = Vec::new();
    let mut i: usize = 0;
    while i < rooms.len()
        invariant
            i <= rooms@.len(),
            entries@.len() == i,
            map_of_entries(entries@) == index_map_of(rooms@.subrange(0, i as int)),
        decreases rooms@.len() - i,
    {
        let room = &rooms[i];
        let key: String = match &room.name {
            Option::Some(n) => n.clone(),
            Option::None => String::new(),
        };
        let id: String = room.room_id.clone();
        let ghost prev = entries@;
        entries.push((key, id));
        i += 1;
        proof {
            assert(entries@.drop_last() =~= prev);
            assert(rooms@.subrange(0, i as int).drop_last() =~= rooms@.subrange(0, i - 1));
            assert(rooms@.subrange(0, i as int).last() == rooms@[i - 1]);
            assert(key@ == room_key(rooms@[i - 1]));
        }
    }
    proof {
        assert(rooms@.subrange(0, rooms@.len() as int) =~= rooms@);
    }
    RoomIndex { entries }
}

/// The session's observable state: each field as a plain mathematical value.
pub struct SessionView {
    pub homeserver_url: Option<Seq<char>>,
    pub username: Option<Seq<char>>,
    pub client: Option<u64>,
    pub rooms: Option<Map<Seq<char>, Seq<char>>>,
}

/// The single shared session container. Exclusive access comes from holding
/// it behind `&mut` (or a lock around it in code that shares it): every
/// operation here takes the whole container, so no reader can observe a
/// half-applied transaction.
pub struct MeshClient {
    pub homeserver_url: Option<String>,
    pub username: Option<String>,
    pub client: Option<SessionHandle>,
    pub rooms: Option<RoomIndex>,
}

impl View for MeshClient {
    type V = SessionView;

    open spec fn view(&self) -> SessionView {
        SessionView {
            homeserver_url: match self.homeserver_url {
                Option::Some(u) => Option::Some(u@),
                Option::None => Option::None,
            },
            username: match self.username {
                Option::Some(u) => Option::Some(u@),
                Option::None => Option::None,
            },
            client: match self.client {
                Option::Some(h) => Option::Some(h.id),
                Option::None => Option::None,
            },
            rooms: match self.rooms {
                Option::Some(r) => Option::Some(r@),
                Option::None => Option::None,
            },
        }
    }
}

impl MeshClient {
    /// A room index is only ever present alongside an authenticated handle.
    pub open spec fn wf(&self) -> bool {
        self.rooms is Some ==> self.client is Some
    }

    /// A fresh, logged-out session.
    pub fn new() -> (r: MeshClient)
        ensures
            r.homeserver_url is None,
            r.username is None,
            r.client is None,
            r.rooms is None,
            r.wf(),
    {
        MeshClient { homeserver_url: None, username: None, client: None, rooms: None }
    }

    /// Reads the username, without side effects.
    pub fn read_username(&self) -> (r: Option<String>)
        ensures
            r == self.username,
    {
        match &self.username {
            Option::Some(u) => Option::Some(u.clone()),
            Option::None => Option::None,
        }
    }

    /// Installs the connection handle: the unauthenticated descriptor after
    /// discovery, or its authenticated replacement after a login.
    pub fn install_session(&mut self, handle: SessionHandle)
        ensures
            final(self).client == Some(handle),
            final(self).homeserver_url == old(self).homeserver_url,
            final(self).username == old(self).username,
            final(self).rooms == old(self).rooms,
    {
        self.client = Some(handle);
    }

    /// Installs a freshly built room index, wholesale.
    pub fn install_room_index(&mut self, index: RoomIndex)
        requires
            old(self).client is Some,
        ensures
            final(self).rooms == Some(index),
            final(self).homeserver_url == old(self).homeserver_url,
            final(self).username == old(self).username,
            final(self).client == old(self).client,
            final(self).wf(),
    {
        self.rooms = Some(index);
    }

    /// Installs the username of a successful login.
    pub fn install_username(&mut self, name: String)
        ensures
            final(self).username == Some(name),
            final(self).homeserver_url == old(self).homeserver_url,
            final(self).client == old(self).client,
            final(self).rooms == old(self).rooms,
    {
        self.username = Some(name);
    }
}

/// Why a login attempt failed.
#[derive(Debug)]
pub enum LoginError {
    /// No connection descriptor exists yet: login was called before
    /// discovery.
    InvalidState,
    /// The requested login kind is not implemented; carries the kind.
    UnsupportedKind(String),
    /// The homeserver rejected the credentials; carries its message.
    Authentication(String),
    /// The sync loop could not be entered after the session was committed;
    /// carries the underlying message.
    Sync(String),
}

impl LoginError {
    /// A human-readable message for the boundary, one per variant.
    pub fn message(&self) -> (r: String)
        ensures
            self is InvalidState ==> r@ == "no connection: discover login options first"@,
            self matches LoginError::UnsupportedKind(k) ==> r@ == "Unknown login kind "@ + k@,
            self matches LoginError::Authentication(m) ==> r@ == m@,
            self matches LoginError::Sync(m) ==> r@ == m@,
    {
        match self {
            LoginError::InvalidState => String::from_str(
                "no connection: discover login options first",
            ),
            LoginError::UnsupportedKind(k) => String::from_str("Unknown login kind ").concat(
                k.as_str(),
            ),
            LoginError::Authentication(m) => m.clone(),
            LoginError::Sync(m) => m.clone(),
        }
    }
}

/// What the homeserver answered to a credential exchange.
pub enum ExchangeOutcome {
    /// Credentials accepted; the connection is now authenticated.
    Granted(SessionHandle),
    /// Credentials rejected; carries the homeserver's message.
    Denied(String),
}

/// A login attempt may proceed to the credential exchange exactly when a
/// connection descriptor exists and the kind is the implemented one.
pub open spec fn begin_ok(s: SessionView, kind: Seq<char>) -> bool {
    s.client is Some && kind == "Password"@
}

/// The session state a granted login commits: the submitted username, the
/// new handle and the fresh room index, with the homeserver identity kept.
pub open spec fn login_granted_post(
    pre: SessionView,
    username: Seq<char>,
    handle: u64,
    rooms: Map<Seq<char>, Seq<char>>,
) -> SessionView {
    SessionView {
        homeserver_url: pre.homeserver_url,
        username: Some(username),
        client: Some(handle),
        rooms: Some(rooms),
    }
}

/// The session state after one whole login attempt: a granted exchange of an
/// admissible attempt commits; everything else leaves the state untouched.
pub open spec fn login_attempt_post(
    pre: SessionView,
    kind: Seq<char>,
    granted: bool,
    username: Seq<char>,
    handle: u64,
    rooms: Map<Seq<char>, Seq<char>>,
) -> SessionView {
    if begin_ok(pre, kind) && granted {
        login_granted_post(pre, username, handle, rooms)
    } else {
        pre
    }
}

/// The first half of a login attempt: checks the precondition and the kind,
/// before any credential leaves the process. Reads the session only; the
/// state is unchanged whatever the answer.
pub fn login_begin(state: &MeshClient, kind: &String) -> (r: Result<(), LoginError>)
    ensures
        r is Ok <==> begin_ok(state@, kind@),
        state@.client is None ==> r == Err::<(), LoginError>(LoginError::InvalidState),
        state@.client is Some && kind@ != "Password"@ ==> (r matches Err(
            LoginError::UnsupportedKind(k),
        ) && k@ == kind@),
{
    if state.client.is_none() {
        return Err(LoginError::InvalidState);
    }
    let pw = String::from_str("Password");
    if *kind == pw {
        Ok(())
    } else {
        Err(LoginError::UnsupportedKind(kind.clone()))
    }
}

/// The second half of a login attempt: applies the homeserver's answer to
/// the session. A denial changes nothing and surfaces the homeserver's
/// message; a grant commits username, handle and room index as one
/// transaction under the single exclusive borrow.
pub fn login_complete(
    state: &mut MeshClient,
    username: String,
    outcome: ExchangeOutcome,
    joined: Vec<RoomInfo>,
) -> (r: Result<(), LoginError>)
    ensures
        outcome matches ExchangeOutcome::Granted(h) ==> r is Ok && final(state)@
            == login_granted_post(old(state)@, username@, h.id, index_map_of(joined@)),
        outcome matches ExchangeOutcome::Denied(m) ==> *final(state) == *old(state) && (r matches
        Err(LoginError::Authentication(msg)) && msg@ == m@),
        old(state).wf() ==> final(state).wf(),
{
    match outcome {
        ExchangeOutcome::Denied(m) => Err(LoginError::Authentication(m)),
        ExchangeOutcome::Granted(h) => {
            let index = build_room_index(&joined);
            state.install_session(h);
            state.install_username(username);
            state.install_room_index(index);
            Ok(())
        },
    }
}

/// Per-room membership of the current session, gating event dispatch.
#[derive(Clone, Copy, PartialEq, Eq, Structural)]
pub enum MembershipState {
    Joined,
    Invited,
    Left,
}

/// The payload kind of an incoming room-message event.
pub enum MessageContent {
    /// A plain text message; carries its text.
    Text(String),
    /// Any other message kind: media, notices and the rest.
    Other,
}

/// The dispatch decision for one incoming room-message event: a text message
/// in a joined room is delivered as the pair of originating room and text;
/// everything else is dropped silently.
pub fn on_room_message(
    membership: MembershipState,
    content: MessageContent,
    room_id: String,
) -> (r: Option<(String, String)>)
    ensures
        r is Some <==> (membership is Joined && content matches MessageContent::Text(_)),
        membership is Joined ==> (content matches MessageContent::Text(t) ==> r == Some(
            (room_id, t),
        )),
{
    match membership {
        MembershipState::Joined => {},
        _ => {
            return None;
        },
    }
    match content {
        MessageContent::Text(t) => Some((room_id, t)),
        MessageContent::Other => None,
    }
}

/// A login attempt whose kind is not the implemented one never changes the
/// session, whatever the attempt would have carried.
pub proof fn lemma_unsupported_kind_unchanged(
    pre: SessionView,
    kind: Seq<char>,
    granted: bool,
    username: Seq<char>,
    handle: u64,
    rooms: Map<Seq<char>, Seq<char>>,
)
    requires
        kind != "Password"@,
    ensures
        login_attempt_post(pre, kind, granted, username, handle, rooms) == pre,
{
}

/// After a granted login the committed state carries the submitted username,
/// and the room index is non-empty exactly when the session had joined rooms
/// at login time.
pub proof fn lemma_login_commit_observed(
    pre: SessionView,
    kind: Seq<char>,
    username: Seq<char>,
    handle: u64,
    joined: Seq<RoomInfo>,
)
    requires
        begin_ok(pre, kind),
    ensures
        ({
            let post = login_attempt_post(pre, kind, true, username, handle, index_map_of(joined));
            &&& post.username == Some(username)
            &&& post.rooms == Some(index_map_of(joined))
            &&& ((index_map_of(joined).dom() =~= Set::<Seq<char>>::empty()) <==> joined.len() == 0)
        }),
{
    if joined.len() == 0 {
        assert(index_map_of(joined).dom() =~= Set::<Seq<char>>::empty());
    } else {
        assert(index_map_of(joined).dom().contains(room_key(joined.last())));
    }
}

/// Two login attempts run in sequence serialize: the final session is the
/// whole outcome of the last committed attempt, or of the first when only it
/// committed, or the starting state when none did. Its fields never mix two
/// attempts.
pub proof fn lemma_login_serializes(
    pre: SessionView,
    kind_a: Seq<char>,
    granted_a: bool,
    user_a: Seq<char>,
    handle_a: u64,
    rooms_a: Map<Seq<char>, Seq<char>>,
    kind_b: Seq<char>,
    granted_b: bool,
    user_b: Seq<char>,
    handle_b: u64,
    rooms_b: Map<Seq<char>, Seq<char>>,
)
    ensures
        ({
            let mid = login_attempt_post(pre, kind_a, granted_a, user_a, handle_a, rooms_a);
            let post = login_attempt_post(mid, kind_b, granted_b, user_b, handle_b, rooms_b);
            &&& (begin_ok(mid, kind_b) && granted_b) ==> post == login_granted_post(
                pre,
                user_b,
                handle_b,
                rooms_b,
            )
            &&& (!(begin_ok(mid, kind_b) && granted_b) && begin_ok(pre, kind_a) && granted_a)
                ==> post == login_granted_post(pre, user_a, handle_a, rooms_a)
            &&& (!(begin_ok(mid, kind_b) && granted_b) && !(begin_ok(pre, kind_a) && granted_a))
                ==> post == pre
        }),
{
}

} // verus!
