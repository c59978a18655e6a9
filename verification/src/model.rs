//! The abstract state of the store and what each operation does to it.
//!
//! Every operation of `AcpStore` is specified by a function here from the
//! state before, the arguments, the id it draws and the time it reads, to the
//! state after and the answer. A refused request is answered by a message
//! and leaves the state as it was.
use crate::paths::outside_workspace;
use crate::types::{
    default_capabilities, AcpTransport, ConnectionStatus, ConnectionType, ConnectionView,
    EventView, ExposedAgentView, FileChangeView, PatchStatus, PatchView, PayloadView,
    PermissionDecision, PermissionType, PermissionView, SessionStatus, SessionView, Timestamp,
};
use vstd::prelude::*;

verus! {

/// The contents of a store: connections and sessions by id, and the exposed
/// agents in the order they were published.
pub struct StoreView {
    pub connections: Map<Seq<char>, ConnectionView>,
    pub sessions: Map<Seq<char>, SessionView>,
    pub exposed_agents: Seq<ExposedAgentView>,
}

/// Every connection and every session is stored under its own id.
pub open spec fn ids_match(s: StoreView) -> bool {
    &&& forall|k: Seq<char>| #[trigger]
        s.connections.contains_key(k) ==> s.connections[k].id == k
    &&& forall|k: Seq<char>| #[trigger] s.sessions.contains_key(k) ==> s.sessions[k].id == k
}

/// A time as the system clock gives it: not before the Unix epoch, and with
/// fewer nanoseconds than a second.
pub open spec fn is_clock_reading(t: Timestamp) -> bool {
    0 <= t.secs && t.nanos < 1_000_000_000
}

/// The protocol version that this platform announces.
pub open spec fn protocol_version() -> Seq<char> {
    "0.1"@
}

/// How a session status is written in messages.
pub open spec fn status_name(s: SessionStatus) -> Seq<char> {
    match s {
        SessionStatus::Active => "Active"@,
        SessionStatus::Completed => "Completed"@,
        SessionStatus::Cancelled => "Cancelled"@,
        SessionStatus::Error => "Error"@,
    }
}

pub open spec fn connection_not_found(id: Seq<char>) -> Seq<char> {
    "Connection not found: "@ + id
}

pub open spec fn session_not_found(id: Seq<char>) -> Seq<char> {
    "Session not found: "@ + id
}

pub open spec fn session_not_active(status: SessionStatus) -> Seq<char> {
    "Session not active: "@ + status_name(status)
}

pub open spec fn permission_not_found(id: Seq<char>) -> Seq<char> {
    "Permission not found: "@ + id
}

pub open spec fn patch_not_found(id: Seq<char>) -> Seq<char> {
    "Patch not found: "@ + id
}

/// `i` is the first position of `ps` that holds a permission with id `id`.
pub open spec fn is_first_permission(ps: Seq<PermissionView>, id: Seq<char>, i: int) -> bool {
    &&& 0 <= i < ps.len()
    &&& ps[i].id == id
    &&& forall|j: int| 0 <= j < i ==> #[trigger] ps[j].id != id
}

/// The first position of `ps` that holds a permission with id `id`, if any.
pub open spec fn find_permission(ps: Seq<PermissionView>, id: Seq<char>) -> Option<int> {
    if exists|i: int| is_first_permission(ps, id, i) {
        Some(choose|i: int| is_first_permission(ps, id, i))
    } else {
        None
    }
}

/// The first position holding a permission with an id is what `find_permission` gives.
pub proof fn lemma_find_permission(ps: Seq<PermissionView>, id: Seq<char>, i: int)
    requires
        is_first_permission(ps, id, i),
    ensures
        find_permission(ps, id) == Some(i),
{
    let k = choose|k: int| is_first_permission(ps, id, k);
    assert(is_first_permission(ps, id, k));
    if k < i {
        assert(ps[k].id != id);
    } else if i < k {
        assert(ps[i].id != id);
    }
}

/// Where some permission has the id, `find_permission` finds one.
pub proof fn lemma_find_permission_some(ps: Seq<PermissionView>, id: Seq<char>, k: int)
    requires
        0 <= k < ps.len(),
        ps[k].id == id,
    ensures
        find_permission(ps, id) is Some,
    decreases k,
{
    if exists|j: int| 0 <= j < k && #[trigger] ps[j].id == id {
        let j = choose|j: int| 0 <= j < k && #[trigger] ps[j].id == id;
        lemma_find_permission_some(ps, id, j);
    } else {
        assert(is_first_permission(ps, id, k));
    }
}

/// Where no permission has the id, `find_permission` gives nothing.
pub proof fn lemma_find_permission_none(ps: Seq<PermissionView>, id: Seq<char>)
    requires
        forall|j: int| 0 <= j < ps.len() ==> #[trigger] ps[j].id != id,
    ensures
        find_permission(ps, id) is None,
{
}

/// `i` is the first position of `ps` that holds a patch with id `id`.
pub open spec fn is_first_patch(ps: Seq<PatchView>, id: Seq<char>, i: int) -> bool {
    &&& 0 <= i < ps.len()
    &&& ps[i].id == id
    &&& forall|j: int| 0 <= j < i ==> #[trigger] ps[j].id != id
}

/// The first position of `ps` that holds a patch with id `id`, if any.
pub open spec fn find_patch(ps: Seq<PatchView>, id: Seq<char>) -> Option<int> {
    if exists|i: int| is_first_patch(ps, id, i) {
        Some(choose|i: int| is_first_patch(ps, id, i))
    } else {
        None
    }
}

/// The first position holding a patch with an id is what `find_patch` gives.
pub proof fn lemma_find_patch(ps: Seq<PatchView>, id: Seq<char>, i: int)
    requires
        is_first_patch(ps, id, i),
    ensures
        find_patch(ps, id) == Some(i),
{
    let k = choose|k: int| is_first_patch(ps, id, k);
    assert(is_first_patch(ps, id, k));
    if k < i {
        assert(ps[k].id != id);
    } else if i < k {
        assert(ps[i].id != id);
    }
}

/// Where some patch has the id, `find_patch` finds one.
pub proof fn lemma_find_patch_some(ps: Seq<PatchView>, id: Seq<char>, k: int)
    requires
        0 <= k < ps.len(),
        ps[k].id == id,
    ensures
        find_patch(ps, id) is Some,
    decreases k,
{
    if exists|j: int| 0 <= j < k && #[trigger] ps[j].id == id {
        let j = choose|j: int| 0 <= j < k && #[trigger] ps[j].id == id;
        lemma_find_patch_some(ps, id, j);
    } else {
        assert(is_first_patch(ps, id, k));
    }
}

/// Where no patch has the id, `find_patch` gives nothing.
pub proof fn lemma_find_patch_none(ps: Seq<PatchView>, id: Seq<char>)
    requires
        forall|j: int| 0 <= j < ps.len() ==> #[trigger] ps[j].id != id,
    ensures
        find_patch(ps, id) is None,
{
}

/// `l` lists each connection of `m` exactly once, in some order.
pub open spec fn lists_connections(m: Map<Seq<char>, ConnectionView>, l: Seq<ConnectionView>) -> bool {
    &&& forall|i: int| 0 <= i < l.len() ==> #[trigger] m.contains_key(l[i].id) && m[l[i].id] == l[i]
    &&& forall|k: Seq<char>| #[trigger] m.contains_key(k) ==> exists|i: int| 0 <= i < l.len() && l[i].id == k
    &&& forall|i: int, j: int|
        0 <= i < l.len() && 0 <= j < l.len() && #[trigger] l[i].id == #[trigger] l[j].id ==> i == j
}

/// The store with the session `sess` under the id `id`.
pub open spec fn put_session(s: StoreView, id: Seq<char>, sess: SessionView) -> StoreView {
    StoreView { sessions: s.sessions.insert(id, sess), ..s }
}

/// A connection as it is registered.
pub open spec fn new_connection(
    id: Seq<char>,
    now: Timestamp,
    name: Seq<char>,
    connection_type: ConnectionType,
    transport: AcpTransport,
    command: Option<Seq<char>>,
    url: Option<Seq<char>>,
    workspace: Option<Seq<char>>,
) -> ConnectionView {
    ConnectionView {
        id,
        name,
        connection_type,
        transport,
        command,
        url,
        protocol_version: protocol_version(),
        capabilities: default_capabilities(),
        status: ConnectionStatus::Connected,
        workspace,
        created_at: now,
    }
}

/// Registering a connection stores it under its id.
pub open spec fn register_connection(s: StoreView, c: ConnectionView) -> StoreView {
    StoreView { connections: s.connections.insert(c.id, c), ..s }
}

/// A session as it is opened: active, with nothing recorded yet.
pub open spec fn new_session(
    id: Seq<char>,
    connection_id: Seq<char>,
    workspace: Seq<char>,
    now: Timestamp,
) -> SessionView {
    SessionView {
        id,
        connection_id,
        workspace,
        status: SessionStatus::Active,
        permissions: Seq::empty(),
        patches: Seq::empty(),
        events: Seq::empty(),
        created_at: now,
        updated_at: now,
    }
}

/// Opening a session on a registered connection.
pub open spec fn create_session(
    s: StoreView,
    connection_id: Seq<char>,
    workspace: Seq<char>,
    id: Seq<char>,
    now: Timestamp,
) -> (StoreView, Result<SessionView, Seq<char>>) {
    if !s.connections.contains_key(connection_id) {
        (s, Err(connection_not_found(connection_id)))
    } else {
        let sess = new_session(id, connection_id, workspace, now);
        (put_session(s, id, sess), Ok(sess))
    }
}

/// The event that records a prompt sent to the agent.
pub open spec fn prompt_event(id: Seq<char>, prompt: Seq<char>, now: Timestamp) -> EventView {
    EventView {
        id,
        event_type: "session/prompt"@,
        payload: PayloadView::Prompt { text: prompt },
        timestamp: now,
    }
}

/// Sending a prompt on an active session records it as an event.
pub open spec fn send_prompt(
    s: StoreView,
    session_id: Seq<char>,
    prompt: Seq<char>,
    id: Seq<char>,
    now: Timestamp,
) -> (StoreView, Result<EventView, Seq<char>>) {
    if !s.sessions.contains_key(session_id) {
        (s, Err(session_not_found(session_id)))
    } else {
        let sess = s.sessions[session_id];
        if sess.status != SessionStatus::Active {
            (s, Err(session_not_active(sess.status)))
        } else {
            let e = prompt_event(id, prompt, now);
            let sess2 = SessionView { events: sess.events.push(e), updated_at: now, ..sess };
            (put_session(s, session_id, sess2), Ok(e))
        }
    }
}

/// The events recorded for a session.
pub open spec fn get_events(s: StoreView, session_id: Seq<char>) -> Result<
    Seq<EventView>,
    Seq<char>,
> {
    if !s.sessions.contains_key(session_id) {
        Err(session_not_found(session_id))
    } else {
        Ok(s.sessions[session_id].events)
    }
}

/// A permission request as it is recorded: pending, with no reason and no
/// decision time.
pub open spec fn new_permission(
    id: Seq<char>,
    permission_type: PermissionType,
    path: Option<Seq<char>>,
    command: Option<Seq<char>>,
) -> PermissionView {
    PermissionView {
        id,
        permission_type,
        path,
        command,
        decision: PermissionDecision::Pending,
        reason: None,
        decided_at: None,
    }
}

/// Recording a permission request in a session.
pub open spec fn add_permission_request(
    s: StoreView,
    session_id: Seq<char>,
    permission_type: PermissionType,
    path: Option<Seq<char>>,
    command: Option<Seq<char>>,
    id: Seq<char>,
    now: Timestamp,
) -> (StoreView, Result<PermissionView, Seq<char>>) {
    if !s.sessions.contains_key(session_id) {
        (s, Err(session_not_found(session_id)))
    } else {
        let sess = s.sessions[session_id];
        let p = new_permission(id, permission_type, path, command);
        let sess2 = SessionView {
            permissions: sess.permissions.push(p),
            updated_at: now,
            ..sess
        };
        (put_session(s, session_id, sess2), Ok(p))
    }
}

/// Deciding the first permission of a session with the given id.
pub open spec fn decide_permission(
    s: StoreView,
    session_id: Seq<char>,
    permission_id: Seq<char>,
    decision: PermissionDecision,
    reason: Option<Seq<char>>,
    now: Timestamp,
) -> (StoreView, Result<PermissionView, Seq<char>>) {
    if !s.sessions.contains_key(session_id) {
        (s, Err(session_not_found(session_id)))
    } else {
        let sess = s.sessions[session_id];
        match find_permission(sess.permissions, permission_id) {
            None => (s, Err(permission_not_found(permission_id))),
            Some(i) => {
                let p = PermissionView {
                    decision,
                    reason,
                    decided_at: Some(now),
                    ..sess.permissions[i]
                };
                let sess2 = SessionView {
                    permissions: sess.permissions.update(i, p),
                    updated_at: now,
                    ..sess
                };
                (put_session(s, session_id, sess2), Ok(p))
            },
        }
    }
}

/// The request is a file write to a path outside the workspace of the
/// session it is made in.
pub open spec fn writes_outside_workspace(
    s: StoreView,
    session_id: Seq<char>,
    permission_type: PermissionType,
    path: Option<Seq<char>>,
) -> bool {
    &&& permission_type == PermissionType::FileWrite
    &&& path is Some
    &&& s.sessions.contains_key(session_id)
    &&& outside_workspace(path->0, s.sessions[session_id].workspace)
}

/// The decision that the governance policy grants: a file write outside the
/// session's workspace is denied whatever was asked, every other request gets
/// the decision asked for.
pub open spec fn granted_decision(
    s: StoreView,
    session_id: Seq<char>,
    permission_type: PermissionType,
    path: Option<Seq<char>>,
    asked: PermissionDecision,
) -> PermissionDecision {
    if writes_outside_workspace(s, session_id, permission_type, path) {
        PermissionDecision::Denied
    } else {
        asked
    }
}

/// A permission request recorded and decided at once: the request is
/// recorded under `id` at `recorded`, then the first permission of the session
/// with that id is decided at `decided`, with the decision the governance
/// policy grants.
pub open spec fn request_permission(
    s: StoreView,
    session_id: Seq<char>,
    permission_type: PermissionType,
    path: Option<Seq<char>>,
    command: Option<Seq<char>>,
    decision: PermissionDecision,
    reason: Option<Seq<char>>,
    id: Seq<char>,
    recorded: Timestamp,
    decided: Timestamp,
) -> (StoreView, Result<PermissionView, Seq<char>>) {
    let (s1, r1) = add_permission_request(
        s,
        session_id,
        permission_type,
        path,
        command,
        id,
        recorded,
    );
    match r1 {
        Err(e) => (s1, Err(e)),
        Ok(p) => decide_permission(
            s1,
            session_id,
            p.id,
            granted_decision(s, session_id, permission_type, path, decision),
            reason,
            decided,
        ),
    }
}

/// A patch as it is proposed.
pub open spec fn new_patch(
    id: Seq<char>,
    session_id: Seq<char>,
    files: Seq<FileChangeView>,
    now: Timestamp,
) -> PatchView {
    PatchView {
        id,
        session_id,
        files,
        status: PatchStatus::Proposed,
        review_notes: None,
        created_at: now,
    }
}

/// Proposing a patch in a session.
pub open spec fn add_patch(
    s: StoreView,
    session_id: Seq<char>,
    files: Seq<FileChangeView>,
    id: Seq<char>,
    now: Timestamp,
) -> (StoreView, Result<PatchView, Seq<char>>) {
    if !s.sessions.contains_key(session_id) {
        (s, Err(session_not_found(session_id)))
    } else {
        let sess = s.sessions[session_id];
        let p = new_patch(id, session_id, files, now);
        let sess2 = SessionView { patches: sess.patches.push(p), updated_at: now, ..sess };
        (put_session(s, session_id, sess2), Ok(p))
    }
}

/// The patches proposed in a session.
pub open spec fn get_patches(s: StoreView, session_id: Seq<char>) -> Result<
    Seq<PatchView>,
    Seq<char>,
> {
    if !s.sessions.contains_key(session_id) {
        Err(session_not_found(session_id))
    } else {
        Ok(s.sessions[session_id].patches)
    }
}

/// Reviewing the first patch of a session with the given id.
pub open spec fn review_patch(
    s: StoreView,
    session_id: Seq<char>,
    patch_id: Seq<char>,
    status: PatchStatus,
    notes: Option<Seq<char>>,
    now: Timestamp,
) -> (StoreView, Result<PatchView, Seq<char>>) {
    if !s.sessions.contains_key(session_id) {
        (s, Err(session_not_found(session_id)))
    } else {
        let sess = s.sessions[session_id];
        match find_patch(sess.patches, patch_id) {
            None => (s, Err(patch_not_found(patch_id))),
            Some(i) => {
                let p = PatchView { status, review_notes: notes, ..sess.patches[i] };
                let sess2 = SessionView {
                    patches: sess.patches.update(i, p),
                    updated_at: now,
                    ..sess
                };
                (put_session(s, session_id, sess2), Ok(p))
            },
        }
    }
}

/// The event that records the cancellation of a session.
pub open spec fn cancel_event(id: Seq<char>, session_id: Seq<char>, now: Timestamp) -> EventView {
    EventView {
        id,
        event_type: "session/cancel"@,
        payload: PayloadView::Cancel { session_id },
        timestamp: now,
    }
}

/// Terminating a session: it is cancelled and the cancellation is recorded.
pub open spec fn terminate_session(
    s: StoreView,
    session_id: Seq<char>,
    id: Seq<char>,
    now: Timestamp,
) -> (StoreView, Result<SessionView, Seq<char>>) {
    if !s.sessions.contains_key(session_id) {
        (s, Err(session_not_found(session_id)))
    } else {
        let sess = s.sessions[session_id];
        let sess2 = SessionView {
            status: SessionStatus::Cancelled,
            events: sess.events.push(cancel_event(id, session_id, now)),
            updated_at: now,
            ..sess
        };
        (put_session(s, session_id, sess2), Ok(sess2))
    }
}

/// An agent as it is published.
pub open spec fn new_exposed_agent(
    id: Seq<char>,
    now: Timestamp,
    agent_name: Seq<char>,
    acp_server_name: Seq<char>,
    transport: AcpTransport,
    bind_addr: Option<Seq<char>>,
) -> ExposedAgentView {
    ExposedAgentView {
        id,
        agent_name,
        acp_server_name,
        transport,
        bind_addr,
        protocol_version: protocol_version(),
        status: ConnectionStatus::Connected,
        created_at: now,
    }
}

/// Publishing an agent appends it to the exposed agents.
pub open spec fn expose_agent(s: StoreView, a: ExposedAgentView) -> StoreView {
    StoreView { exposed_agents: s.exposed_agents.push(a), ..s }
}

/// One operation on the store, with the id it draws and the time it reads.
pub enum StoreOp {
    RegisterConnection { c: ConnectionView },
    CreateSession {
        connection_id: Seq<char>,
        workspace: Seq<char>,
        id: Seq<char>,
        now: Timestamp,
    },
    SendPrompt { session_id: Seq<char>, prompt: Seq<char>, id: Seq<char>, now: Timestamp },
    AddPermissionRequest {
        session_id: Seq<char>,
        permission_type: PermissionType,
        path: Option<Seq<char>>,
        command: Option<Seq<char>>,
        id: Seq<char>,
        now: Timestamp,
    },
    DecidePermission {
        session_id: Seq<char>,
        permission_id: Seq<char>,
        decision: PermissionDecision,
        reason: Option<Seq<char>>,
        now: Timestamp,
    },
    AddPatch { session_id: Seq<char>, files: Seq<FileChangeView>, id: Seq<char>, now: Timestamp },
    ReviewPatch {
        session_id: Seq<char>,
        patch_id: Seq<char>,
        status: PatchStatus,
        notes: Option<Seq<char>>,
        now: Timestamp,
    },
    TerminateSession { session_id: Seq<char>, id: Seq<char>, now: Timestamp },
    ExposeAgent { a: ExposedAgentView },
}

/// The store after one operation.
pub open spec fn apply(s: StoreView, op: StoreOp) -> StoreView {
    match op {
        StoreOp::RegisterConnection { c } => register_connection(s, c),
        StoreOp::CreateSession { connection_id, workspace, id, now } => create_session(
            s,
            connection_id,
            workspace,
            id,
            now,
        ).0,
        StoreOp::SendPrompt { session_id, prompt, id, now } => send_prompt(
            s,
            session_id,
            prompt,
            id,
            now,
        ).0,
        StoreOp::AddPermissionRequest { session_id, permission_type, path, command, id, now } =>
        add_permission_request(s, session_id, permission_type, path, command, id, now).0,
        StoreOp::DecidePermission { session_id, permission_id, decision, reason, now } =>
        decide_permission(s, session_id, permission_id, decision, reason, now).0,
        StoreOp::AddPatch { session_id, files, id, now } => add_patch(
            s,
            session_id,
            files,
            id,
            now,
        ).0,
        StoreOp::ReviewPatch { session_id, patch_id, status, notes, now } => review_patch(
            s,
            session_id,
            patch_id,
            status,
            notes,
            now,
        ).0,
        StoreOp::TerminateSession { session_id, id, now } => terminate_session(
            s,
            session_id,
            id,
            now,
        ).0,
        StoreOp::ExposeAgent { a } => expose_agent(s, a),
    }
}

/// The id that the operation draws is new where it has to be: no session
/// has the id of a session being opened, and no patch of the session has the
/// id of a patch being proposed.
pub open spec fn draws_fresh_id(s: StoreView, op: StoreOp) -> bool {
    match op {
        StoreOp::CreateSession { id, .. } => !s.sessions.contains_key(id),
        StoreOp::AddPatch { session_id, id, .. } => s.sessions.contains_key(session_id) ==> forall|
            j: int,
        |
            0 <= j < s.sessions[session_id].patches.len() ==> #[trigger] s.sessions[session_id].patches[j].id
                != id,
        _ => true,
    }
}

/// The store after a sequence of operations.
pub open spec fn run(s: StoreView, ops: Seq<StoreOp>) -> StoreView
    decreases ops.len(),
{
    if ops.len() == 0 {
        s
    } else {
        run(apply(s, ops[0]), ops.drop_first())
    }
}

/// Every operation of the sequence draws a fresh id where it has to.
pub open spec fn draws_fresh_ids(s: StoreView, ops: Seq<StoreOp>) -> bool
    decreases ops.len(),
{
    ops.len() == 0 || (draws_fresh_id(s, ops[0]) && draws_fresh_ids(
        apply(s, ops[0]),
        ops.drop_first(),
    ))
}

/// The store that `AcpStore::new` gives.
pub open spec fn empty_store() -> StoreView {
    StoreView { connections: Map::empty(), sessions: Map::empty(), exposed_agents: Seq::empty() }
}

} // verus!
