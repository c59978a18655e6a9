//! What holds of the store across its operations.
use crate::model::{
    lists_connections,
    apply, draws_fresh_id, draws_fresh_ids, empty_store, ids_match, run, StoreOp,
    granted_decision, writes_outside_workspace,
    connection_not_found, get_events, get_patches, lemma_find_patch_some,
    lemma_find_permission_some, patch_not_found, permission_not_found, request_permission,
    session_not_active, session_not_found,
    add_patch, add_permission_request, cancel_event, create_session, decide_permission,
    expose_agent, find_patch, find_permission, new_patch, new_permission, new_session,
    prompt_event, put_session, register_connection, review_patch, send_prompt,
    terminate_session, StoreView,
};
use crate::model::{new_connection, new_exposed_agent, protocol_version};
use crate::paths::{
    escapes, has_dotdot_segment, lemma_leading_separator_keeps_segments,
    lemma_no_dotdot_never_climbs, outside_workspace,
};
use crate::server::{patch_listing, patch_status_of, permission_decision_of};
use crate::text::line_count;
use crate::types::{
    default_capabilities, AcpCapabilities, AcpTransport, ConnectionStatus, ConnectionType,
    PatchView, PermissionView,
    ConnectionView, EventView, ExposedAgentView, FileChangeView, PatchStatus, PayloadView,
    PermissionDecision, PermissionType, SessionStatus, SessionView, Timestamp,
};
use vstd::prelude::*;

verus! {

/// `new` keeps everything `old` recorded: no connection or session is lost,
/// a session's events only grow at the end, its permissions and patches keep
/// their places and ids (and a patch its files), and the exposed agents only
/// grow at the end.
pub open spec fn keeps_record(old: StoreView, new: StoreView) -> bool {
    &&& forall|k: Seq<char>| #[trigger]
        old.connections.contains_key(k) ==> new.connections.contains_key(k)
    &&& forall|k: Seq<char>| #[trigger]
        old.sessions.contains_key(k) ==> {
            let a = old.sessions[k];
            let b = new.sessions[k];
            &&& new.sessions.contains_key(k)
            &&& a.events.len() <= b.events.len()
            &&& b.events.subrange(0, a.events.len() as int) == a.events
            &&& a.permissions.len() <= b.permissions.len()
            &&& forall|i: int|
                0 <= i < a.permissions.len() ==> #[trigger] b.permissions[i].id
                    == a.permissions[i].id
            &&& a.patches.len() <= b.patches.len()
            &&& forall|i: int|
                0 <= i < a.patches.len() ==> #[trigger] b.patches[i].id == a.patches[i].id
                    && b.patches[i].files == a.patches[i].files
        }
    &&& old.exposed_agents.len() <= new.exposed_agents.len()
    &&& new.exposed_agents.subrange(0, old.exposed_agents.len() as int) == old.exposed_agents
}

/// Storing a session that extends the one stored under its id keeps the record.
proof fn lemma_put_extending_session(s: StoreView, id: Seq<char>, sess: SessionView)
    requires
        s.sessions.contains_key(id) ==> {
            let a = s.sessions[id];
            &&& a.events.len() <= sess.events.len()
            &&& sess.events.subrange(0, a.events.len() as int) == a.events
            &&& a.permissions.len() <= sess.permissions.len()
            &&& forall|i: int|
                0 <= i < a.permissions.len() ==> #[trigger] sess.permissions[i].id
                    == a.permissions[i].id
            &&& a.patches.len() <= sess.patches.len()
            &&& forall|i: int|
                0 <= i < a.patches.len() ==> #[trigger] sess.patches[i].id == a.patches[i].id
                    && sess.patches[i].files == a.patches[i].files
        },
    ensures
        keeps_record(s, put_session(s, id, sess)),
{
    let t = put_session(s, id, sess);
    assert(t.exposed_agents.subrange(0, s.exposed_agents.len() as int) =~= s.exposed_agents);
    assert forall|k: Seq<char>| #[trigger] s.sessions.contains_key(k) implies {
        let a = s.sessions[k];
        let b = t.sessions[k];
        &&& t.sessions.contains_key(k)
        &&& a.events.len() <= b.events.len()
        &&& b.events.subrange(0, a.events.len() as int) == a.events
        &&& a.permissions.len() <= b.permissions.len()
        &&& forall|i: int|
            0 <= i < a.permissions.len() ==> #[trigger] b.permissions[i].id == a.permissions[i].id
        &&& a.patches.len() <= b.patches.len()
        &&& forall|i: int|
            0 <= i < a.patches.len() ==> #[trigger] b.patches[i].id == a.patches[i].id
                && b.patches[i].files == a.patches[i].files
    } by {
        let a = s.sessions[k];
        if k != id {
            assert(a.events.subrange(0, a.events.len() as int) =~= a.events);
        }
    }
}

/// A store keeps its own record.
proof fn lemma_keeps_itself(s: StoreView)
    ensures
        keeps_record(s, s),
{
    assert(s.exposed_agents.subrange(0, s.exposed_agents.len() as int) =~= s.exposed_agents);
    assert forall|k: Seq<char>| #[trigger] s.sessions.contains_key(k) implies s.sessions[k].events.subrange(
        0,
        s.sessions[k].events.len() as int,
    ) == s.sessions[k].events by {
        assert(s.sessions[k].events.subrange(0, s.sessions[k].events.len() as int)
            =~= s.sessions[k].events);
    }
}

/// Every operation keeps what the store recorded before it: the audit trail
/// of connections, sessions, events, permissions, patches and exposed agents
/// is never rewritten, only extended or annotated. Opening a session keeps it
/// only under an id that no session has yet: the store, like a map, replaces
/// a session stored under the same id.
pub proof fn law_operations_keep_the_record(
    s: StoreView,
    session_id: Seq<char>,
    connection_id: Seq<char>,
    workspace: Seq<char>,
    prompt: Seq<char>,
    permission_type: PermissionType,
    path: Option<Seq<char>>,
    command: Option<Seq<char>>,
    permission_id: Seq<char>,
    decision: PermissionDecision,
    reason: Option<Seq<char>>,
    files: Seq<FileChangeView>,
    patch_id: Seq<char>,
    status: PatchStatus,
    notes: Option<Seq<char>>,
    c: ConnectionView,
    a: ExposedAgentView,
    id: Seq<char>,
    now: Timestamp,
)
    ensures
        keeps_record(s, register_connection(s, c)),
        !s.sessions.contains_key(id) ==> keeps_record(
            s,
            create_session(s, connection_id, workspace, id, now).0,
        ),
        keeps_record(s, send_prompt(s, session_id, prompt, id, now).0),
        keeps_record(
            s,
            add_permission_request(s, session_id, permission_type, path, command, id, now).0,
        ),
        keeps_record(s, decide_permission(s, session_id, permission_id, decision, reason, now).0),
        keeps_record(s, add_patch(s, session_id, files, id, now).0),
        keeps_record(s, review_patch(s, session_id, patch_id, status, notes, now).0),
        keeps_record(s, terminate_session(s, session_id, id, now).0),
        keeps_record(s, expose_agent(s, a)),
{
    // Doing nothing keeps the record.
    lemma_keeps_itself(s);
    let r = register_connection(s, c);
    assert(r.exposed_agents.subrange(0, s.exposed_agents.len() as int) =~= s.exposed_agents);
    assert(keeps_record(s, r));
    if s.connections.contains_key(connection_id) {
        let sess = new_session(id, connection_id, workspace, now);
        if !s.sessions.contains_key(id) {
            lemma_put_extending_session(s, id, sess);
        }
    }
    if s.sessions.contains_key(session_id) {
        let sess = s.sessions[session_id];
        assert(sess.events.push(prompt_event(id, prompt, now)).subrange(
            0,
            sess.events.len() as int,
        ) =~= sess.events);
        assert(sess.events.push(cancel_event(id, session_id, now)).subrange(
            0,
            sess.events.len() as int,
        ) =~= sess.events);
        assert(sess.events.subrange(0, sess.events.len() as int) =~= sess.events);
        if sess.status == SessionStatus::Active {
            lemma_put_extending_session(
                s,
                session_id,
                SessionView {
                    events: sess.events.push(prompt_event(id, prompt, now)),
                    updated_at: now,
                    ..sess
                },
            );
        }
        lemma_put_extending_session(
            s,
            session_id,
            SessionView {
                permissions: sess.permissions.push(
                    new_permission(id, permission_type, path, command),
                ),
                updated_at: now,
                ..sess
            },
        );
        if let Some(i) = find_permission(sess.permissions, permission_id) {
            let p = PermissionView {
                decision,
                reason,
                decided_at: Some(now),
                ..sess.permissions[i]
            };
            lemma_put_extending_session(
                s,
                session_id,
                SessionView {
                    permissions: sess.permissions.update(i, p),
                    updated_at: now,
                    ..sess
                },
            );
        }
        lemma_put_extending_session(
            s,
            session_id,
            SessionView {
                patches: sess.patches.push(new_patch(id, session_id, files, now)),
                updated_at: now,
                ..sess
            },
        );
        if let Some(i) = find_patch(sess.patches, patch_id) {
            let p = PatchView { status, review_notes: notes, ..sess.patches[i] };
            lemma_put_extending_session(
                s,
                session_id,
                SessionView { patches: sess.patches.update(i, p), updated_at: now, ..sess },
            );
        }
        lemma_put_extending_session(
            s,
            session_id,
            SessionView {
                status: SessionStatus::Cancelled,
                events: sess.events.push(cancel_event(id, session_id, now)),
                updated_at: now,
                ..sess
            },
        );
    }
    let e = expose_agent(s, a);
    assert(e.exposed_agents.subrange(0, s.exposed_agents.len() as int) =~= s.exposed_agents);
}


/// A request is refused exactly when what it names is missing (or, for a
/// prompt, when the session is no longer active); a refused request is
/// answered by its message and changes nothing.
pub proof fn law_refusals(
    s: StoreView,
    session_id: Seq<char>,
    connection_id: Seq<char>,
    workspace: Seq<char>,
    prompt: Seq<char>,
    permission_type: PermissionType,
    path: Option<Seq<char>>,
    command: Option<Seq<char>>,
    permission_id: Seq<char>,
    decision: PermissionDecision,
    reason: Option<Seq<char>>,
    files: Seq<FileChangeView>,
    patch_id: Seq<char>,
    status: PatchStatus,
    notes: Option<Seq<char>>,
    id: Seq<char>,
    now: Timestamp,
)
    ensures
        !s.connections.contains_key(connection_id) <==> create_session(
            s,
            connection_id,
            workspace,
            id,
            now,
        ) == (s, Err::<SessionView, Seq<char>>(connection_not_found(connection_id))),
        !s.sessions.contains_key(session_id) ==> {
            &&& send_prompt(s, session_id, prompt, id, now) == (s, Err::<EventView, Seq<char>>(
                session_not_found(session_id),
            ))
            &&& get_events(s, session_id) == Err::<Seq<EventView>, Seq<char>>(
                session_not_found(session_id),
            )
            &&& add_permission_request(s, session_id, permission_type, path, command, id, now)
                == (s, Err::<PermissionView, Seq<char>>(session_not_found(session_id)))
            &&& decide_permission(s, session_id, permission_id, decision, reason, now) == (
                s,
                Err::<PermissionView, Seq<char>>(session_not_found(session_id)),
            )
            &&& add_patch(s, session_id, files, id, now) == (s, Err::<PatchView, Seq<char>>(
                session_not_found(session_id),
            ))
            &&& get_patches(s, session_id) == Err::<Seq<PatchView>, Seq<char>>(
                session_not_found(session_id),
            )
            &&& review_patch(s, session_id, patch_id, status, notes, now) == (
                s,
                Err::<PatchView, Seq<char>>(session_not_found(session_id)),
            )
            &&& terminate_session(s, session_id, id, now) == (s, Err::<SessionView, Seq<char>>(
                session_not_found(session_id),
            ))
        },
        s.sessions.contains_key(session_id) ==> {
            let sess = s.sessions[session_id];
            &&& (send_prompt(s, session_id, prompt, id, now).1 is Err <==> sess.status
                != SessionStatus::Active)
            &&& (sess.status != SessionStatus::Active ==> send_prompt(
                s,
                session_id,
                prompt,
                id,
                now,
            ) == (s, Err::<EventView, Seq<char>>(session_not_active(sess.status))))
            &&& get_events(s, session_id) is Ok
            &&& add_permission_request(s, session_id, permission_type, path, command, id, now).1 is Ok
            &&& add_patch(s, session_id, files, id, now).1 is Ok
            &&& get_patches(s, session_id) is Ok
            &&& terminate_session(s, session_id, id, now).1 is Ok
            &&& ((forall|j: int|
                0 <= j < sess.permissions.len() ==> #[trigger] sess.permissions[j].id
                    != permission_id) <==> decide_permission(
                s,
                session_id,
                permission_id,
                decision,
                reason,
                now,
            ) == (s, Err::<PermissionView, Seq<char>>(permission_not_found(permission_id))))
            &&& ((forall|j: int|
                0 <= j < sess.patches.len() ==> #[trigger] sess.patches[j].id != patch_id)
                <==> review_patch(s, session_id, patch_id, status, notes, now) == (
                s,
                Err::<PatchView, Seq<char>>(patch_not_found(patch_id)),
            ))
        },
{
    if s.sessions.contains_key(session_id) {
        let sess = s.sessions[session_id];
        if exists|j: int| 0 <= j < sess.permissions.len() && #[trigger] sess.permissions[j].id
            == permission_id {
            let j = choose|j: int|
                0 <= j < sess.permissions.len() && #[trigger] sess.permissions[j].id
                    == permission_id;
            lemma_find_permission_some(sess.permissions, permission_id, j);
        }
        if exists|j: int| 0 <= j < sess.patches.len() && #[trigger] sess.patches[j].id
            == patch_id {
            let j = choose|j: int|
                0 <= j < sess.patches.len() && #[trigger] sess.patches[j].id == patch_id;
            lemma_find_patch_some(sess.patches, patch_id, j);
        }
    }
}

/// A session opened on a registered connection can be read back at once:
/// it is active, and its events and patches are empty.
pub proof fn law_created_session_is_readable(
    s: StoreView,
    connection_id: Seq<char>,
    workspace: Seq<char>,
    id: Seq<char>,
    now: Timestamp,
)
    requires
        s.connections.contains_key(connection_id),
    ensures
        ({
            let (t, r) = create_session(s, connection_id, workspace, id, now);
            &&& r == Ok::<SessionView, Seq<char>>(t.sessions[id])
            &&& t.sessions[id].status == SessionStatus::Active
            &&& t.sessions[id].connection_id == connection_id
            &&& t.sessions[id].workspace == workspace
            &&& get_events(t, id) == Ok::<Seq<EventView>, Seq<char>>(Seq::empty())
            &&& get_patches(t, id) == Ok::<Seq<PatchView>, Seq<char>>(Seq::empty())
        }),
{
}

/// A connection that was just registered accepts a session.
pub proof fn law_registered_connection_accepts_sessions(
    s: StoreView,
    c: ConnectionView,
    workspace: Seq<char>,
    id: Seq<char>,
    now: Timestamp,
)
    ensures
        register_connection(s, c).connections[c.id] == c,
        create_session(register_connection(s, c), c.id, workspace, id, now).1 is Ok,
{
}

/// A prompt sent on an active session is answered by its event, and reading
/// the session's events afterwards gives the earlier events followed by it.
pub proof fn law_prompt_is_recorded(
    s: StoreView,
    session_id: Seq<char>,
    prompt: Seq<char>,
    id: Seq<char>,
    now: Timestamp,
)
    requires
        s.sessions.contains_key(session_id),
        s.sessions[session_id].status == SessionStatus::Active,
    ensures
        ({
            let (t, r) = send_prompt(s, session_id, prompt, id, now);
            let e = EventView {
                id,
                event_type: "session/prompt"@,
                payload: PayloadView::Prompt { text: prompt },
                timestamp: now,
            };
            &&& r == Ok::<EventView, Seq<char>>(e)
            &&& get_events(t, session_id) == Ok::<Seq<EventView>, Seq<char>>(
                s.sessions[session_id].events.push(e),
            )
            &&& t.sessions[session_id].status == SessionStatus::Active
        }),
{
}

/// After a session is terminated it is cancelled, its permissions and patches
/// are kept, the cancellation is its last event, and every later prompt on it
/// is refused with "Session not active: Cancelled" and changes nothing.
pub proof fn law_terminated_session_refuses_prompts(
    s: StoreView,
    session_id: Seq<char>,
    id: Seq<char>,
    now: Timestamp,
    prompt: Seq<char>,
    later_id: Seq<char>,
    later: Timestamp,
)
    requires
        s.sessions.contains_key(session_id),
    ensures
        ({
            let (t, r) = terminate_session(s, session_id, id, now);
            let old_sess = s.sessions[session_id];
            &&& r == Ok::<SessionView, Seq<char>>(t.sessions[session_id])
            &&& t.sessions[session_id].status == SessionStatus::Cancelled
            &&& t.sessions[session_id].permissions == old_sess.permissions
            &&& t.sessions[session_id].patches == old_sess.patches
            &&& t.sessions[session_id].events == old_sess.events.push(
                EventView {
                    id,
                    event_type: "session/cancel"@,
                    payload: PayloadView::Cancel { session_id },
                    timestamp: now,
                },
            )
            &&& send_prompt(t, session_id, prompt, later_id, later) == (t, Err::<
                EventView,
                Seq<char>,
            >("Session not active: "@ + "Cancelled"@))
        }),
{
}

/// Deciding a permission sets the decision, the reason and the time of the
/// first permission with the id, and leaves every other permission, the
/// events, the patches and the status of the session as they were.
pub proof fn law_decision_touches_only_its_permission(
    s: StoreView,
    session_id: Seq<char>,
    permission_id: Seq<char>,
    decision: PermissionDecision,
    reason: Option<Seq<char>>,
    now: Timestamp,
    i: int,
)
    requires
        s.sessions.contains_key(session_id),
        find_permission(s.sessions[session_id].permissions, permission_id) == Some(i),
    ensures
        ({
            let (t, r) = decide_permission(s, session_id, permission_id, decision, reason, now);
            let a = s.sessions[session_id];
            let b = t.sessions[session_id];
            &&& r is Ok
            &&& b.permissions.len() == a.permissions.len()
            &&& b.permissions[i] == r->Ok_0
            &&& b.permissions[i].id == permission_id
            &&& b.permissions[i].decision == decision
            &&& b.permissions[i].reason == reason
            &&& b.permissions[i].decided_at == Some(now)
            &&& b.permissions[i].permission_type == a.permissions[i].permission_type
            &&& b.permissions[i].path == a.permissions[i].path
            &&& b.permissions[i].command == a.permissions[i].command
            &&& forall|j: int|
                0 <= j < a.permissions.len() && j != i ==> #[trigger] b.permissions[j]
                    == a.permissions[j]
            &&& b.events == a.events
            &&& b.patches == a.patches
            &&& b.status == a.status
        }),
{
    let ps = s.sessions[session_id].permissions;
    lemma_found_permission_holds_id(ps, permission_id, i);
}

/// Reviewing a patch sets the status and the notes of the first patch with
/// the id; its files, every other patch, the events, the permissions and the
/// status of the session stay as they were.
pub proof fn law_review_touches_only_its_patch(
    s: StoreView,
    session_id: Seq<char>,
    patch_id: Seq<char>,
    status: PatchStatus,
    notes: Option<Seq<char>>,
    now: Timestamp,
    i: int,
)
    requires
        s.sessions.contains_key(session_id),
        find_patch(s.sessions[session_id].patches, patch_id) == Some(i),
    ensures
        ({
            let (t, r) = review_patch(s, session_id, patch_id, status, notes, now);
            let a = s.sessions[session_id];
            let b = t.sessions[session_id];
            &&& r is Ok
            &&& b.patches.len() == a.patches.len()
            &&& b.patches[i] == r->Ok_0
            &&& b.patches[i].id == patch_id
            &&& b.patches[i].status == status
            &&& b.patches[i].review_notes == notes
            &&& b.patches[i].files == a.patches[i].files
            &&& b.patches[i].session_id == a.patches[i].session_id
            &&& forall|j: int|
                0 <= j < a.patches.len() && j != i ==> #[trigger] b.patches[j] == a.patches[j]
            &&& b.events == a.events
            &&& b.permissions == a.permissions
            &&& b.status == a.status
        }),
{
    let ps = s.sessions[session_id].patches;
    lemma_found_patch_holds_id(ps, patch_id, i);
}

/// A proposed patch is listed after the earlier ones, as proposed and not
/// yet reviewed.
pub proof fn law_proposed_patch_is_listed(
    s: StoreView,
    session_id: Seq<char>,
    files: Seq<FileChangeView>,
    id: Seq<char>,
    now: Timestamp,
)
    requires
        s.sessions.contains_key(session_id),
    ensures
        ({
            let (t, r) = add_patch(s, session_id, files, id, now);
            let p = PatchView {
                id,
                session_id,
                files,
                status: PatchStatus::Proposed,
                review_notes: None,
                created_at: now,
            };
            &&& r == Ok::<PatchView, Seq<char>>(p)
            &&& get_patches(t, session_id) == Ok::<Seq<PatchView>, Seq<char>>(
                s.sessions[session_id].patches.push(p),
            )
        }),
{
}

/// A permission request handled at once is recorded pending and then
/// decided: it succeeds exactly when the session exists, it never answers
/// that the permission is missing, and the answer carries the decision that
/// the governance policy grants and the reason given.
pub proof fn law_requested_permission_is_decided(
    s: StoreView,
    session_id: Seq<char>,
    permission_type: PermissionType,
    path: Option<Seq<char>>,
    command: Option<Seq<char>>,
    decision: PermissionDecision,
    reason: Option<Seq<char>>,
    id: Seq<char>,
    recorded: Timestamp,
    decided: Timestamp,
)
    ensures
        ({
            let (t, r) = request_permission(
                s,
                session_id,
                permission_type,
                path,
                command,
                decision,
                reason,
                id,
                recorded,
                decided,
            );
            &&& r is Ok <==> s.sessions.contains_key(session_id)
            &&& r is Err ==> t == s && r == Err::<PermissionView, Seq<char>>(
                session_not_found(session_id),
            )
            &&& r is Ok ==> {
                &&& r->Ok_0.id == id
                &&& r->Ok_0.decision == granted_decision(
                    s,
                    session_id,
                    permission_type,
                    path,
                    decision,
                )
                &&& r->Ok_0.reason == reason
                &&& r->Ok_0.decided_at == Some(decided)
                &&& t.sessions[session_id].permissions.len() == s.sessions[session_id].permissions.len()
                    + 1
            }
        }),
{
    if s.sessions.contains_key(session_id) {
        let p = new_permission(id, permission_type, path, command);
        let ps = s.sessions[session_id].permissions.push(p);
        lemma_find_permission_some(ps, id, ps.len() - 1);
        let i = find_permission(ps, id)->0;
        lemma_found_permission_holds_id(ps, id, i);
    }
}

/// The workspace trust boundary: a file write to a path outside the
/// session's workspace is recorded and answered as denied, whatever decision
/// was asked for, and the session keeps the permission as answered.
pub proof fn law_writes_outside_workspace_are_denied(
    s: StoreView,
    session_id: Seq<char>,
    path: Seq<char>,
    command: Option<Seq<char>>,
    decision: PermissionDecision,
    reason: Option<Seq<char>>,
    id: Seq<char>,
    recorded: Timestamp,
    decided: Timestamp,
)
    requires
        s.sessions.contains_key(session_id),
        outside_workspace(path, s.sessions[session_id].workspace),
    ensures
        ({
            let (t, r) = request_permission(
                s,
                session_id,
                PermissionType::FileWrite,
                Some(path),
                command,
                decision,
                reason,
                id,
                recorded,
                decided,
            );
            let ps = t.sessions[session_id].permissions;
            &&& r is Ok
            &&& r->Ok_0.decision == PermissionDecision::Denied
            &&& exists|i: int| 0 <= i < ps.len() && ps[i] == r->Ok_0
        }),
{
    law_requested_permission_is_decided(
        s,
        session_id,
        PermissionType::FileWrite,
        Some(path),
        command,
        decision,
        reason,
        id,
        recorded,
        decided,
    );
    assert(writes_outside_workspace(s, session_id, PermissionType::FileWrite, Some(path)));
    let p = new_permission(id, PermissionType::FileWrite, Some(path), command);
    let ps = s.sessions[session_id].permissions.push(p);
    lemma_find_permission_some(ps, id, ps.len() - 1);
    let i = find_permission(ps, id)->0;
    lemma_found_permission_holds_id(ps, id, i);
    let (t, r) = request_permission(
        s,
        session_id,
        PermissionType::FileWrite,
        Some(path),
        command,
        decision,
        reason,
        id,
        recorded,
        decided,
    );
    assert(t.sessions[session_id].permissions[i] == r->Ok_0);
}

/// A published agent is listed last among the exposed agents, after the
/// ones published before it.
pub proof fn law_exposed_agent_is_listed_last(s: StoreView, a: ExposedAgentView)
    ensures
        expose_agent(s, a).exposed_agents == s.exposed_agents.push(a),
        expose_agent(s, a).connections == s.connections,
        expose_agent(s, a).sessions == s.sessions,
{
}

/// `find_patch` gives a position that holds the id.
proof fn lemma_found_patch_holds_id(ps: Seq<PatchView>, id: Seq<char>, i: int)
    requires
        find_patch(ps, id) == Some(i),
    ensures
        0 <= i < ps.len(),
        ps[i].id == id,
{
}

/// `find_permission` gives a position that holds the id.
proof fn lemma_found_permission_holds_id(
    ps: Seq<crate::types::PermissionView>,
    id: Seq<char>,
    i: int,
)
    requires
        find_permission(ps, id) == Some(i),
    ensures
        0 <= i < ps.len(),
        ps[i].id == id,
{
}

/// Every operation keeps each connection and each session under its own id.
pub proof fn law_ids_stay_matched(s: StoreView, op: StoreOp)
    requires
        ids_match(s),
    ensures
        ids_match(apply(s, op)),
{
}

/// Terminating a session answers with that very session.
pub proof fn law_termination_answers_the_session(
    s: StoreView,
    session_id: Seq<char>,
    id: Seq<char>,
    now: Timestamp,
)
    requires
        ids_match(s),
        s.sessions.contains_key(session_id),
    ensures
        terminate_session(s, session_id, id, now).1 is Ok,
        terminate_session(s, session_id, id, now).1->Ok_0.id == session_id,
{
}

/// One operation leaves a cancelled session cancelled.
proof fn lemma_cancelled_step(s: StoreView, session_id: Seq<char>, op: StoreOp)
    requires
        s.sessions.contains_key(session_id),
        s.sessions[session_id].status == SessionStatus::Cancelled,
        draws_fresh_id(s, op),
    ensures
        apply(s, op).sessions.contains_key(session_id),
        apply(s, op).sessions[session_id].status == SessionStatus::Cancelled,
{
}

/// A cancelled session is never reactivated: after any sequence of
/// operations (whose drawn ids are fresh) it is still there, still
/// cancelled, and every prompt on it is refused with "Session not active:
/// Cancelled" and changes nothing. Opening a session under an id already in
/// use would replace it, which is why the ids must be fresh.
pub proof fn law_cancelled_session_stays_cancelled(
    s: StoreView,
    session_id: Seq<char>,
    ops: Seq<StoreOp>,
    prompt: Seq<char>,
    id: Seq<char>,
    now: Timestamp,
)
    requires
        s.sessions.contains_key(session_id),
        s.sessions[session_id].status == SessionStatus::Cancelled,
        draws_fresh_ids(s, ops),
    ensures
        run(s, ops).sessions.contains_key(session_id),
        run(s, ops).sessions[session_id].status == SessionStatus::Cancelled,
        send_prompt(run(s, ops), session_id, prompt, id, now) == (run(s, ops), Err::<
            EventView,
            Seq<char>,
        >(session_not_active(SessionStatus::Cancelled))),
    decreases ops.len(),
{
    if ops.len() > 0 {
        lemma_cancelled_step(s, session_id, ops[0]);
        law_cancelled_session_stays_cancelled(
            apply(s, ops[0]),
            session_id,
            ops.drop_first(),
            prompt,
            id,
            now,
        );
    }
}

/// Every patch of a session names that session, and no two patches of a
/// session share an id.
pub open spec fn patches_consistent(s: StoreView) -> bool {
    &&& forall|k: Seq<char>, i: int|
        s.sessions.contains_key(k) && 0 <= i < s.sessions[k].patches.len()
            ==> #[trigger] s.sessions[k].patches[i].session_id == k
    &&& forall|k: Seq<char>, i: int, j: int|
        s.sessions.contains_key(k) && 0 <= i < s.sessions[k].patches.len() && 0 <= j
            < s.sessions[k].patches.len() && #[trigger] s.sessions[k].patches[i].id
            == #[trigger] s.sessions[k].patches[j].id ==> i == j
}

/// The patches of one session name it, and their ids are distinct.
pub open spec fn session_patches_consistent(id: Seq<char>, sess: SessionView) -> bool {
    &&& forall|i: int| 0 <= i < sess.patches.len() ==> #[trigger] sess.patches[i].session_id == id
    &&& forall|i: int, j: int|
        0 <= i < sess.patches.len() && 0 <= j < sess.patches.len() && #[trigger] sess.patches[i].id
            == #[trigger] sess.patches[j].id ==> i == j
}

proof fn lemma_put_keeps_patches_consistent(s: StoreView, id: Seq<char>, sess: SessionView)
    requires
        patches_consistent(s),
        session_patches_consistent(id, sess),
    ensures
        patches_consistent(put_session(s, id, sess)),
{
    let t = put_session(s, id, sess);
    assert forall|k: Seq<char>, i: int|
        t.sessions.contains_key(k) && 0 <= i < t.sessions[k].patches.len() implies #[trigger] t.sessions[k].patches[i].session_id
        == k by {
        if k != id {
            assert(s.sessions[k].patches[i].session_id == k);
        }
    }
    assert forall|k: Seq<char>, i: int, j: int|
        t.sessions.contains_key(k) && 0 <= i < t.sessions[k].patches.len() && 0 <= j
            < t.sessions[k].patches.len() && #[trigger] t.sessions[k].patches[i].id
            == #[trigger] t.sessions[k].patches[j].id implies i == j by {
        if k != id {
            assert(s.sessions[k].patches[i].id == s.sessions[k].patches[j].id);
        }
    }
}

/// One operation that draws fresh ids keeps the patches consistent.
proof fn lemma_patches_step(s: StoreView, op: StoreOp)
    requires
        patches_consistent(s),
        draws_fresh_id(s, op),
    ensures
        patches_consistent(apply(s, op)),
{
    match op {
        StoreOp::CreateSession { connection_id, workspace, id, now } => {
            if s.connections.contains_key(connection_id) {
                lemma_put_keeps_patches_consistent(
                    s,
                    id,
                    new_session(id, connection_id, workspace, now),
                );
            }
        },
        StoreOp::SendPrompt { session_id, prompt, id, now } => {
            if s.sessions.contains_key(session_id) {
                let sess = s.sessions[session_id];
                assert(session_patches_consistent(session_id, sess));
                if sess.status == SessionStatus::Active {
                    lemma_put_keeps_patches_consistent(
                        s,
                        session_id,
                        SessionView {
                            events: sess.events.push(prompt_event(id, prompt, now)),
                            updated_at: now,
                            ..sess
                        },
                    );
                }
            }
        },
        StoreOp::AddPermissionRequest { session_id, permission_type, path, command, id, now } => {
            if s.sessions.contains_key(session_id) {
                let sess = s.sessions[session_id];
                assert(session_patches_consistent(session_id, sess));
                lemma_put_keeps_patches_consistent(
                    s,
                    session_id,
                    SessionView {
                        permissions: sess.permissions.push(
                            new_permission(id, permission_type, path, command),
                        ),
                        updated_at: now,
                        ..sess
                    },
                );
            }
        },
        StoreOp::DecidePermission { session_id, permission_id, decision, reason, now } => {
            if s.sessions.contains_key(session_id) {
                let sess = s.sessions[session_id];
                assert(session_patches_consistent(session_id, sess));
                if let Some(i) = find_permission(sess.permissions, permission_id) {
                    let p = PermissionView {
                        decision,
                        reason,
                        decided_at: Some(now),
                        ..sess.permissions[i]
                    };
                    lemma_put_keeps_patches_consistent(
                        s,
                        session_id,
                        SessionView {
                            permissions: sess.permissions.update(i, p),
                            updated_at: now,
                            ..sess
                        },
                    );
                }
            }
        },
        StoreOp::AddPatch { session_id, files, id, now } => {
            if s.sessions.contains_key(session_id) {
                let sess = s.sessions[session_id];
                assert(session_patches_consistent(session_id, sess));
                let ps = sess.patches.push(new_patch(id, session_id, files, now));
                assert forall|i: int, j: int|
                    0 <= i < ps.len() && 0 <= j < ps.len() && #[trigger] ps[i].id
                        == #[trigger] ps[j].id implies i == j by {
                    if i < sess.patches.len() && j < sess.patches.len() {
                        assert(sess.patches[i].id == sess.patches[j].id);
                    } else if i < sess.patches.len() {
                        assert(sess.patches[i].id != id);
                    } else if j < sess.patches.len() {
                        assert(sess.patches[j].id != id);
                    }
                }
                lemma_put_keeps_patches_consistent(
                    s,
                    session_id,
                    SessionView { patches: ps, updated_at: now, ..sess },
                );
            }
        },
        StoreOp::ReviewPatch { session_id, patch_id, status, notes, now } => {
            if s.sessions.contains_key(session_id) {
                let sess = s.sessions[session_id];
                assert(session_patches_consistent(session_id, sess));
                if let Some(i) = find_patch(sess.patches, patch_id) {
                    let p = PatchView { status, review_notes: notes, ..sess.patches[i] };
                    let ps = sess.patches.update(i, p);
                    lemma_found_patch_holds_id(sess.patches, patch_id, i);
                    assert forall|a: int, b: int|
                        0 <= a < ps.len() && 0 <= b < ps.len() && #[trigger] ps[a].id
                            == #[trigger] ps[b].id implies a == b by {
                        assert(sess.patches[a].id == sess.patches[b].id);
                    }
                    lemma_put_keeps_patches_consistent(
                        s,
                        session_id,
                        SessionView { patches: ps, updated_at: now, ..sess },
                    );
                }
            }
        },
        StoreOp::TerminateSession { session_id, id, now } => {
            if s.sessions.contains_key(session_id) {
                let sess = s.sessions[session_id];
                assert(session_patches_consistent(session_id, sess));
                lemma_put_keeps_patches_consistent(
                    s,
                    session_id,
                    SessionView {
                        status: SessionStatus::Cancelled,
                        events: sess.events.push(cancel_event(id, session_id, now)),
                        updated_at: now,
                        ..sess
                    },
                );
            }
        },
        _ => {},
    }
}

/// Operations that draw fresh ids keep the patches consistent.
pub proof fn law_patches_stay_consistent(s: StoreView, ops: Seq<StoreOp>)
    requires
        patches_consistent(s),
        draws_fresh_ids(s, ops),
    ensures
        patches_consistent(run(s, ops)),
    decreases ops.len(),
{
    if ops.len() > 0 {
        lemma_patches_step(s, ops[0]);
        law_patches_stay_consistent(apply(s, ops[0]), ops.drop_first());
    }
}

/// In every store reached from an empty one by operations that draw fresh
/// ids, listing a session's patches gives patches that all name that session
/// and have distinct ids, and is refused exactly when there is no such
/// session.
pub proof fn law_listed_patches_belong_to_their_session(ops: Seq<StoreOp>, session_id: Seq<char>)
    requires
        draws_fresh_ids(empty_store(), ops),
    ensures
        ({
            let t = run(empty_store(), ops);
            match get_patches(t, session_id) {
                Ok(q) => {
                    &&& t.sessions.contains_key(session_id)
                    &&& forall|i: int| 0 <= i < q.len() ==> #[trigger] q[i].session_id == session_id
                    &&& forall|i: int, j: int|
                        0 <= i < q.len() && 0 <= j < q.len() && #[trigger] q[i].id == #[trigger] q[j].id
                            ==> i == j
                },
                Err(e) => !t.sessions.contains_key(session_id) && e == session_not_found(
                    session_id,
                ),
            }
        }),
{
    law_patches_stay_consistent(empty_store(), ops);
    let t = run(empty_store(), ops);
    if t.sessions.contains_key(session_id) {
        let q = t.sessions[session_id].patches;
        assert forall|i: int| 0 <= i < q.len() implies #[trigger] q[i].session_id == session_id by {
            assert(t.sessions[session_id].patches[i].session_id == session_id);
        }
        assert forall|i: int, j: int|
            0 <= i < q.len() && 0 <= j < q.len() && #[trigger] q[i].id == #[trigger] q[j].id
            implies i == j by {
            assert(t.sessions[session_id].patches[i].id == t.sessions[session_id].patches[j].id);
        }
    }
}

/// Two listings of the same connections are permutations of each other:
/// they hold the same connections, each once, and are equally long.
pub proof fn law_connection_listings_are_permutations(
    m: Map<Seq<char>, ConnectionView>,
    l1: Seq<ConnectionView>,
    l2: Seq<ConnectionView>,
)
    requires
        lists_connections(m, l1),
        lists_connections(m, l2),
    ensures
        l1.no_duplicates(),
        l2.no_duplicates(),
        l1.to_set() == l2.to_set(),
        l1.len() == l2.len(),
{
    assert forall|x: ConnectionView| l1.contains(x) implies l2.contains(x) by {
        let i = choose|i: int| 0 <= i < l1.len() && l1[i] == x;
        assert(m.contains_key(l1[i].id));
        let j = choose|j: int| 0 <= j < l2.len() && l2[j].id == x.id;
        assert(m[l2[j].id] == l2[j]);
        assert(l2[j] == x);
    }
    assert forall|x: ConnectionView| l2.contains(x) implies l1.contains(x) by {
        let i = choose|i: int| 0 <= i < l2.len() && l2[i] == x;
        assert(m.contains_key(l2[i].id));
        let j = choose|j: int| 0 <= j < l1.len() && l1[j].id == x.id;
        assert(m[l1[j].id] == l1[j]);
        assert(l1[j] == x);
    }
    assert(l1.to_set() =~= l2.to_set());
    assert(l1.no_duplicates()) by {
        assert forall|i: int, j: int| 0 <= i < l1.len() && 0 <= j < l1.len() && i != j implies l1[i]
            != l1[j] by {
            if l1[i] == l1[j] {
                assert(l1[i].id == l1[j].id);
            }
        }
    }
    assert(l2.no_duplicates()) by {
        assert forall|i: int, j: int| 0 <= i < l2.len() && 0 <= j < l2.len() && i != j implies l2[i]
            != l2[j] by {
            if l2[i] == l2[j] {
                assert(l2[i].id == l2[j].id);
            }
        }
    }
    l1.unique_seq_to_set();
    l2.unique_seq_to_set();
}

/// Only a `..` segment climbs: a relative path with no segment that is
/// exactly `..` stays inside the workspace, and so does the workspace
/// followed by a separator and such a path.
pub proof fn law_paths_without_dotdot_stay_inside(
    path: Seq<char>,
    rest: Seq<char>,
    workspace: Seq<char>,
)
    ensures
        (path.len() == 0 || path[0] != '/') && !has_dotdot_segment(path) ==> !outside_workspace(
            path,
            workspace,
        ),
        (workspace.len() == 0 || workspace[0] == '/') && !has_dotdot_segment(rest)
            ==> !outside_workspace(workspace + seq!['/'] + rest, workspace),
{
    if (path.len() == 0 || path[0] != '/') && !has_dotdot_segment(path) {
        lemma_no_dotdot_never_climbs(path, 0, 0, 0);
        assert(path.subrange(0, path.len() as int) =~= path);
    }
    if (workspace.len() == 0 || workspace[0] == '/') && !has_dotdot_segment(rest) {
        let p = workspace + seq!['/'] + rest;
        let tail = seq!['/'] + rest;
        assert(p.subrange(0, workspace.len() as int) =~= workspace);
        assert(p.subrange(workspace.len() as int, p.len() as int) =~= tail);
        assert(p[workspace.len() as int] == '/');
        if workspace.len() == 0 {
            assert(p[0] == '/');
        } else {
            assert(p[0] == workspace[0]);
        }
        lemma_leading_separator_keeps_segments(rest);
        lemma_no_dotdot_never_climbs(tail, 0, 0, 0);
        assert(tail.subrange(0, tail.len() as int) =~= tail);
    }
}

/// A single name (no separator, not `..`), such as `.gitignore`, lies inside
/// the workspace, read on its own or under the workspace; `..` itself lies
/// outside.
pub proof fn law_names_stay_inside(name: Seq<char>, workspace: Seq<char>)
    requires
        forall|i: int| 0 <= i < name.len() ==> name[i] != '/',
        name != seq!['.', '.'],
    ensures
        !outside_workspace(name, workspace),
        workspace.len() == 0 || workspace[0] == '/' ==> !outside_workspace(
            workspace + seq!['/'] + name,
            workspace,
        ),
        outside_workspace(seq!['.', '.'], workspace),
{
    if has_dotdot_segment(name) {
        let i = choose|i: int|
            0 <= i && i + 1 < name.len() && #[trigger] name[i] == '.' && name[i + 1] == '.' && (i
                == 0 || name[i - 1] == '/') && (i + 2 == name.len() || name[i + 2] == '/');
        assert(i == 0 && i + 2 == name.len());
        assert(name =~= seq!['.', '.']);
    }
    law_paths_without_dotdot_stay_inside(name, name, workspace);
    let dd = seq!['.', '.'];
    assert(dd.drop_first() =~= seq!['.']);
    assert(dd.drop_first().drop_first() =~= Seq::<char>::empty());
    reveal_with_fuel(crate::paths::climbs_above, 3);
    assert(escapes(dd));
}

/// A file write to a path inside the workspace (a relative path with no `..`
/// segment) gets the decision that was asked for.
pub proof fn law_writes_inside_get_the_asked_decision(
    s: StoreView,
    session_id: Seq<char>,
    path: Seq<char>,
    asked: PermissionDecision,
)
    requires
        path.len() == 0 || path[0] != '/',
        !has_dotdot_segment(path),
    ensures
        granted_decision(s, session_id, PermissionType::FileWrite, Some(path), asked) == asked,
{
    if s.sessions.contains_key(session_id) {
        law_paths_without_dotdot_stay_inside(path, path, s.sessions[session_id].workspace);
    }
}

/// Only the words "approve" and "approved" approve a permission request;
/// every other word denies it, and no word leaves it pending.
pub proof fn law_permission_words(word: Seq<char>)
    ensures
        permission_decision_of(word) == PermissionDecision::Approved <==> (word == "approve"@
            || word == "approved"@),
        permission_decision_of(word) == PermissionDecision::Denied <==> !(word == "approve"@
            || word == "approved"@),
        permission_decision_of(word) != PermissionDecision::Pending,
{
}

/// Only "approve" and "approved" approve a patch, only "applied" marks it
/// applied, every other word rejects it, and no word leaves it proposed.
pub proof fn law_patch_words(word: Seq<char>)
    ensures
        patch_status_of(word) == PatchStatus::Approved <==> (word == "approve"@ || word
            == "approved"@),
        patch_status_of(word) == PatchStatus::Applied <==> word == "applied"@,
        patch_status_of(word) == PatchStatus::Rejected <==> !(word == "approve"@ || word
            == "approved"@ || word == "applied"@),
        patch_status_of(word) != PatchStatus::Proposed,
{
    reveal_strlit("approve");
    reveal_strlit("approved");
    reveal_strlit("applied");
    assert("applied"@ != "approve"@) by {
        assert("applied"@[3] != "approve"@[3]);
    }
    assert("applied"@ != "approved"@) by {
        assert("applied"@.len() != "approved"@.len());
    }
}

/// The patch listing shows every patch of the session, in order, with its
/// own id, status and notes, and each file with its path, its operation and
/// the number of lines of its diff.
pub proof fn law_listing_shows_each_patch(s: StoreView, session_id: Seq<char>)
    requires
        s.sessions.contains_key(session_id),
    ensures
        ({
            let ps = s.sessions[session_id].patches;
            let q = patch_listing(s, session_id)->Ok_0;
            &&& patch_listing(s, session_id) is Ok
            &&& q.len() == ps.len()
            &&& forall|i: int|
                0 <= i < ps.len() ==> {
                    &&& #[trigger] q[i].id == ps[i].id
                    &&& q[i].status == ps[i].status
                    &&& q[i].review_notes == ps[i].review_notes
                    &&& q[i].files.len() == ps[i].files.len()
                    &&& forall|j: int|
                        0 <= j < ps[i].files.len() ==> {
                            &&& #[trigger] q[i].files[j].path == ps[i].files[j].path
                            &&& q[i].files[j].operation == ps[i].files[j].operation
                            &&& q[i].files[j].diff_lines == line_count(ps[i].files[j].diff)
                        }
                }
        }),
{
}

/// After a patch is reviewed, the listing shows it with the status and the
/// notes that the review gave.
pub proof fn law_listing_shows_the_review(
    s: StoreView,
    session_id: Seq<char>,
    patch_id: Seq<char>,
    status: PatchStatus,
    notes: Option<Seq<char>>,
    now: Timestamp,
    i: int,
)
    requires
        s.sessions.contains_key(session_id),
        find_patch(s.sessions[session_id].patches, patch_id) == Some(i),
    ensures
        ({
            let t = review_patch(s, session_id, patch_id, status, notes, now).0;
            let q = patch_listing(t, session_id)->Ok_0;
            &&& patch_listing(t, session_id) is Ok
            &&& 0 <= i < q.len()
            &&& q[i].id == patch_id
            &&& q[i].status == status
            &&& q[i].review_notes == notes
        }),
{
    law_review_touches_only_its_patch(s, session_id, patch_id, status, notes, now, i);
    let t = review_patch(s, session_id, patch_id, status, notes, now).0;
    law_listing_shows_each_patch(t, session_id);
}

/// Every connection is registered connected, announcing protocol version
/// "0.1" and the default capabilities, whatever its type and transport.
pub proof fn law_registered_connections_are_connected(
    id: Seq<char>,
    now: Timestamp,
    name: Seq<char>,
    connection_type: ConnectionType,
    transport: AcpTransport,
    command: Option<Seq<char>>,
    url: Option<Seq<char>>,
    workspace: Option<Seq<char>>,
)
    ensures
        ({
            let c = new_connection(id, now, name, connection_type, transport, command, url, workspace);
            &&& c.status == ConnectionStatus::Connected
            &&& c.protocol_version == "0.1"@
            &&& c.capabilities == AcpCapabilities {
                prompts: crate::types::PromptCapabilities { text: true, image: false, file: true },
                tools: true,
                filesystem: true,
                commands: false,
            }
            &&& c.id == id && c.name == name && c.connection_type == connection_type
            &&& c.transport == transport && c.command == command && c.url == url
            &&& c.workspace == workspace && c.created_at == now
        }),
{
}

/// Every agent is published connected, announcing protocol version "0.1",
/// whatever its transport.
pub proof fn law_published_agents_are_connected(
    id: Seq<char>,
    now: Timestamp,
    agent_name: Seq<char>,
    acp_server_name: Seq<char>,
    transport: AcpTransport,
    bind_addr: Option<Seq<char>>,
)
    ensures
        ({
            let a = new_exposed_agent(id, now, agent_name, acp_server_name, transport, bind_addr);
            &&& a.status == ConnectionStatus::Connected
            &&& a.protocol_version == "0.1"@
            &&& a.id == id && a.agent_name == agent_name && a.acp_server_name == acp_server_name
            &&& a.transport == transport && a.bind_addr == bind_addr && a.created_at == now
        }),
{
}

} // verus!
