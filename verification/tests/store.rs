use mcp_acp_workspace::store::AcpStore;
use mcp_acp_workspace::types::{
    AcpCapabilities, AcpTransport, ConnectionStatus, ConnectionType, EventPayload, FileChange,
    FileOperation, PatchStatus, PermissionDecision, PermissionType, PromptCapabilities,
    SessionStatus, Timestamp,
};

const U1: &str = "0123456789abcdef0123456789abcdef";
const U2: &str = "fedcba9876543210fedcba9876543210";
const U3: &str = "00000000000040008000000000000001";
const U4: &str = "00000000000040008000000000000002";

fn t(secs: i64) -> Timestamp {
    Timestamp { secs, nanos: 500 }
}

fn is_random_id(id: &str, prefix: &str) -> bool {
    id.len() == prefix.len() + 32
        && id.starts_with(prefix)
        && id[prefix.len()..].chars().all(|c| c.is_ascii_digit() || ('a'..='f').contains(&c))
}

/// A store with one connection and one session, both with known ids.
fn store_with_session() -> (AcpStore, String, String) {
    let mut store = AcpStore::new();
    let conn = store.register_connection_with(
        "zed-agent".to_string(),
        ConnectionType::Client,
        AcpTransport::Stdio,
        Some("zed-agent".to_string()),
        None,
        Some("/ws".to_string()),
        U1,
        t(10),
    );
    let sess = store.create_session_with(&conn.id, "/ws", U2, t(11)).unwrap();
    (store, conn.id, sess.id)
}

#[test]
fn new_store_is_empty() {
    let store = AcpStore::new();
    assert!(store.list_connections().is_empty());
    assert!(store.list_exposed_agents().is_empty());
    assert_eq!(store.get_events("sess_x").unwrap_err(), "Session not found: sess_x");
    assert_eq!(store.get_patches("sess_x").unwrap_err(), "Session not found: sess_x");
}

#[test]
fn default_capabilities_are_text_file_tools_filesystem() {
    let caps = AcpCapabilities::default();
    assert_eq!(
        caps,
        AcpCapabilities {
            prompts: PromptCapabilities { text: true, image: false, file: true },
            tools: true,
            filesystem: true,
            commands: false,
        }
    );
}

#[test]
fn registered_connection_has_exact_fields_and_is_listed() {
    let mut store = AcpStore::new();
    let conn = store.register_connection_with(
        "agent".to_string(),
        ConnectionType::Server,
        AcpTransport::Http,
        None,
        Some("http://x".to_string()),
        None,
        U1,
        t(42),
    );
    assert_eq!(conn.id, format!("acp_{}", U1));
    assert_eq!(conn.name, "agent");
    assert_eq!(conn.connection_type, ConnectionType::Server);
    assert_eq!(conn.transport, AcpTransport::Http);
    assert_eq!(conn.command, None);
    assert_eq!(conn.url.as_deref(), Some("http://x"));
    assert_eq!(conn.protocol_version, "0.1");
    assert_eq!(conn.capabilities, AcpCapabilities::default());
    assert_eq!(conn.status, ConnectionStatus::Connected);
    assert_eq!(conn.workspace, None);
    assert_eq!(conn.created_at, t(42));
    let listed = store.list_connections();
    assert_eq!(listed.len(), 1);
    assert_eq!(listed[0].id, conn.id);
}

#[test]
fn registering_under_a_used_id_replaces_the_connection() {
    let mut store = AcpStore::new();
    store.register_connection_with("a".into(), ConnectionType::Client, AcpTransport::Stdio, None, None, None, U1, t(1));
    store.register_connection_with("b".into(), ConnectionType::Client, AcpTransport::Stdio, None, None, None, U1, t(2));
    store.register_connection_with("c".into(), ConnectionType::Client, AcpTransport::Stdio, None, None, None, U2, t(3));
    let mut names: Vec<String> = store.list_connections().into_iter().map(|c| c.name).collect();
    names.sort();
    assert_eq!(names, vec!["b".to_string(), "c".to_string()]);
}

#[test]
fn register_connection_draws_random_ids() {
    let mut store = AcpStore::new();
    let a = store.register_connection("a".into(), ConnectionType::Client, AcpTransport::Stdio, None, None, None);
    let b = store.register_connection("b".into(), ConnectionType::Client, AcpTransport::WebSocket, None, None, None);
    assert!(is_random_id(&a.id, "acp_"));
    assert!(is_random_id(&b.id, "acp_"));
    assert_ne!(a.id, b.id);
    assert!(a.created_at.secs > 0);
    assert!(a.created_at.nanos < 1_000_000_000);
    assert_eq!(store.list_connections().len(), 2);
}

#[test]
fn session_on_unknown_connection_is_refused() {
    let mut store = AcpStore::new();
    assert_eq!(
        store.create_session_with("acp_nope", "/ws", U1, t(1)).unwrap_err(),
        "Connection not found: acp_nope"
    );
    assert_eq!(store.create_session("acp_nope", "/ws").unwrap_err(), "Connection not found: acp_nope");
}

#[test]
fn created_session_is_active_and_readable() {
    let (store, conn_id, sess_id) = store_with_session();
    assert_eq!(sess_id, format!("sess_{}", U2));
    assert_eq!(store.get_events(&sess_id).unwrap().len(), 0);
    assert_eq!(store.get_patches(&sess_id).unwrap().len(), 0);
    let mut store = store;
    let sess = store.create_session(&conn_id, "/other").unwrap();
    assert!(is_random_id(&sess.id, "sess_"));
    assert_eq!(sess.connection_id, conn_id);
    assert_eq!(sess.workspace, "/other");
    assert_eq!(sess.status, SessionStatus::Active);
    assert!(sess.permissions.is_empty() && sess.patches.is_empty() && sess.events.is_empty());
    assert_eq!(sess.created_at, sess.updated_at);
}

#[test]
fn prompt_is_recorded_as_event() {
    let (mut store, _, sid) = store_with_session();
    let e = store.send_prompt_with(&sid, "Refactor auth", U3, t(20)).unwrap();
    assert_eq!(e.id, format!("evt_{}", U3));
    assert_eq!(e.event_type, "session/prompt");
    assert_eq!(e.timestamp, t(20));
    match &e.payload {
        EventPayload::Prompt { text } => assert_eq!(text, "Refactor auth"),
        other => panic!("unexpected payload {:?}", other),
    }
    let e2 = store.send_prompt(&sid, "Second").unwrap();
    assert!(is_random_id(&e2.id, "evt_"));
    let events = store.get_events(&sid).unwrap();
    assert_eq!(events.len(), 2);
    assert_eq!(events[0].id, e.id);
    assert_eq!(events[1].id, e2.id);
}

#[test]
fn prompt_on_unknown_session_is_refused() {
    let (mut store, _, _) = store_with_session();
    assert_eq!(store.send_prompt("sess_zz", "hi").unwrap_err(), "Session not found: sess_zz");
}

#[test]
fn terminated_session_refuses_prompts() {
    let (mut store, _, sid) = store_with_session();
    store.send_prompt_with(&sid, "first", U3, t(20)).unwrap();
    let sess = store.terminate_session_with(&sid, U4, t(30)).unwrap();
    assert_eq!(sess.status, SessionStatus::Cancelled);
    assert_eq!(sess.updated_at, t(30));
    assert_eq!(sess.events.len(), 2);
    let cancel = &sess.events[1];
    assert_eq!(cancel.id, format!("evt_{}", U4));
    assert_eq!(cancel.event_type, "session/cancel");
    match &cancel.payload {
        EventPayload::Cancel { session_id } => assert_eq!(session_id, &sid),
        other => panic!("unexpected payload {:?}", other),
    }
    assert_eq!(store.send_prompt(&sid, "again").unwrap_err(), "Session not active: Cancelled");
    assert_eq!(store.get_events(&sid).unwrap().len(), 2);
}

#[test]
fn terminating_twice_records_two_cancellations() {
    let (mut store, _, sid) = store_with_session();
    store.terminate_session(&sid).unwrap();
    let sess = store.terminate_session(&sid).unwrap();
    assert_eq!(sess.status, SessionStatus::Cancelled);
    assert_eq!(sess.events.len(), 2);
    assert!(sess.events.iter().all(|e| e.event_type == "session/cancel"));
    assert_eq!(store.terminate_session("sess_q").unwrap_err(), "Session not found: sess_q");
}

#[test]
fn termination_keeps_permissions_and_patches() {
    let (mut store, _, sid) = store_with_session();
    store.add_permission_request(&sid, PermissionType::Network, None, None).unwrap();
    store.add_patch(&sid, vec![]).unwrap();
    let sess = store.terminate_session(&sid).unwrap();
    assert_eq!(sess.permissions.len(), 1);
    assert_eq!(sess.patches.len(), 1);
}

#[test]
fn permission_request_is_pending_then_decided() {
    let (mut store, _, sid) = store_with_session();
    let p = store
        .add_permission_request_with(&sid, PermissionType::FileWrite, Some("src/auth.rs".into()), None, U3, t(40))
        .unwrap();
    assert_eq!(p.id, format!("perm_{}", U3));
    assert_eq!(p.permission_type, PermissionType::FileWrite);
    assert_eq!(p.path.as_deref(), Some("src/auth.rs"));
    assert_eq!(p.decision, PermissionDecision::Pending);
    assert_eq!(p.reason, None);
    assert_eq!(p.decided_at, None);
    let d = store
        .decide_permission_with(&sid, &p.id, PermissionDecision::Approved, Some("ok".into()), t(41))
        .unwrap();
    assert_eq!(d.id, p.id);
    assert_eq!(d.decision, PermissionDecision::Approved);
    assert_eq!(d.reason.as_deref(), Some("ok"));
    assert_eq!(d.decided_at, Some(t(41)));
    assert_eq!(d.path.as_deref(), Some("src/auth.rs"));
}

#[test]
fn deciding_an_unknown_permission_is_refused_and_changes_nothing() {
    let (mut store, _, sid) = store_with_session();
    store.add_permission_request_with(&sid, PermissionType::Command, None, Some("ls".into()), U3, t(40)).unwrap();
    let before = store.terminate_session_with(&sid, U4, t(50)).unwrap();
    assert_eq!(
        store.decide_permission(&sid, "perm_none", PermissionDecision::Denied, None).unwrap_err(),
        "Permission not found: perm_none"
    );
    assert_eq!(
        store.decide_permission("sess_none", "perm_none", PermissionDecision::Denied, None).unwrap_err(),
        "Session not found: sess_none"
    );
    let after = store.terminate_session_with(&sid, U4, t(50)).unwrap();
    assert_eq!(after.permissions[0].decision, PermissionDecision::Pending);
    assert_eq!(after.updated_at, before.updated_at);
    assert_eq!(
        store.add_permission_request("sess_none", PermissionType::FileRead, None, None).unwrap_err(),
        "Session not found: sess_none"
    );
}

#[test]
fn deciding_touches_only_the_first_permission_with_the_id() {
    let (mut store, _, sid) = store_with_session();
    store.add_permission_request_with(&sid, PermissionType::FileRead, None, None, U3, t(1)).unwrap();
    store.add_permission_request_with(&sid, PermissionType::FileWrite, None, None, U3, t(2)).unwrap();
    store.add_permission_request_with(&sid, PermissionType::Network, None, None, U4, t(3)).unwrap();
    let id = format!("perm_{}", U3);
    let d = store.decide_permission_with(&sid, &id, PermissionDecision::Denied, None, t(4)).unwrap();
    assert_eq!(d.permission_type, PermissionType::FileRead);
    let sess = store.terminate_session(&sid).unwrap();
    assert_eq!(sess.permissions[0].decision, PermissionDecision::Denied);
    assert_eq!(sess.permissions[1].decision, PermissionDecision::Pending);
    assert_eq!(sess.permissions[2].decision, PermissionDecision::Pending);
}

fn change(path: &str, op: FileOperation, diff: &str) -> FileChange {
    FileChange { path: path.to_string(), operation: op, diff: diff.to_string() }
}

#[test]
fn proposed_patch_is_listed_and_reviewed() {
    let (mut store, _, sid) = store_with_session();
    let p = store
        .add_patch_with(&sid, vec![change("src/auth.rs", FileOperation::Modify, "-a\n+b\n")], U3, t(60))
        .unwrap();
    assert_eq!(p.id, format!("patch_{}", U3));
    assert_eq!(p.session_id, sid);
    assert_eq!(p.status, PatchStatus::Proposed);
    assert_eq!(p.review_notes, None);
    assert_eq!(p.created_at, t(60));
    let second = store.add_patch(&sid, vec![]).unwrap();
    assert!(is_random_id(&second.id, "patch_"));
    let listed = store.get_patches(&sid).unwrap();
    assert_eq!(listed.len(), 2);
    assert_eq!(listed[0].id, p.id);
    assert_eq!(listed[1].id, second.id);
    let r = store.review_patch_with(&sid, &p.id, PatchStatus::Approved, Some("Looks fine".into()), t(61)).unwrap();
    assert_eq!(r.status, PatchStatus::Approved);
    assert_eq!(r.review_notes.as_deref(), Some("Looks fine"));
    assert_eq!(r.files.len(), 1);
    assert_eq!(r.files[0].diff, "-a\n+b\n");
    let listed = store.get_patches(&sid).unwrap();
    assert_eq!(listed[0].status, PatchStatus::Approved);
    assert_eq!(listed[1].status, PatchStatus::Proposed);
}

#[test]
fn reviewing_an_unknown_patch_is_refused() {
    let (mut store, _, sid) = store_with_session();
    assert_eq!(
        store.review_patch(&sid, "patch_x", PatchStatus::Rejected, None).unwrap_err(),
        "Patch not found: patch_x"
    );
    assert_eq!(
        store.review_patch("sess_x", "patch_x", PatchStatus::Rejected, None).unwrap_err(),
        "Session not found: sess_x"
    );
    assert_eq!(store.add_patch("sess_x", vec![]).unwrap_err(), "Session not found: sess_x");
}

#[test]
fn exposed_agents_are_listed_in_order() {
    let mut store = AcpStore::new();
    let a = store.expose_agent_with("code-checker", "adk-checker", AcpTransport::Http, Some("0.0.0.0:9000".into()), U1, t(5));
    assert_eq!(a.id, format!("exposed_{}", U1));
    assert_eq!(a.agent_name, "code-checker");
    assert_eq!(a.acp_server_name, "adk-checker");
    assert_eq!(a.transport, AcpTransport::Http);
    assert_eq!(a.bind_addr.as_deref(), Some("0.0.0.0:9000"));
    assert_eq!(a.protocol_version, "0.1");
    assert_eq!(a.status, ConnectionStatus::Connected);
    let b = store.expose_agent("other", "srv", AcpTransport::Stdio, None);
    assert!(is_random_id(&b.id, "exposed_"));
    let listed = store.list_exposed_agents();
    assert_eq!(listed.len(), 2);
    assert_eq!(listed[0].id, a.id);
    assert_eq!(listed[1].id, b.id);
    assert!(store.list_connections().is_empty());
}

#[test]
fn audit_trail_only_grows() {
    let (mut store, conn_id, sid) = store_with_session();
    store.send_prompt_with(&sid, "one", U3, t(20)).unwrap();
    let p = store.add_permission_request_with(&sid, PermissionType::FileRead, None, None, U3, t(21)).unwrap();
    let patch = store.add_patch_with(&sid, vec![change("f", FileOperation::Create, "+x")], U4, t(22)).unwrap();
    let snapshot = store.terminate_session_with(&sid, U4, t(23)).unwrap();
    store.decide_permission(&sid, &p.id, PermissionDecision::Approved, None).unwrap();
    store.review_patch(&sid, &patch.id, PatchStatus::Rejected, Some("no".into())).unwrap();
    store.send_prompt(&sid, "refused").unwrap_err();
    store.create_session(&conn_id, "/ws2").unwrap();
    let after = store.terminate_session(&sid).unwrap();
    assert_eq!(after.events.len(), snapshot.events.len() + 1);
    for (a, b) in snapshot.events.iter().zip(after.events.iter()) {
        assert_eq!(a.id, b.id);
        assert_eq!(a.event_type, b.event_type);
        assert_eq!(a.timestamp, b.timestamp);
    }
    assert_eq!(after.permissions.len(), 1);
    assert_eq!(after.permissions[0].id, p.id);
    assert_eq!(after.patches.len(), 1);
    assert_eq!(after.patches[0].id, patch.id);
    assert_eq!(after.patches[0].files[0].diff, "+x");
    assert_eq!(store.list_connections().len(), 1);
}

#[test]
fn refused_session_leaves_store_unchanged() {
    let (mut store, _, sid) = store_with_session();
    let before = store.get_events(&sid).unwrap().len();
    store.create_session("acp_missing", "/ws").unwrap_err();
    store.send_prompt("sess_missing", "x").unwrap_err();
    assert_eq!(store.get_events(&sid).unwrap().len(), before);
    assert_eq!(store.list_connections().len(), 1);
}

#[test]
fn two_connection_listings_hold_the_same_connections() {
    let mut store = AcpStore::new();
    store.register_connection_with("a".into(), ConnectionType::Client, AcpTransport::Stdio, None, None, None, U1, t(1));
    store.register_connection_with("b".into(), ConnectionType::Server, AcpTransport::Http, None, None, None, U2, t(2));
    store.register_connection_with("c".into(), ConnectionType::Client, AcpTransport::WebSocket, None, None, None, U3, t(3));
    let mut first: Vec<String> = store.list_connections().into_iter().map(|c| c.id).collect();
    let mut second: Vec<String> = store.list_connections().into_iter().map(|c| c.id).collect();
    assert_eq!(first.len(), 3);
    first.sort();
    second.sort();
    assert_eq!(first, second);
}
