use mcp_acp_workspace::server::{
    parse_patch_status, parse_permission_decision, summarize, AcpServer, CreateAcpSessionInput,
    GetAcpPatchInput, RequestAcpPermissionInput, ReviewAcpPatchInput,
};
use mcp_acp_workspace::store::AcpStore;
use mcp_acp_workspace::text::{count_lines, join, same_text, status_text};
use mcp_acp_workspace::types::{
    AcpTransport, ConnectionType, FileChange, FileOperation, Patch, PatchStatus,
    PermissionDecision, PermissionType, SessionStatus, Timestamp,
};

fn server() -> AcpServer {
    AcpServer { store: AcpStore::new() }
}

fn open(server: &mut AcpServer) -> String {
    let (_, sess) = server
        .create_acp_session(CreateAcpSessionInput {
            agent_name: "zed-agent".to_string(),
            transport: AcpTransport::Stdio,
            command: Some("agent-bin".to_string()),
            url: None,
            workspace: "/my-project".to_string(),
        })
        .unwrap();
    sess.id
}

#[test]
fn permission_words() {
    assert_eq!(parse_permission_decision("approve"), PermissionDecision::Approved);
    assert_eq!(parse_permission_decision("approved"), PermissionDecision::Approved);
    assert_eq!(parse_permission_decision("deny"), PermissionDecision::Denied);
    assert_eq!(parse_permission_decision("Approve"), PermissionDecision::Denied);
    assert_eq!(parse_permission_decision(""), PermissionDecision::Denied);
    assert_eq!(parse_permission_decision("approve "), PermissionDecision::Denied);
}

#[test]
fn patch_words() {
    assert_eq!(parse_patch_status("approve"), PatchStatus::Approved);
    assert_eq!(parse_patch_status("approved"), PatchStatus::Approved);
    assert_eq!(parse_patch_status("applied"), PatchStatus::Applied);
    assert_eq!(parse_patch_status("reject"), PatchStatus::Rejected);
    assert_eq!(parse_patch_status("apply"), PatchStatus::Rejected);
    assert_eq!(parse_patch_status(""), PatchStatus::Rejected);
}

#[test]
fn line_counts_match_str_lines() {
    let cases = [
        "", "a", "a\n", "a\nb", "a\r\nb\r\n", "\n", "\n\n", "abc\n\ndef", "x\ny\nz\n", "é\nü", "\r\n",
    ];
    for c in cases.iter() {
        assert_eq!(count_lines(c), c.lines().count(), "text {:?}", c);
    }
    assert_eq!(count_lines(""), 0);
    assert_eq!(count_lines("one line"), 1);
    assert_eq!(count_lines("-a\n+b\n"), 2);
    assert_eq!(count_lines("-a\n+b\n c"), 3);
}

#[test]
fn text_helpers() {
    assert_eq!(join("sess_", "abc"), "sess_abc");
    assert_eq!(join("", ""), "");
    assert!(same_text("approve", "approve"));
    assert!(!same_text("approve", "approved"));
    assert_eq!(status_text(SessionStatus::Active), "Active");
    assert_eq!(status_text(SessionStatus::Completed), "Completed");
    assert_eq!(status_text(SessionStatus::Cancelled), "Cancelled");
    assert_eq!(status_text(SessionStatus::Error), "Error");
}

#[test]
fn opening_a_session_registers_a_client_connection() {
    let mut s = server();
    let (conn, sess) = s
        .create_acp_session(CreateAcpSessionInput {
            agent_name: "zed-agent".to_string(),
            transport: AcpTransport::Http,
            command: None,
            url: Some("http://localhost:1".to_string()),
            workspace: "/my-project".to_string(),
        })
        .unwrap();
    assert!(conn.id.starts_with("acp_") && conn.id.len() == 36);
    assert!(sess.id.starts_with("sess_") && sess.id.len() == 37);
    assert_eq!(conn.connection_type, ConnectionType::Client);
    assert_eq!(conn.transport, AcpTransport::Http);
    assert_eq!(conn.workspace.as_deref(), Some("/my-project"));
    assert_eq!(conn.url.as_deref(), Some("http://localhost:1"));
    assert_eq!(conn.protocol_version, "0.1");
    assert_eq!(sess.connection_id, conn.id);
    assert_eq!(sess.workspace, "/my-project");
    assert_eq!(sess.status, SessionStatus::Active);
    assert_eq!(s.store.list_connections().len(), 1);
    assert_eq!(s.store.get_events(&sess.id).unwrap().len(), 0);
}

#[test]
fn requested_permission_is_recorded_and_decided() {
    let mut s = server();
    let sid = open(&mut s);
    let p = s
        .request_acp_permission(RequestAcpPermissionInput {
            session_id: sid.clone(),
            permission_type: PermissionType::FileWrite,
            path: Some("src/auth.rs".to_string()),
            command: None,
            decision: "approve".to_string(),
            reason: Some("Approved for auth refactor".to_string()),
        })
        .unwrap();
    assert!(p.id.starts_with("perm_"));
    assert_eq!(p.decision, PermissionDecision::Approved);
    assert_eq!(p.reason.as_deref(), Some("Approved for auth refactor"));
    assert_eq!(p.path.as_deref(), Some("src/auth.rs"));
    assert!(p.decided_at.is_some());
    let q = s
        .request_acp_permission(RequestAcpPermissionInput {
            session_id: sid.clone(),
            permission_type: PermissionType::Command,
            path: None,
            command: Some("rm -rf /".to_string()),
            decision: "yes please".to_string(),
            reason: None,
        })
        .unwrap();
    assert_eq!(q.decision, PermissionDecision::Denied);
    let sess = s.store.terminate_session(&sid).unwrap();
    assert_eq!(sess.permissions.len(), 2);
    assert_eq!(sess.permissions[0].decision, PermissionDecision::Approved);
    assert_eq!(sess.permissions[1].decision, PermissionDecision::Denied);
    let err = s
        .request_acp_permission(RequestAcpPermissionInput {
            session_id: "sess_missing".to_string(),
            permission_type: PermissionType::Network,
            path: None,
            command: None,
            decision: "approve".to_string(),
            reason: None,
        })
        .unwrap_err();
    assert_eq!(err, "Session not found: sess_missing");
}

#[test]
fn patch_listing_counts_diff_lines_and_decisions_apply() {
    let mut s = server();
    let sid = open(&mut s);
    let files = vec![
        FileChange { path: "src/auth.rs".into(), operation: FileOperation::Modify, diff: "-a\n+b\n+c".into() },
        FileChange { path: "src/new.rs".into(), operation: FileOperation::Create, diff: "".into() },
    ];
    let patch = s.store.add_patch(&sid, files).unwrap();
    let listing = s.get_acp_patch(GetAcpPatchInput { session_id: sid.clone() }).unwrap();
    assert_eq!(listing.len(), 1);
    assert_eq!(listing[0].id, patch.id);
    assert_eq!(listing[0].status, PatchStatus::Proposed);
    assert_eq!(listing[0].files.len(), 2);
    assert_eq!(listing[0].files[0].path, "src/auth.rs");
    assert_eq!(listing[0].files[0].operation, FileOperation::Modify);
    assert_eq!(listing[0].files[0].diff_lines, 3);
    assert_eq!(listing[0].files[1].diff_lines, 0);
    let judged = s
        .review_acp_patch(ReviewAcpPatchInput {
            session_id: sid.clone(),
            patch_id: patch.id.clone(),
            decision: "applied".to_string(),
            notes: Some("merged".to_string()),
        })
        .unwrap();
    assert_eq!(judged.status, PatchStatus::Applied);
    assert_eq!(judged.review_notes.as_deref(), Some("merged"));
    let judged = s
        .review_acp_patch(ReviewAcpPatchInput {
            session_id: sid.clone(),
            patch_id: patch.id.clone(),
            decision: "nope".to_string(),
            notes: None,
        })
        .unwrap();
    assert_eq!(judged.status, PatchStatus::Rejected);
    assert_eq!(judged.review_notes, None);
    assert_eq!(
        s.get_acp_patch(GetAcpPatchInput { session_id: "sess_q".into() }).unwrap_err(),
        "Session not found: sess_q"
    );
    assert_eq!(
        s.review_acp_patch(ReviewAcpPatchInput {
            session_id: sid,
            patch_id: "patch_q".into(),
            decision: "approve".into(),
            notes: None,
        })
        .unwrap_err(),
        "Patch not found: patch_q"
    );
}

#[test]
fn summary_of_a_patch() {
    let p = Patch {
        id: "patch_1".into(),
        session_id: "sess_1".into(),
        files: vec![FileChange { path: "a".into(), operation: FileOperation::Delete, diff: "x\r\ny\r\n".into() }],
        status: PatchStatus::Rejected,
        review_notes: Some("n".into()),
        created_at: Timestamp { secs: 1, nanos: 2 },
    };
    let s = summarize(&p);
    assert_eq!(s.id, "patch_1");
    assert_eq!(s.status, PatchStatus::Rejected);
    assert_eq!(s.review_notes.as_deref(), Some("n"));
    assert_eq!(s.files[0].diff_lines, 2);
    assert_eq!(s.files[0].operation, FileOperation::Delete);
}

use mcp_acp_workspace::paths::{escapes_from, is_outside_workspace};

#[test]
fn workspace_boundary_of_paths() {
    let ws = "/my-project";
    assert!(!is_outside_workspace("/my-project", ws));
    assert!(!is_outside_workspace("/my-project/src/auth.rs", ws));
    assert!(!is_outside_workspace("src/auth.rs", ws));
    assert!(!is_outside_workspace("./src/../lib.rs", ws));
    assert!(!is_outside_workspace("/my-project/a/../b", ws));
    assert!(is_outside_workspace("/etc/passwd", ws));
    assert!(is_outside_workspace("/my-project-other/x", ws));
    assert!(is_outside_workspace("/my-project/../etc/passwd", ws));
    assert!(is_outside_workspace("../secrets", ws));
    assert!(is_outside_workspace("src/../../x", ws));
    assert!(is_outside_workspace("..", ws));
    assert!(!is_outside_workspace("/w/x", "/w/"));
    assert!(is_outside_workspace("/x", "/w/"));
    assert!(!escapes_from("abc/../d", 0));
    assert!(escapes_from("abc/../../d", 0));
    assert!(!escapes_from("/w/a/../x", 2));
    assert!(escapes_from("/w/../../x", 3));
    assert!(escapes_from("/w/../x", 2));
}

#[test]
fn writes_outside_the_workspace_are_denied() {
    let mut s = server();
    let sid = open(&mut s);
    assert_eq!(s.store.session_workspace(&sid).as_deref(), Some("/my-project"));
    assert_eq!(s.store.session_workspace("sess_none"), None);
    let outside = s
        .request_acp_permission(RequestAcpPermissionInput {
            session_id: sid.clone(),
            permission_type: PermissionType::FileWrite,
            path: Some("/etc/passwd".to_string()),
            command: None,
            decision: "approve".to_string(),
            reason: None,
        })
        .unwrap();
    assert_eq!(outside.decision, PermissionDecision::Denied);
    let escaping = s
        .request_acp_permission(RequestAcpPermissionInput {
            session_id: sid.clone(),
            permission_type: PermissionType::FileWrite,
            path: Some("src/../../etc/passwd".to_string()),
            command: None,
            decision: "approved".to_string(),
            reason: None,
        })
        .unwrap();
    assert_eq!(escaping.decision, PermissionDecision::Denied);
    let inside = s
        .request_acp_permission(RequestAcpPermissionInput {
            session_id: sid.clone(),
            permission_type: PermissionType::FileWrite,
            path: Some("/my-project/src/auth.rs".to_string()),
            command: None,
            decision: "approve".to_string(),
            reason: None,
        })
        .unwrap();
    assert_eq!(inside.decision, PermissionDecision::Approved);
    let read_outside = s
        .request_acp_permission(RequestAcpPermissionInput {
            session_id: sid.clone(),
            permission_type: PermissionType::FileRead,
            path: Some("/etc/hosts".to_string()),
            command: None,
            decision: "approve".to_string(),
            reason: None,
        })
        .unwrap();
    assert_eq!(read_outside.decision, PermissionDecision::Approved);
    let sess = s.store.terminate_session(&sid).unwrap();
    assert_eq!(sess.id, sid);
    assert_eq!(sess.permissions[0].decision, PermissionDecision::Denied);
    assert_eq!(sess.permissions[1].decision, PermissionDecision::Denied);
    assert_eq!(sess.permissions[2].decision, PermissionDecision::Approved);
}
