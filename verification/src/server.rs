//! The tools that the ACP workspace offers: their inputs, and what each tool
//! decides and computes before its answer is rendered.
use crate::sources::is_prefixed_uuid;
use crate::model;
use crate::paths::is_outside_workspace;
use crate::store::{result_view, AcpStore};
use crate::text::{count_lines, line_count, same_text};
use crate::types::{
    clone_opt, opt_view, AcpConnection, AcpSession, AcpTransport, ConnectionType, FileChange,
    FileChangeView, FileOperation, Patch, PatchStatus, PatchView, Permission,
    PermissionDecision, PermissionType, Timestamp,
};
use vstd::prelude::*;

verus! {

#[derive(Debug)]
pub struct CreateAcpSessionInput {
    /// Name of the ACP agent to connect to
    pub agent_name: String,
    /// Transport: stdio, http, or websocket
    pub transport: AcpTransport,
    /// Command for stdio transport (the agent's executable)
    pub command: Option<String>,
    /// URL for http/websocket transport
    pub url: Option<String>,
    /// Workspace directory path
    pub workspace: String,
}

#[derive(Debug)]
pub struct SendAcpPromptInput {
    pub session_id: String,
    /// Task to delegate (sent as ContentBlock[] with type:text)
    pub prompt: String,
}

#[derive(Debug)]
pub struct StreamAcpEventsInput {
    pub session_id: String,
}

#[derive(Debug)]
pub struct RequestAcpPermissionInput {
    pub session_id: String,
    pub permission_type: PermissionType,
    pub path: Option<String>,
    pub command: Option<String>,
    /// approve or deny
    pub decision: String,
    pub reason: Option<String>,
}

#[derive(Debug)]
pub struct GetAcpPatchInput {
    pub session_id: String,
}

#[derive(Debug)]
pub struct ReviewAcpPatchInput {
    pub session_id: String,
    pub patch_id: String,
    /// approve, reject, or applied
    pub decision: String,
    pub notes: Option<String>,
}

#[derive(Debug)]
pub struct TerminateAcpSessionInput {
    pub session_id: String,
}

#[derive(Debug)]
pub struct ExposeAdkAgentAsAcpInput {
    /// ADK-Rust agent name to expose
    pub agent_name: String,
    /// Name for the ACP server
    pub acp_server_name: String,
    /// Transport to serve on
    pub transport: AcpTransport,
    /// Bind address for http/websocket (e.g. "0.0.0.0:9000")
    pub bind_addr: Option<String>,
}

/// The decision that the decision word grants a permission request: only
/// "approve" and "approved" approve it, every other word denies it.
pub open spec fn permission_decision_of(word: Seq<char>) -> PermissionDecision {
    if word == "approve"@ || word == "approved"@ {
        PermissionDecision::Approved
    } else {
        PermissionDecision::Denied
    }
}

/// The status that the decision word gives a patch: "approve" and "approved"
/// approve it, "applied" marks it applied, every other word rejects it.
pub open spec fn patch_status_of(word: Seq<char>) -> PatchStatus {
    if word == "approve"@ || word == "approved"@ {
        PatchStatus::Approved
    } else if word == "applied"@ {
        PatchStatus::Applied
    } else {
        PatchStatus::Rejected
    }
}

/// Reads the decision word on a permission request.
pub fn parse_permission_decision(word: &str) -> (d: PermissionDecision)
    ensures
        d == permission_decision_of(word@),
{
    if same_text(word, "approve") || same_text(word, "approved") {
        PermissionDecision::Approved
    } else {
        PermissionDecision::Denied
    }
}

/// Reads the decision word on a patch.
pub fn parse_patch_status(word: &str) -> (s: PatchStatus)
    ensures
        s == patch_status_of(word@),
{
    if same_text(word, "approve") || same_text(word, "approved") {
        PatchStatus::Approved
    } else if same_text(word, "applied") {
        PatchStatus::Applied
    } else {
        PatchStatus::Rejected
    }
}

/// A file of a patch as the review listing shows it: the diff is reduced to
/// its number of lines.
#[derive(Debug)]
pub struct FileSummary {
    pub path: String,
    pub operation: FileOperation,
    pub diff_lines: usize,
}

pub struct FileSummaryView {
    pub path: Seq<char>,
    pub operation: FileOperation,
    pub diff_lines: nat,
}

impl View for FileSummary {
    type V = FileSummaryView;

    open spec fn view(&self) -> FileSummaryView {
        FileSummaryView {
            path: self.path@,
            operation: self.operation,
            diff_lines: self.diff_lines as nat,
        }
    }
}

/// A patch as the review listing shows it.
#[derive(Debug)]
pub struct PatchSummary {
    pub id: String,
    pub status: PatchStatus,
    pub files: Vec<FileSummary>,
    pub review_notes: Option<String>,
}

pub struct PatchSummaryView {
    pub id: Seq<char>,
    pub status: PatchStatus,
    pub files: Seq<FileSummaryView>,
    pub review_notes: Option<Seq<char>>,
}

impl View for PatchSummary {
    type V = PatchSummaryView;

    open spec fn view(&self) -> PatchSummaryView {
        PatchSummaryView {
            id: self.id@,
            status: self.status,
            files: self.files@.map_values(|f: FileSummary| f@),
            review_notes: opt_view(self.review_notes),
        }
    }
}

pub open spec fn summarize_file(f: FileChangeView) -> FileSummaryView {
    FileSummaryView { path: f.path, operation: f.operation, diff_lines: line_count(f.diff) }
}

pub open spec fn summarize_patch(p: PatchView) -> PatchSummaryView {
    PatchSummaryView {
        id: p.id,
        status: p.status,
        files: p.files.map_values(|f: FileChangeView| summarize_file(f)),
        review_notes: p.review_notes,
    }
}

/// The view of an answer that is a list of patch summaries or a message.
pub open spec fn summaries_result_view(r: Result<Vec<PatchSummary>, String>) -> Result<
    Seq<PatchSummaryView>,
    Seq<char>,
> {
    match r {
        Ok(v) => Ok(v@.map_values(|p: PatchSummary| p@)),
        Err(e) => Err(e@),
    }
}

/// The summaries of a session's patches, or the message that refuses them.
pub open spec fn patch_listing(s: model::StoreView, session_id: Seq<char>) -> Result<
    Seq<PatchSummaryView>,
    Seq<char>,
> {
    match model::get_patches(s, session_id) {
        Ok(ps) => Ok(ps.map_values(|p: PatchView| summarize_patch(p))),
        Err(e) => Err(e),
    }
}

/// Summarizes one file change.
pub fn summarize_file_change(f: &FileChange) -> (r: FileSummary)
    ensures
        r@ == summarize_file(f@),
{
    FileSummary {
        path: f.path.clone(),
        operation: f.operation,
        diff_lines: count_lines(f.diff.as_str()),
    }
}

/// Summarizes one patch.
pub fn summarize(p: &Patch) -> (r: PatchSummary)
    ensures
        r@ == summarize_patch(p@),
{
    let mut files: Vec<FileSummary> = Vec::new();
    for k in 0..p.files.len()
        invariant
            files@.len() == k,
            forall|j: int| 0 <= j < k ==> #[trigger] files@[j]@ == summarize_file(p.files@[j]@),
    {
        files.push(summarize_file_change(&p.files[k]));
    }
    let r = PatchSummary {
        id: p.id.clone(),
        status: p.status,
        files,
        review_notes: clone_opt(&p.review_notes),
    };
    proof {
        assert(r@.files =~= p@.files.map_values(|f: FileChangeView| summarize_file(f)));
    }
    r
}

/// The workspace behind the tools.
pub struct AcpServer {
    pub store: AcpStore,
}

impl AcpServer {
    /// Starts an ACP session: registers a client connection for the agent
    /// (the ACP `initialize`) and opens a session in the workspace on it
    /// (the ACP `session/new`). Opening never fails, since the connection
    /// was just registered.
    pub fn create_acp_session(&mut self, i: CreateAcpSessionInput) -> (r: Result<
        (AcpConnection, AcpSession),
        String,
    >)
        ensures
            match r {
                Ok((c, sess)) => {
                    &&& is_prefixed_uuid("acp_"@, c@.id)
                    &&& model::is_clock_reading(c@.created_at)
                    &&& c@ == model::new_connection(
                        c@.id,
                        c@.created_at,
                        i.agent_name@,
                        ConnectionType::Client,
                        i.transport,
                        opt_view(i.command),
                        opt_view(i.url),
                        Some(i.workspace@),
                    )
                    &&& is_prefixed_uuid("sess_"@, sess@.id)
                    &&& model::is_clock_reading(sess@.created_at)
                    &&& sess@ == model::new_session(sess@.id, c@.id, i.workspace@, sess@.created_at)
                    &&& final(self).store@ == model::put_session(
                        model::register_connection(old(self).store@, c@),
                        sess@.id,
                        sess@,
                    )
                },
                Err(_) => false,
            },
    {
        let conn = self.store.register_connection(
            i.agent_name,
            ConnectionType::Client,
            i.transport,
            i.command,
            i.url,
            Some(i.workspace.clone()),
        );
        match self.store.create_session(conn.id.as_str(), i.workspace.as_str()) {
            Ok(session) => Ok((conn, session)),
            Err(e) => Err(e),
        }
    }

    /// Handles a permission request of the coding agent: records it, then
    /// decides it by the governance policy. The decision word decides, except
    /// that a file write outside the session's workspace is always denied.
    pub fn request_acp_permission(&mut self, i: RequestAcpPermissionInput) -> (r: Result<
        Permission,
        String,
    >)
        ensures
            exists|id: Seq<char>, recorded: Timestamp, decided: Timestamp|
                model::is_clock_reading(recorded) && model::is_clock_reading(decided)
                    && is_prefixed_uuid("perm_"@, id) && #[trigger] model::request_permission(
                    old(self).store@,
                    i.session_id@,
                    i.permission_type,
                    opt_view(i.path),
                    opt_view(i.command),
                    permission_decision_of(i.decision@),
                    opt_view(i.reason),
                    id,
                    recorded,
                    decided,
                ) == (final(self).store@, result_view(r)),
    {
        let asked = parse_permission_decision(i.decision.as_str());
        let ghost s0 = self.store@;
        let mut decision = asked;
        if i.permission_type == PermissionType::FileWrite {
            if let Some(path) = &i.path {
                if let Some(workspace) = self.store.session_workspace(i.session_id.as_str()) {
                    if is_outside_workspace(path.as_str(), workspace.as_str()) {
                        decision = PermissionDecision::Denied;
                    }
                }
            }
        }
        assert(decision == model::granted_decision(
            s0,
            i.session_id@,
            i.permission_type,
            opt_view(i.path),
            asked,
        ));
        let added = self.store.add_permission_request(
            i.session_id.as_str(),
            i.permission_type,
            i.path,
            i.command,
        );
        let ghost s1 = self.store@;
        let ghost (id, recorded) = choose|id: Seq<char>, now: Timestamp|
            model::is_clock_reading(now) && is_prefixed_uuid("perm_"@, id)
                && #[trigger] model::add_permission_request(
                s0,
                i.session_id@,
                i.permission_type,
                opt_view(i.path),
                opt_view(i.command),
                id,
                now,
            ) == (s1, result_view(added));
        match added {
            Err(e) => {
                proof {
                    assert(model::request_permission(
                        s0,
                        i.session_id@,
                        i.permission_type,
                        opt_view(i.path),
                        opt_view(i.command),
                        asked,
                        opt_view(i.reason),
                        id,
                        recorded,
                        recorded,
                    ) == (s1, result_view(added)));
                }
                Err(e)
            },
            Ok(p) => {
                let r = self.store.decide_permission(
                    i.session_id.as_str(),
                    p.id.as_str(),
                    decision,
                    i.reason,
                );
                proof {
                    let decided = choose|now: Timestamp|
                        model::is_clock_reading(now) && #[trigger] model::decide_permission(
                            s1,
                            i.session_id@,
                            p@.id,
                            decision,
                            opt_view(i.reason),
                            now,
                        ) == (self.store@, result_view(r));
                    assert(model::request_permission(
                        s0,
                        i.session_id@,
                        i.permission_type,
                        opt_view(i.path),
                        opt_view(i.command),
                        asked,
                        opt_view(i.reason),
                        id,
                        recorded,
                        decided,
                    ) == (self.store@, result_view(r)));
                }
                r
            },
        }
    }

    /// Reviews a proposed patch by the decision word.
    pub fn review_acp_patch(&mut self, i: ReviewAcpPatchInput) -> (r: Result<Patch, String>)
        ensures
            exists|now: Timestamp|
                model::is_clock_reading(now) && #[trigger] model::review_patch(
                    old(self).store@,
                    i.session_id@,
                    i.patch_id@,
                    patch_status_of(i.decision@),
                    opt_view(i.notes),
                    now,
                ) == (final(self).store@, result_view(r)),
    {
        let status = parse_patch_status(i.decision.as_str());
        self.store.review_patch(i.session_id.as_str(), i.patch_id.as_str(), status, i.notes)
    }

    /// The patches proposed in a session, each file reduced to its path, its
    /// operation and the number of lines of its diff.
    pub fn get_acp_patch(&self, i: GetAcpPatchInput) -> (r: Result<Vec<PatchSummary>, String>)
        ensures
            summaries_result_view(r) == patch_listing(self.store@, i.session_id@),
    {
        match self.store.get_patches(i.session_id.as_str()) {
            Err(e) => Err(e),
            Ok(patches) => {
                let mut out: Vec<PatchSummary> = Vec::new();
                for k in 0..patches.len()
                    invariant
                        out@.len() == k,
                        forall|j: int|
                            0 <= j < k ==> #[trigger] out@[j]@ == summarize_patch(patches@[j]@),
                {
                    out.push(summarize(&patches[k]));
                }
                proof {
                    let ps = crate::types::patches_view(patches@);
                    assert(out@.map_values(|p: PatchSummary| p@) =~= ps.map_values(
                        |p: PatchView| summarize_patch(p),
                    ));
                }
                Ok(out)
            },
        }
    }
}

} // verus!
