//! The records kept by the ACP workspace store, and their mathematical views.
//!
//! Strings are viewed as `Seq<char>`, vectors as sequences of the views of
//! their items, and timestamps as the plain pair of seconds and nanoseconds
//! since the Unix epoch.
use crate::table::Keyed;
use vstd::prelude::*;

verus! {

#[derive(Clone, Copy, Debug, PartialEq, Eq, Structural)]
pub enum ConnectionType {
    Client,
    Server,
}

#[derive(Clone, Copy, Debug, PartialEq, Eq, Structural)]
pub enum AcpTransport {
    Stdio,
    Http,
    WebSocket,
}

#[derive(Clone, Copy, Debug, PartialEq, Eq, Structural)]
pub enum ConnectionStatus {
    Connected,
    Disconnected,
    Error,
}

#[derive(Clone, Copy, Debug, PartialEq, Eq, Structural)]
pub enum SessionStatus {
    Active,
    Completed,
    Cancelled,
    Error,
}

#[derive(Clone, Copy, Debug, PartialEq, Eq, Structural)]
pub enum PermissionType {
    FileWrite,
    FileRead,
    Command,
    Network,
}

#[derive(Clone, Copy, Debug, PartialEq, Eq, Structural)]
pub enum PermissionDecision {
    Pending,
    Approved,
    Denied,
}

#[derive(Clone, Copy, Debug, PartialEq, Eq, Structural)]
pub enum PatchStatus {
    Proposed,
    Approved,
    Rejected,
    Applied,
}

#[derive(Clone, Copy, Debug, PartialEq, Eq, Structural)]
pub enum FileOperation {
    Create,
    Modify,
    Delete,
}

/// A point in time, in UTC: whole seconds since the Unix epoch and the
/// nanoseconds past that second.
#[derive(Clone, Copy, Debug, PartialEq, Eq, Structural)]
pub struct Timestamp {
    pub secs: i64,
    pub nanos: u32,
}

/// The view of an optional string.
pub open spec fn opt_view(s: Option<String>) -> Option<Seq<char>> {
    match s {
        Some(t) => Some(t@),
        None => None,
    }
}

/// Clones an optional string, keeping its view.
pub fn clone_opt(s: &Option<String>) -> (r: Option<String>)
    ensures
        opt_view(r) == opt_view(*s),
{
    match s {
        Some(t) => Some(t.clone()),
        None => None,
    }
}

#[derive(Clone, Copy, Debug, PartialEq, Eq, Structural)]
pub struct PromptCapabilities {
    pub text: bool,
    pub image: bool,
    pub file: bool,
}

#[derive(Clone, Copy, Debug, PartialEq, Eq, Structural)]
pub struct AcpCapabilities {
    pub prompts: PromptCapabilities,
    pub tools: bool,
    pub filesystem: bool,
    pub commands: bool,
}

/// The capabilities announced for a fresh connection: text and file prompts,
/// tools and file-system access, but no images and no commands.
pub open spec fn default_capabilities() -> AcpCapabilities {
    AcpCapabilities {
        prompts: PromptCapabilities { text: true, image: false, file: true },
        tools: true,
        filesystem: true,
        commands: false,
    }
}

impl Default for AcpCapabilities {
    fn default() -> (r: Self)
        ensures
            r == default_capabilities(),
    {
        AcpCapabilities {
            prompts: PromptCapabilities { text: true, image: false, file: true },
            tools: true,
            filesystem: true,
            commands: false,
        }
    }
}


#[derive(Debug)]
pub struct FileChange {
    pub path: String,
    pub operation: FileOperation,
    pub diff: String,
}

pub struct FileChangeView {
    pub path: Seq<char>,
    pub operation: FileOperation,
    pub diff: Seq<char>,
}

impl View for FileChange {
    type V = FileChangeView;

    open spec fn view(&self) -> FileChangeView {
        FileChangeView { path: self.path@, operation: self.operation, diff: self.diff@ }
    }
}

impl Clone for FileChange {
    fn clone(&self) -> (r: Self)
        ensures
            r@ == self@,
    {
        FileChange { path: self.path.clone(), operation: self.operation, diff: self.diff.clone() }
    }
}

/// The views of the items of a vector of file changes.
pub open spec fn files_view(v: Seq<FileChange>) -> Seq<FileChangeView> {
    v.map_values(|f: FileChange| f@)
}

/// The notification carried by a session event, as it travels on the ACP wire.
#[derive(Debug)]
pub enum EventPayload {
    /// `{"method": "session/prompt", "params": {"prompt": [{"type": "text", "text": text}]}}`
    Prompt { text: String },
    /// `{"method": "notifications/session/cancel", "params": {"sessionId": session_id}}`
    Cancel { session_id: String },
}

pub enum PayloadView {
    Prompt { text: Seq<char> },
    Cancel { session_id: Seq<char> },
}

impl View for EventPayload {
    type V = PayloadView;

    open spec fn view(&self) -> PayloadView {
        match self {
            EventPayload::Prompt { text } => PayloadView::Prompt { text: text@ },
            EventPayload::Cancel { session_id } => PayloadView::Cancel { session_id: session_id@ },
        }
    }
}

impl Clone for EventPayload {
    fn clone(&self) -> (r: Self)
        ensures
            r@ == self@,
    {
        match self {
            EventPayload::Prompt { text } => EventPayload::Prompt { text: text.clone() },
            EventPayload::Cancel { session_id } => EventPayload::Cancel {
                session_id: session_id.clone(),
            },
        }
    }
}

/// One entry of a session's audit trail.
#[derive(Debug)]
pub struct SessionEvent {
    pub id: String,
    pub event_type: String,
    pub payload: EventPayload,
    pub timestamp: Timestamp,
}

pub struct EventView {
    pub id: Seq<char>,
    pub event_type: Seq<char>,
    pub payload: PayloadView,
    pub timestamp: Timestamp,
}

impl View for SessionEvent {
    type V = EventView;

    open spec fn view(&self) -> EventView {
        EventView {
            id: self.id@,
            event_type: self.event_type@,
            payload: self.payload@,
            timestamp: self.timestamp,
        }
    }
}

impl Clone for SessionEvent {
    fn clone(&self) -> (r: Self)
        ensures
            r@ == self@,
    {
        SessionEvent {
            id: self.id.clone(),
            event_type: self.event_type.clone(),
            payload: self.payload.clone(),
            timestamp: self.timestamp,
        }
    }
}

/// The views of the items of a vector of events.
pub open spec fn events_view(v: Seq<SessionEvent>) -> Seq<EventView> {
    v.map_values(|e: SessionEvent| e@)
}

#[derive(Debug)]
pub struct Permission {
    pub id: String,
    pub permission_type: PermissionType,
    pub path: Option<String>,
    pub command: Option<String>,
    pub decision: PermissionDecision,
    pub reason: Option<String>,
    pub decided_at: Option<Timestamp>,
}

pub struct PermissionView {
    pub id: Seq<char>,
    pub permission_type: PermissionType,
    pub path: Option<Seq<char>>,
    pub command: Option<Seq<char>>,
    pub decision: PermissionDecision,
    pub reason: Option<Seq<char>>,
    pub decided_at: Option<Timestamp>,
}

impl View for Permission {
    type V = PermissionView;

    open spec fn view(&self) -> PermissionView {
        PermissionView {
            id: self.id@,
            permission_type: self.permission_type,
            path: opt_view(self.path),
            command: opt_view(self.command),
            decision: self.decision,
            reason: opt_view(self.reason),
            decided_at: self.decided_at,
        }
    }
}

impl Clone for Permission {
    fn clone(&self) -> (r: Self)
        ensures
            r@ == self@,
    {
        Permission {
            id: self.id.clone(),
            permission_type: self.permission_type,
            path: clone_opt(&self.path),
            command: clone_opt(&self.command),
            decision: self.decision,
            reason: clone_opt(&self.reason),
            decided_at: self.decided_at,
        }
    }
}

/// The views of the items of a vector of permissions.
pub open spec fn permissions_view(v: Seq<Permission>) -> Seq<PermissionView> {
    v.map_values(|p: Permission| p@)
}

/// File changes proposed during a session, gathered for review.
#[derive(Debug)]
pub struct Patch {
    pub id: String,
    pub session_id: String,
    pub files: Vec<FileChange>,
    pub status: PatchStatus,
    pub review_notes: Option<String>,
    pub created_at: Timestamp,
}

pub struct PatchView {
    pub id: Seq<char>,
    pub session_id: Seq<char>,
    pub files: Seq<FileChangeView>,
    pub status: PatchStatus,
    pub review_notes: Option<Seq<char>>,
    pub created_at: Timestamp,
}

impl View for Patch {
    type V = PatchView;

    open spec fn view(&self) -> PatchView {
        PatchView {
            id: self.id@,
            session_id: self.session_id@,
            files: files_view(self.files@),
            status: self.status,
            review_notes: opt_view(self.review_notes),
            created_at: self.created_at,
        }
    }
}

/// Clones a vector of file changes, keeping its view.
pub fn clone_files(v: &Vec<FileChange>) -> (r: Vec<FileChange>)
    ensures
        files_view(r@) == files_view(v@),
{
    let r = v.clone();
    assert(files_view(r@) =~= files_view(v@));
    r
}

impl Clone for Patch {
    fn clone(&self) -> (r: Self)
        ensures
            r@ == self@,
    {
        Patch {
            id: self.id.clone(),
            session_id: self.session_id.clone(),
            files: clone_files(&self.files),
            status: self.status,
            review_notes: clone_opt(&self.review_notes),
            created_at: self.created_at,
        }
    }
}

/// The views of the items of a vector of patches.
pub open spec fn patches_view(v: Seq<Patch>) -> Seq<PatchView> {
    v.map_values(|p: Patch| p@)
}


/// Clones a vector of permissions, keeping its view.
pub fn clone_permissions(v: &Vec<Permission>) -> (r: Vec<Permission>)
    ensures
        permissions_view(r@) == permissions_view(v@),
{
    let r = v.clone();
    assert(permissions_view(r@) =~= permissions_view(v@));
    r
}

/// Clones a vector of events, keeping its view.
pub fn clone_events(v: &Vec<SessionEvent>) -> (r: Vec<SessionEvent>)
    ensures
        events_view(r@) == events_view(v@),
{
    let r = v.clone();
    assert(events_view(r@) =~= events_view(v@));
    r
}

/// Clones a vector of patches, keeping its view.
pub fn clone_patches(v: &Vec<Patch>) -> (r: Vec<Patch>)
    ensures
        patches_view(r@) == patches_view(v@),
{
    let r = v.clone();
    assert(patches_view(r@) =~= patches_view(v@));
    r
}

#[derive(Debug)]
pub struct AcpSession {
    pub id: String,
    pub connection_id: String,
    pub workspace: String,
    pub status: SessionStatus,
    pub permissions: Vec<Permission>,
    pub patches: Vec<Patch>,
    pub events: Vec<SessionEvent>,
    pub created_at: Timestamp,
    pub updated_at: Timestamp,
}

pub struct SessionView {
    pub id: Seq<char>,
    pub connection_id: Seq<char>,
    pub workspace: Seq<char>,
    pub status: SessionStatus,
    pub permissions: Seq<PermissionView>,
    pub patches: Seq<PatchView>,
    pub events: Seq<EventView>,
    pub created_at: Timestamp,
    pub updated_at: Timestamp,
}

impl View for AcpSession {
    type V = SessionView;

    open spec fn view(&self) -> SessionView {
        SessionView {
            id: self.id@,
            connection_id: self.connection_id@,
            workspace: self.workspace@,
            status: self.status,
            permissions: permissions_view(self.permissions@),
            patches: patches_view(self.patches@),
            events: events_view(self.events@),
            created_at: self.created_at,
            updated_at: self.updated_at,
        }
    }
}

impl Clone for AcpSession {
    fn clone(&self) -> (r: Self)
        ensures
            r@ == self@,
    {
        AcpSession {
            id: self.id.clone(),
            connection_id: self.connection_id.clone(),
            workspace: self.workspace.clone(),
            status: self.status,
            permissions: clone_permissions(&self.permissions),
            patches: clone_patches(&self.patches),
            events: clone_events(&self.events),
            created_at: self.created_at,
            updated_at: self.updated_at,
        }
    }
}

#[derive(Debug)]
pub struct AcpConnection {
    pub id: String,
    pub name: String,
    pub connection_type: ConnectionType,
    pub transport: AcpTransport,
    pub command: Option<String>,
    pub url: Option<String>,
    pub protocol_version: String,
    pub capabilities: AcpCapabilities,
    pub status: ConnectionStatus,
    pub workspace: Option<String>,
    pub created_at: Timestamp,
}

pub struct ConnectionView {
    pub id: Seq<char>,
    pub name: Seq<char>,
    pub connection_type: ConnectionType,
    pub transport: AcpTransport,
    pub command: Option<Seq<char>>,
    pub url: Option<Seq<char>>,
    pub protocol_version: Seq<char>,
    pub capabilities: AcpCapabilities,
    pub status: ConnectionStatus,
    pub workspace: Option<Seq<char>>,
    pub created_at: Timestamp,
}

impl View for AcpConnection {
    type V = ConnectionView;

    open spec fn view(&self) -> ConnectionView {
        ConnectionView {
            id: self.id@,
            name: self.name@,
            connection_type: self.connection_type,
            transport: self.transport,
            command: opt_view(self.command),
            url: opt_view(self.url),
            protocol_version: self.protocol_version@,
            capabilities: self.capabilities,
            status: self.status,
            workspace: opt_view(self.workspace),
            created_at: self.created_at,
        }
    }
}

impl Clone for AcpConnection {
    fn clone(&self) -> (r: Self)
        ensures
            r@ == self@,
    {
        AcpConnection {
            id: self.id.clone(),
            name: self.name.clone(),
            connection_type: self.connection_type,
            transport: self.transport,
            command: clone_opt(&self.command),
            url: clone_opt(&self.url),
            protocol_version: self.protocol_version.clone(),
            capabilities: self.capabilities,
            status: self.status,
            workspace: clone_opt(&self.workspace),
            created_at: self.created_at,
        }
    }
}

/// An agent of this platform published as an ACP server.
#[derive(Debug)]
pub struct ExposedAgent {
    pub id: String,
    pub agent_name: String,
    pub acp_server_name: String,
    pub transport: AcpTransport,
    pub bind_addr: Option<String>,
    pub protocol_version: String,
    pub status: ConnectionStatus,
    pub created_at: Timestamp,
}

pub struct ExposedAgentView {
    pub id: Seq<char>,
    pub agent_name: Seq<char>,
    pub acp_server_name: Seq<char>,
    pub transport: AcpTransport,
    pub bind_addr: Option<Seq<char>>,
    pub protocol_version: Seq<char>,
    pub status: ConnectionStatus,
    pub created_at: Timestamp,
}

impl View for ExposedAgent {
    type V = ExposedAgentView;

    open spec fn view(&self) -> ExposedAgentView {
        ExposedAgentView {
            id: self.id@,
            agent_name: self.agent_name@,
            acp_server_name: self.acp_server_name@,
            transport: self.transport,
            bind_addr: opt_view(self.bind_addr),
            protocol_version: self.protocol_version@,
            status: self.status,
            created_at: self.created_at,
        }
    }
}

impl Clone for ExposedAgent {
    fn clone(&self) -> (r: Self)
        ensures
            r@ == self@,
    {
        ExposedAgent {
            id: self.id.clone(),
            agent_name: self.agent_name.clone(),
            acp_server_name: self.acp_server_name.clone(),
            transport: self.transport,
            bind_addr: clone_opt(&self.bind_addr),
            protocol_version: self.protocol_version.clone(),
            status: self.status,
            created_at: self.created_at,
        }
    }
}

/// The views of the items of a vector of connections.
pub open spec fn connections_view(v: Seq<AcpConnection>) -> Seq<ConnectionView> {
    v.map_values(|c: AcpConnection| c@)
}

/// The views of the items of a vector of exposed agents.
pub open spec fn agents_view(v: Seq<ExposedAgent>) -> Seq<ExposedAgentView> {
    v.map_values(|a: ExposedAgent| a@)
}


impl Keyed for AcpConnection {
    open spec fn key(&self) -> Seq<char> {
        self.id@
    }

    fn id_ref(&self) -> (r: &String) {
        &self.id
    }
}

impl Keyed for AcpSession {
    open spec fn key(&self) -> Seq<char> {
        self.id@
    }

    fn id_ref(&self) -> (r: &String) {
        &self.id
    }
}

impl Keyed for Permission {
    open spec fn key(&self) -> Seq<char> {
        self.id@
    }

    fn id_ref(&self) -> (r: &String) {
        &self.id
    }
}

impl Keyed for Patch {
    open spec fn key(&self) -> Seq<char> {
        self.id@
    }

    fn id_ref(&self) -> (r: &String) {
        &self.id
    }
}

} // verus!
