//! The store of connections, sessions and exposed agents.
//!
//! Each operation comes in two forms. The one named after the operation draws
//! a random id and reads the clock; the one ending in `_with` takes the UUID
//! text and the time as arguments and is specified exactly by the matching
//! function of `model`.
use crate::sources::{is_prefixed_uuid, lemma_prefixed_uuid, random_uuid_simple, utc_now};
use crate::model;
use crate::model::StoreView;
use crate::table::{
    find_by_key, keyed_map, keys_unique, lemma_first_is_unique, lemma_keyed_index,
    lemma_keyed_push, lemma_keyed_update, Keyed,
};
use crate::text::{join, status_text};
use crate::types::{
    agents_view, connections_view, events_view, files_view, opt_view, patches_view,
    permissions_view, clone_events, clone_patches, EventPayload, EventView, FileChange, Patch,
    PatchStatus, PatchView, Permission, PermissionDecision, PermissionType, SessionEvent, AcpCapabilities, AcpConnection, AcpSession,
    AcpTransport, ConnectionStatus, ConnectionType, ExposedAgent, SessionStatus, Timestamp,
};
use vstd::prelude::*;

verus! {

/// The view of an answer that is a list of events or a message.
pub open spec fn events_result_view(r: Result<Vec<SessionEvent>, String>) -> Result<
    Seq<EventView>,
    Seq<char>,
> {
    match r {
        Ok(v) => Ok(events_view(v@)),
        Err(e) => Err(e@),
    }
}

/// The view of an answer that is a list of patches or a message.
pub open spec fn patches_result_view(r: Result<Vec<Patch>, String>) -> Result<
    Seq<PatchView>,
    Seq<char>,
> {
    match r {
        Ok(v) => Ok(patches_view(v@)),
        Err(e) => Err(e@),
    }
}

/// The view of an answer that is a record or a message.
pub open spec fn result_view<T: View>(r: Result<T, String>) -> Result<T::V, Seq<char>> {
    match r {
        Ok(v) => Ok(v@),
        Err(e) => Err(e@),
    }
}

pub struct AcpStore {
    connections: Vec<AcpConnection>,
    sessions: Vec<AcpSession>,
    exposed_agents: Vec<ExposedAgent>,
}

impl View for AcpStore {
    type V = StoreView;

    closed spec fn view(&self) -> StoreView {
        StoreView {
            connections: keyed_map(self.connections@),
            sessions: keyed_map(self.sessions@),
            exposed_agents: agents_view(self.exposed_agents@),
        }
    }
}

impl AcpStore {
    /// No two connections and no two sessions share an id.
    #[verifier::type_invariant]
    closed spec fn ids_distinct(&self) -> bool {
        &&& keys_unique(self.connections@)
        &&& keys_unique(self.sessions@)
    }

    /// An empty store.
    pub fn new() -> (s: Self)
        ensures
            s@ == model::empty_store(),
    {
        let s = AcpStore { connections: Vec::new(), sessions: Vec::new(), exposed_agents: Vec::new() };
        assert(s@.connections =~= Map::empty());
        assert(s@.sessions =~= Map::empty());
        assert(s@.exposed_agents =~= Seq::empty());
        s
    }

    /// Stores a connection under its id, replacing one with the same id.
    fn put_connection(&mut self, c: AcpConnection)
        ensures
            final(self)@ == model::register_connection(old(self)@, c@),
    {
        proof {
            use_type_invariant(&*self);
        }
        let mut items = Vec::new();
        std::mem::swap(&mut items, &mut self.connections);
        match find_by_key(&items, &c.id) {
            Some(i) => {
                proof {
                    lemma_keyed_update(items@, i as int, c);
                }
                items.set(i, c);
            },
            None => {
                proof {
                    lemma_keyed_push(items@, c);
                }
                items.push(c);
            },
        }
        self.connections = items;
    }

    /// Stores a session under its id, replacing one with the same id.
    fn put_session(&mut self, s: AcpSession)
        ensures
            final(self)@ == model::put_session(old(self)@, s@.id, s@),
    {
        proof {
            use_type_invariant(&*self);
        }
        let mut items = Vec::new();
        std::mem::swap(&mut items, &mut self.sessions);
        match find_by_key(&items, &s.id) {
            Some(i) => {
                proof {
                    lemma_keyed_update(items@, i as int, s);
                }
                items.set(i, s);
            },
            None => {
                proof {
                    lemma_keyed_push(items@, s);
                }
                items.push(s);
            },
        }
        self.sessions = items;
    }

    /// Registers a connection whose id is `acp_` followed by `uuid`.
    pub fn register_connection_with(
        &mut self,
        name: String,
        connection_type: ConnectionType,
        transport: AcpTransport,
        command: Option<String>,
        url: Option<String>,
        workspace: Option<String>,
        uuid: &str,
        now: Timestamp,
    ) -> (c: AcpConnection)
        ensures
            c@ == model::new_connection(
                "acp_"@ + uuid@,
                now,
                name@,
                connection_type,
                transport,
                opt_view(command),
                opt_view(url),
                opt_view(workspace),
            ),
            final(self)@ == model::register_connection(old(self)@, c@),
    {
        let conn = AcpConnection {
            id: join("acp_", uuid),
            name,
            connection_type,
            transport,
            command,
            url,
            protocol_version: "0.1".to_owned(),
            capabilities: AcpCapabilities::default(),
            status: ConnectionStatus::Connected,
            workspace,
            created_at: now,
        };
        let c = conn.clone();
        self.put_connection(conn);
        c
    }

    /// Registers a connection under a random id `acp_…`.
    pub fn register_connection(
        &mut self,
        name: String,
        connection_type: ConnectionType,
        transport: AcpTransport,
        command: Option<String>,
        url: Option<String>,
        workspace: Option<String>,
    ) -> (c: AcpConnection)
        ensures
            is_prefixed_uuid("acp_"@, c@.id),
            model::is_clock_reading(c@.created_at),
            c@ == model::new_connection(
                c@.id,
                c@.created_at,
                name@,
                connection_type,
                transport,
                opt_view(command),
                opt_view(url),
                opt_view(workspace),
            ),
            final(self)@ == model::register_connection(old(self)@, c@),
    {
        let u = random_uuid_simple();
        let now = utc_now();
        proof {
            lemma_prefixed_uuid("acp_"@, u@);
        }
        self.register_connection_with(
            name,
            connection_type,
            transport,
            command,
            url,
            workspace,
            u.as_str(),
            now,
        )
    }

    /// Opens a session, with id `sess_` followed by `uuid`, on a registered
    /// connection.
    pub fn create_session_with(
        &mut self,
        connection_id: &str,
        workspace: &str,
        uuid: &str,
        now: Timestamp,
    ) -> (r: Result<AcpSession, String>)
        ensures
            (final(self)@, result_view(r)) == model::create_session(
                old(self)@,
                connection_id@,
                workspace@,
                "sess_"@ + uuid@,
                now,
            ),
    {
        proof {
            use_type_invariant(&*self);
        }
        let cid = connection_id.to_owned();
        match find_by_key(&self.connections, &cid) {
            None => {
                return Err(join("Connection not found: ", connection_id));
            },
            Some(i) => {
                proof {
                    lemma_keyed_index(self.connections@, i as int);
                }
            },
        }
        let session = AcpSession {
            id: join("sess_", uuid),
            connection_id: cid,
            workspace: workspace.to_owned(),
            status: SessionStatus::Active,
            permissions: Vec::new(),
            patches: Vec::new(),
            events: Vec::new(),
            created_at: now,
            updated_at: now,
        };
        proof {
            assert(session@.permissions =~= Seq::empty());
            assert(session@.patches =~= Seq::empty());
            assert(session@.events =~= Seq::empty());
        }
        let r = session.clone();
        self.put_session(session);
        Ok(r)
    }

    /// Each connection and each session of a store is kept under its own id.
    pub proof fn lemma_ids_match(&self)
        ensures
            model::ids_match(self@),
    {
        let cs = self.connections@;
        let ss = self.sessions@;
        assert forall|k: Seq<char>| #[trigger] self@.connections.contains_key(k) implies self@.connections[k].id
            == k by {
            let i = crate::table::index_of_key(cs, k);
            assert(cs[i].key() == k);
        }
        assert forall|k: Seq<char>| #[trigger] self@.sessions.contains_key(k) implies self@.sessions[k].id
            == k by {
            let i = crate::table::index_of_key(ss, k);
            assert(ss[i].key() == k);
        }
    }

    /// The workspace of the session with the given id.
    pub fn session_workspace(&self, session_id: &str) -> (r: Option<String>)
        ensures
            match r {
                Some(w) => self@.sessions.contains_key(session_id@) && w@
                    == self@.sessions[session_id@].workspace,
                None => !self@.sessions.contains_key(session_id@),
            },
    {
        let sid = session_id.to_owned();
        match self.find_session(&sid) {
            None => None,
            Some(i) => Some(self.sessions[i].workspace.clone()),
        }
    }

    /// Finds the session with the given id.
    fn find_session(&self, id: &String) -> (r: Option<usize>)
        ensures
            match r {
                Some(i) => {
                    &&& i < self.sessions@.len()
                    &&& self@.sessions.contains_key(id@)
                    &&& self@.sessions[id@] == self.sessions@[i as int]@
                    &&& self.sessions@[i as int].id@ == id@
                },
                None => !self@.sessions.contains_key(id@),
            },
    {
        proof {
            use_type_invariant(self);
        }
        let r = find_by_key(&self.sessions, id);
        proof {
            if let Some(i) = r {
                lemma_first_is_unique(self.sessions@, id@, i as int);
            }
        }
        r
    }

    /// Records a prompt, with event id `evt_` followed by `uuid`, on an
    /// active session.
    pub fn send_prompt_with(&mut self, session_id: &str, prompt: &str, uuid: &str, now: Timestamp) -> (r:
        Result<SessionEvent, String>)
        ensures
            (final(self)@, result_view(r)) == model::send_prompt(
                old(self)@,
                session_id@,
                prompt@,
                "evt_"@ + uuid@,
                now,
            ),
    {
        proof {
            use_type_invariant(&*self);
        }
        let sid = session_id.to_owned();
        let i = match self.find_session(&sid) {
            None => {
                return Err(join("Session not found: ", session_id));
            },
            Some(i) => i,
        };
        let status = self.sessions[i].status;
        if status != SessionStatus::Active {
            return Err(join("Session not active: ", status_text(status)));
        }
        let event = SessionEvent {
            id: join("evt_", uuid),
            event_type: "session/prompt".to_owned(),
            payload: EventPayload::Prompt { text: prompt.to_owned() },
            timestamp: now,
        };
        let r = event.clone();
        let mut items = Vec::new();
        std::mem::swap(&mut items, &mut self.sessions);
        let ghost before = items@;
        items[i].events.push(event);
        items[i].updated_at = now;
        proof {
            assert(items@ =~= before.update(i as int, items@[i as int]));
            assert(items@[i as int]@.events =~= before[i as int]@.events.push(r@));
            lemma_keyed_update(before, i as int, items@[i as int]);
        }
        self.sessions = items;
        Ok(r)
    }

    /// The events recorded for a session.
    pub fn get_events(&self, session_id: &str) -> (r: Result<Vec<SessionEvent>, String>)
        ensures
            events_result_view(r) == model::get_events(self@, session_id@),
    {
        let sid = session_id.to_owned();
        match self.find_session(&sid) {
            None => Err(join("Session not found: ", session_id)),
            Some(i) => Ok(clone_events(&self.sessions[i].events)),
        }
    }

    /// The patches proposed in a session.
    pub fn get_patches(&self, session_id: &str) -> (r: Result<Vec<Patch>, String>)
        ensures
            patches_result_view(r) == model::get_patches(self@, session_id@),
    {
        let sid = session_id.to_owned();
        match self.find_session(&sid) {
            None => Err(join("Session not found: ", session_id)),
            Some(i) => Ok(clone_patches(&self.sessions[i].patches)),
        }
    }

    /// Records a pending permission request, with id `perm_` followed by
    /// `uuid`, in a session.
    pub fn add_permission_request_with(
        &mut self,
        session_id: &str,
        permission_type: PermissionType,
        path: Option<String>,
        command: Option<String>,
        uuid: &str,
        now: Timestamp,
    ) -> (r: Result<Permission, String>)
        ensures
            (final(self)@, result_view(r)) == model::add_permission_request(
                old(self)@,
                session_id@,
                permission_type,
                opt_view(path),
                opt_view(command),
                "perm_"@ + uuid@,
                now,
            ),
    {
        proof {
            use_type_invariant(&*self);
        }
        let sid = session_id.to_owned();
        let i = match self.find_session(&sid) {
            None => {
                return Err(join("Session not found: ", session_id));
            },
            Some(i) => i,
        };
        let perm = Permission {
            id: join("perm_", uuid),
            permission_type,
            path,
            command,
            decision: PermissionDecision::Pending,
            reason: None,
            decided_at: None,
        };
        let r = perm.clone();
        let mut items = Vec::new();
        std::mem::swap(&mut items, &mut self.sessions);
        let ghost before = items@;
        items[i].permissions.push(perm);
        items[i].updated_at = now;
        proof {
            assert(items@ =~= before.update(i as int, items@[i as int]));
            assert(items@[i as int]@.permissions =~= before[i as int]@.permissions.push(r@));
            lemma_keyed_update(before, i as int, items@[i as int]);
        }
        self.sessions = items;
        Ok(r)
    }

    /// Decides the first permission of a session that has the given id.
    pub fn decide_permission_with(
        &mut self,
        session_id: &str,
        permission_id: &str,
        decision: PermissionDecision,
        reason: Option<String>,
        now: Timestamp,
    ) -> (r: Result<Permission, String>)
        ensures
            (final(self)@, result_view(r)) == model::decide_permission(
                old(self)@,
                session_id@,
                permission_id@,
                decision,
                opt_view(reason),
                now,
            ),
    {
        proof {
            use_type_invariant(&*self);
        }
        let sid = session_id.to_owned();
        let i = match self.find_session(&sid) {
            None => {
                return Err(join("Session not found: ", session_id));
            },
            Some(i) => i,
        };
        let pid = permission_id.to_owned();
        let ghost perms = permissions_view(self.sessions@[i as int].permissions@);
        let j = match find_by_key(&self.sessions[i].permissions, &pid) {
            None => {
                proof {
                    assert forall|k: int| 0 <= k < perms.len() implies #[trigger] perms[k].id
                        != pid@ by {
                        assert(perms[k].id == self.sessions@[i as int].permissions@[k].key());
                    }
                    model::lemma_find_permission_none(perms, pid@);
                }
                return Err(join("Permission not found: ", permission_id));
            },
            Some(j) => j,
        };
        proof {
            assert forall|k: int| 0 <= k < j implies #[trigger] perms[k].id != pid@ by {
                assert(perms[k].id == self.sessions@[i as int].permissions@[k].key());
            }
            model::lemma_find_permission(perms, pid@, j as int);
        }
        let mut items = Vec::new();
        std::mem::swap(&mut items, &mut self.sessions);
        let ghost before = items@;
        items[i].permissions[j].decision = decision;
        items[i].permissions[j].reason = reason;
        items[i].permissions[j].decided_at = Some(now);
        items[i].updated_at = now;
        let r = items[i].permissions[j].clone();
        proof {
            assert(items@ =~= before.update(i as int, items@[i as int]));
            assert(items@[i as int]@.permissions =~= perms.update(j as int, r@));
            lemma_keyed_update(before, i as int, items@[i as int]);
        }
        self.sessions = items;
        Ok(r)
    }

    /// Records a proposed patch, with id `patch_` followed by `uuid`, in a
    /// session.
    pub fn add_patch_with(
        &mut self,
        session_id: &str,
        files: Vec<FileChange>,
        uuid: &str,
        now: Timestamp,
    ) -> (r: Result<Patch, String>)
        ensures
            (final(self)@, result_view(r)) == model::add_patch(
                old(self)@,
                session_id@,
                files_view(files@),
                "patch_"@ + uuid@,
                now,
            ),
    {
        proof {
            use_type_invariant(&*self);
        }
        let sid = session_id.to_owned();
        let i = match self.find_session(&sid) {
            None => {
                return Err(join("Session not found: ", session_id));
            },
            Some(i) => i,
        };
        let patch = Patch {
            id: join("patch_", uuid),
            session_id: sid,
            files,
            status: PatchStatus::Proposed,
            review_notes: None,
            created_at: now,
        };
        let r = patch.clone();
        let mut items = Vec::new();
        std::mem::swap(&mut items, &mut self.sessions);
        let ghost before = items@;
        items[i].patches.push(patch);
        items[i].updated_at = now;
        proof {
            assert(items@ =~= before.update(i as int, items@[i as int]));
            assert(items@[i as int]@.patches =~= before[i as int]@.patches.push(r@));
            lemma_keyed_update(before, i as int, items@[i as int]);
        }
        self.sessions = items;
        Ok(r)
    }

    /// Sets the status and the review notes of the first patch of a session
    /// that has the given id.
    pub fn review_patch_with(
        &mut self,
        session_id: &str,
        patch_id: &str,
        status: PatchStatus,
        notes: Option<String>,
        now: Timestamp,
    ) -> (r: Result<Patch, String>)
        ensures
            (final(self)@, result_view(r)) == model::review_patch(
                old(self)@,
                session_id@,
                patch_id@,
                status,
                opt_view(notes),
                now,
            ),
    {
        proof {
            use_type_invariant(&*self);
        }
        let sid = session_id.to_owned();
        let i = match self.find_session(&sid) {
            None => {
                return Err(join("Session not found: ", session_id));
            },
            Some(i) => i,
        };
        let pid = patch_id.to_owned();
        let ghost patches = patches_view(self.sessions@[i as int].patches@);
        let j = match find_by_key(&self.sessions[i].patches, &pid) {
            None => {
                proof {
                    assert forall|k: int| 0 <= k < patches.len() implies #[trigger] patches[k].id
                        != pid@ by {
                        assert(patches[k].id == self.sessions@[i as int].patches@[k].key());
                    }
                    model::lemma_find_patch_none(patches, pid@);
                }
                return Err(join("Patch not found: ", patch_id));
            },
            Some(j) => j,
        };
        proof {
            assert forall|k: int| 0 <= k < j implies #[trigger] patches[k].id != pid@ by {
                assert(patches[k].id == self.sessions@[i as int].patches@[k].key());
            }
            model::lemma_find_patch(patches, pid@, j as int);
        }
        let mut items = Vec::new();
        std::mem::swap(&mut items, &mut self.sessions);
        let ghost before = items@;
        items[i].patches[j].status = status;
        items[i].patches[j].review_notes = notes;
        items[i].updated_at = now;
        let r = items[i].patches[j].clone();
        proof {
            assert(items@ =~= before.update(i as int, items@[i as int]));
            assert(items@[i as int]@.patches =~= patches.update(j as int, r@));
            lemma_keyed_update(before, i as int, items@[i as int]);
        }
        self.sessions = items;
        Ok(r)
    }

    /// Cancels a session and records the cancellation, with event id `evt_`
    /// followed by `uuid`; answers the session as it is afterwards.
    pub fn terminate_session_with(&mut self, session_id: &str, uuid: &str, now: Timestamp) -> (r:
        Result<AcpSession, String>)
        ensures
            (final(self)@, result_view(r)) == model::terminate_session(
                old(self)@,
                session_id@,
                "evt_"@ + uuid@,
                now,
            ),
            r matches Ok(sess) ==> sess@.id == session_id@,
    {
        proof {
            use_type_invariant(&*self);
            self.lemma_ids_match();
        }
        let sid = session_id.to_owned();
        let i = match self.find_session(&sid) {
            None => {
                return Err(join("Session not found: ", session_id));
            },
            Some(i) => i,
        };
        let event = SessionEvent {
            id: join("evt_", uuid),
            event_type: "session/cancel".to_owned(),
            payload: EventPayload::Cancel { session_id: sid },
            timestamp: now,
        };
        let ghost e = event@;
        let mut items = Vec::new();
        std::mem::swap(&mut items, &mut self.sessions);
        let ghost before = items@;
        items[i].status = SessionStatus::Cancelled;
        items[i].events.push(event);
        items[i].updated_at = now;
        let r = items[i].clone();
        proof {
            assert(items@ =~= before.update(i as int, items@[i as int]));
            assert(items@[i as int]@.events =~= before[i as int]@.events.push(e));
            lemma_keyed_update(before, i as int, items@[i as int]);
        }
        self.sessions = items;
        Ok(r)
    }

    /// Publishes an agent, with id `exposed_` followed by `uuid`.
    pub fn expose_agent_with(
        &mut self,
        agent_name: &str,
        acp_server_name: &str,
        transport: AcpTransport,
        bind_addr: Option<String>,
        uuid: &str,
        now: Timestamp,
    ) -> (a: ExposedAgent)
        ensures
            a@ == model::new_exposed_agent(
                "exposed_"@ + uuid@,
                now,
                agent_name@,
                acp_server_name@,
                transport,
                opt_view(bind_addr),
            ),
            final(self)@ == model::expose_agent(old(self)@, a@),
    {
        proof {
            use_type_invariant(&*self);
        }
        let agent = ExposedAgent {
            id: join("exposed_", uuid),
            agent_name: agent_name.to_owned(),
            acp_server_name: acp_server_name.to_owned(),
            transport,
            bind_addr,
            protocol_version: "0.1".to_owned(),
            status: ConnectionStatus::Connected,
            created_at: now,
        };
        let a = agent.clone();
        let mut agents = Vec::new();
        std::mem::swap(&mut agents, &mut self.exposed_agents);
        agents.push(agent);
        self.exposed_agents = agents;
        proof {
            assert(self@.exposed_agents =~= old(self)@.exposed_agents.push(a@));
        }
        a
    }

    /// Every registered connection, each once.
    pub fn list_connections(&self) -> (r: Vec<AcpConnection>)
        ensures
            model::lists_connections(self@.connections, connections_view(r@)),
    {
        proof {
            use_type_invariant(self);
        }
        let r = self.connections.clone();
        let ghost l = connections_view(r@);
        let ghost s = self.connections@;
        proof {
            assert forall|i: int| 0 <= i < l.len() implies #[trigger] self@.connections.contains_key(
                l[i].id,
            ) && self@.connections[l[i].id] == l[i] by {
                lemma_keyed_index(s, i);
            }
            assert forall|k: Seq<char>| #[trigger] self@.connections.contains_key(k) implies exists|
                i: int,
            | 0 <= i < l.len() && l[i].id == k by {
                let i = choose|i: int| 0 <= i < s.len() && #[trigger] s[i].key() == k;
                assert(l[i].id == k);
            }
            assert forall|i: int, j: int|
                0 <= i < l.len() && 0 <= j < l.len() && #[trigger] l[i].id == #[trigger] l[j].id
                implies i == j by {
                assert(s[i].key() == s[j].key());
            }
        }
        r
    }

    /// The published agents, in the order they were published.
    pub fn list_exposed_agents(&self) -> (r: Vec<ExposedAgent>)
        ensures
            agents_view(r@) == self@.exposed_agents,
    {
        let r = self.exposed_agents.clone();
        proof {
            assert(agents_view(r@) =~= agents_view(self.exposed_agents@));
        }
        r
    }

    /// Opens a session, under a random id `sess_…`, on a registered connection.
    pub fn create_session(
        &mut self,
        connection_id: &str,
        workspace: &str,
    ) -> (r: Result<AcpSession, String>)
        ensures
            exists|id: Seq<char>, now: Timestamp|
                model::is_clock_reading(now) && is_prefixed_uuid("sess_"@, id) && #[trigger] model::create_session(
                    old(self)@,
                    connection_id@,
                    workspace@,
                    id,
                    now,
                ) == (final(self)@, result_view(r)),
    {
        let u = random_uuid_simple();
        let now = utc_now();
        let r = self.create_session_with(connection_id, workspace, u.as_str(), now);
        proof {
            lemma_prefixed_uuid("sess_"@, u@);
            let id = "sess_"@ + u@;
            assert(model::create_session(old(self)@, connection_id@, workspace@, id, now) == (self@, result_view(r)));
        }
        r
    }

    /// Records a prompt, under a random event id `evt_…`, on an active session.
    pub fn send_prompt(
        &mut self,
        session_id: &str,
        prompt: &str,
    ) -> (r: Result<SessionEvent, String>)
        ensures
            exists|id: Seq<char>, now: Timestamp|
                model::is_clock_reading(now) && is_prefixed_uuid("evt_"@, id) && #[trigger] model::send_prompt(
                    old(self)@,
                    session_id@,
                    prompt@,
                    id,
                    now,
                ) == (final(self)@, result_view(r)),
    {
        let u = random_uuid_simple();
        let now = utc_now();
        let r = self.send_prompt_with(session_id, prompt, u.as_str(), now);
        proof {
            lemma_prefixed_uuid("evt_"@, u@);
            let id = "evt_"@ + u@;
            assert(model::send_prompt(old(self)@, session_id@, prompt@, id, now) == (self@, result_view(r)));
        }
        r
    }

    /// Records a pending permission request, under a random id `perm_…`, in a
    /// session.
    pub fn add_permission_request(
        &mut self,
        session_id: &str,
        permission_type: PermissionType,
        path: Option<String>,
        command: Option<String>,
    ) -> (r: Result<Permission, String>)
        ensures
            exists|id: Seq<char>, now: Timestamp|
                model::is_clock_reading(now) && is_prefixed_uuid("perm_"@, id) && #[trigger] model::add_permission_request(
                    old(self)@,
                    session_id@,
                    permission_type,
                    opt_view(path),
                    opt_view(command),
                    id,
                    now,
                ) == (final(self)@, result_view(r)),
    {
        let u = random_uuid_simple();
        let now = utc_now();
        let r = self.add_permission_request_with(session_id, permission_type, path, command, u.as_str(), now);
        proof {
            lemma_prefixed_uuid("perm_"@, u@);
            let id = "perm_"@ + u@;
            assert(model::add_permission_request(old(self)@, session_id@, permission_type, opt_view(path), opt_view(command), id, now) == (self@, result_view(r)));
        }
        r
    }

    /// Decides the first permission of a session that has the given id.
    pub fn decide_permission(
        &mut self,
        session_id: &str,
        permission_id: &str,
        decision: PermissionDecision,
        reason: Option<String>,
    ) -> (r: Result<Permission, String>)
        ensures
            exists|now: Timestamp|
                model::is_clock_reading(now) && #[trigger] model::decide_permission(
                    old(self)@,
                    session_id@,
                    permission_id@,
                    decision,
                    opt_view(reason),
                    now,
                ) == (final(self)@, result_view(r)),
    {
        let now = utc_now();
        let r = self.decide_permission_with(session_id, permission_id, decision, reason, now);
        proof {
            assert(model::decide_permission(old(self)@, session_id@, permission_id@, decision, opt_view(reason), now) == (self@, result_view(r)));
        }
        r
    }

    /// Records a proposed patch, under a random id `patch_…`, in a session.
    pub fn add_patch(
        &mut self,
        session_id: &str,
        files: Vec<FileChange>,
    ) -> (r: Result<Patch, String>)
        ensures
            exists|id: Seq<char>, now: Timestamp|
                model::is_clock_reading(now) && is_prefixed_uuid("patch_"@, id) && #[trigger] model::add_patch(
                    old(self)@,
                    session_id@,
                    files_view(files@),
                    id,
                    now,
                ) == (final(self)@, result_view(r)),
    {
        let u = random_uuid_simple();
        let now = utc_now();
        let r = self.add_patch_with(session_id, files, u.as_str(), now);
        proof {
            lemma_prefixed_uuid("patch_"@, u@);
            let id = "patch_"@ + u@;
            assert(model::add_patch(old(self)@, session_id@, files_view(files@), id, now) == (self@, result_view(r)));
        }
        r
    }

    /// Sets the status and the review notes of the first patch of a session
    /// that has the given id.
    pub fn review_patch(
        &mut self,
        session_id: &str,
        patch_id: &str,
        status: PatchStatus,
        notes: Option<String>,
    ) -> (r: Result<Patch, String>)
        ensures
            exists|now: Timestamp|
                model::is_clock_reading(now) && #[trigger] model::review_patch(
                    old(self)@,
                    session_id@,
                    patch_id@,
                    status,
                    opt_view(notes),
                    now,
                ) == (final(self)@, result_view(r)),
    {
        let now = utc_now();
        let r = self.review_patch_with(session_id, patch_id, status, notes, now);
        proof {
            assert(model::review_patch(old(self)@, session_id@, patch_id@, status, opt_view(notes), now) == (self@, result_view(r)));
        }
        r
    }

    /// Cancels a session and records the cancellation under a random event id
    /// `evt_…`.
    /// 
    /// `session/cancel` is a notification on the ACP wire, which has no reply;
    /// the store answers with the session as it is afterwards.
    pub fn terminate_session(
        &mut self,
        session_id: &str,
    ) -> (r: Result<AcpSession, String>)
        ensures
            exists|id: Seq<char>, now: Timestamp|
                model::is_clock_reading(now) && is_prefixed_uuid("evt_"@, id) && #[trigger] model::terminate_session(
                    old(self)@,
                    session_id@,
                    id,
                    now,
                ) == (final(self)@, result_view(r)),
            r matches Ok(sess) ==> sess@.id == session_id@,
    {
        let u = random_uuid_simple();
        let now = utc_now();
        let r = self.terminate_session_with(session_id, u.as_str(), now);
        proof {
            lemma_prefixed_uuid("evt_"@, u@);
            let id = "evt_"@ + u@;
            assert(model::terminate_session(old(self)@, session_id@, id, now) == (self@, result_view(r)));
        }
        r
    }

    /// Publishes an agent under a random id `exposed_…`.
    pub fn expose_agent(
        &mut self,
        agent_name: &str,
        acp_server_name: &str,
        transport: AcpTransport,
        bind_addr: Option<String>,
    ) -> (a: ExposedAgent)
        ensures
            is_prefixed_uuid("exposed_"@, a@.id),
            model::is_clock_reading(a@.created_at),
            a@ == model::new_exposed_agent(
                a@.id,
                a@.created_at,
                agent_name@,
                acp_server_name@,
                transport,
                opt_view(bind_addr),
            ),
            final(self)@ == model::expose_agent(old(self)@, a@),
    {
        let u = random_uuid_simple();
        let now = utc_now();
        proof {
            lemma_prefixed_uuid("exposed_"@, u@);
        }
        self.expose_agent_with(agent_name, acp_server_name, transport, bind_addr, u.as_str(), now)
    }
}

} // verus!
