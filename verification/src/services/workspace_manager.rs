//! Workspace management: creating, updating, deleting and switching
//! workspaces, with limits, unique names and shortcuts, events and counters.
//!
//! Workspaces are kept in the order they were first added. Operations record
//! the events they produce; the caller takes them with `take_events` and
//! hands them to listeners.

use vstd::prelude::*;
use crate::TilleRSError;
use crate::models::workspace::{
    Workspace, WorkspaceCreateRequest, create_request_error, is_validation_error, same_workspace,
    WorkspaceState,
};
use crate::text::{
    owned, push_str, push_decimal, decimal, uuid_string, uuid_text, lowercase, to_lowercase,
    contains_seq, str_contains, str_equal,
};

verus! {

/// Events that can be triggered by workspace operations.
#[derive(Debug, Clone)]
pub enum WorkspaceEvent {
    /// Workspace was created
    WorkspaceCreated { workspace: Workspace },
    /// Workspace was updated
    WorkspaceUpdated { workspace: Workspace },
    /// Workspace was deleted
    WorkspaceDeleted { workspace_id: u128 },
    /// Active workspace changed
    WorkspaceActivated { workspace: Workspace, previous: Option<u128> },
    /// Workspace configuration changed
    ConfigurationChanged { workspace_id: u128 },
}

/// Configuration for workspace manager behavior.
#[derive(Debug, Clone, Copy)]
pub struct WorkspaceManagerConfig {
    /// Maximum number of workspaces allowed
    pub max_workspaces: usize,
    /// Whether to auto-save workspace changes
    pub auto_save: bool,
    /// Auto-save interval in seconds
    pub auto_save_interval: u64,
    /// Whether to restore last active workspace on startup
    pub restore_last_active: bool,
    /// Performance monitoring enabled
    pub performance_monitoring: bool,
}

/// The default configuration.
pub open spec fn default_manager_config() -> WorkspaceManagerConfig {
    WorkspaceManagerConfig {
        max_workspaces: 20,
        auto_save: true,
        auto_save_interval: 30,
        restore_last_active: true,
        performance_monitoring: true,
    }
}

impl Default for WorkspaceManagerConfig {
    fn default() -> (c: Self)
        ensures
            c == default_manager_config(),
    {
        WorkspaceManagerConfig {
            max_workspaces: 20,
            auto_save: true,
            auto_save_interval: 30,
            restore_last_active: true,
            performance_monitoring: true,
        }
    }
}

/// Counters of workspace operations.
#[derive(Debug, Clone, Copy, Default, PartialEq, Eq)]
pub struct WorkspaceMetrics {
    /// Total workspace switch count
    pub switch_count: u64,
    /// Total workspaces created
    pub created_count: u64,
    /// Total workspaces deleted
    pub deleted_count: u64,
    /// Error count
    pub error_count: u64,
}

/// Whether no two workspaces share an identifier.
pub open spec fn ids_unique(s: Seq<Workspace>) -> bool {
    forall|i: int, j: int| 0 <= i < j < s.len() ==> (#[trigger] s[i]).id != (#[trigger] s[j]).id
}

/// Whether some workspace has the identifier.
pub open spec fn has_id(s: Seq<Workspace>, id: u128) -> bool {
    exists|i: int| 0 <= i < s.len() && (#[trigger] s[i]).id == id
}

/// A position of the workspace with the identifier.
pub open spec fn position_of(s: Seq<Workspace>, id: u128) -> int {
    choose|i: int| 0 <= i < s.len() && (#[trigger] s[i]).id == id
}

/// The workspace with the identifier, if any.
pub open spec fn lookup(s: Seq<Workspace>, id: u128) -> Option<Workspace> {
    if has_id(s, id) {
        Some(s[position_of(s, id)])
    } else {
        None
    }
}

/// The list with `w` stored under its identifier: in place of the workspace
/// with that identifier, or added at the end.
pub open spec fn upsert(s: Seq<Workspace>, w: Workspace) -> Seq<Workspace> {
    if has_id(s, w.id) {
        s.update(position_of(s, w.id), w)
    } else {
        s.push(w)
    }
}

/// The list without the workspace with the identifier.
pub open spec fn remove_id(s: Seq<Workspace>, id: u128) -> Seq<Workspace> {
    if has_id(s, id) {
        s.remove(position_of(s, id))
    } else {
        s
    }
}

/// Whether some workspace has the name.
pub open spec fn has_name(s: Seq<Workspace>, name: Seq<char>) -> bool {
    exists|i: int| 0 <= i < s.len() && (#[trigger] s[i]).name@ == name
}

/// Whether some workspace has the shortcut.
pub open spec fn has_shortcut(s: Seq<Workspace>, shortcut: Seq<char>) -> bool {
    exists|i: int| 0 <= i < s.len() && (#[trigger] s[i]).keyboard_shortcut@ == shortcut
}

/// Whether some workspace other than `id` has the name.
pub open spec fn other_has_name(s: Seq<Workspace>, id: u128, name: Seq<char>) -> bool {
    exists|i: int| 0 <= i < s.len() && (#[trigger] s[i]).id != id && s[i].name@ == name
}

/// Whether some workspace other than `id` has the shortcut.
pub open spec fn other_has_shortcut(s: Seq<Workspace>, id: u128, shortcut: Seq<char>) -> bool {
    exists|i: int| 0 <= i < s.len() && (#[trigger] s[i]).id != id && s[i].keyboard_shortcut@ == shortcut
}

/// The list after switching to `id` at `now`: that workspace's last use is now.
pub open spec fn touch(s: Seq<Workspace>, id: u128, now: i64) -> Seq<Workspace> {
    s.update(position_of(s, id), Workspace { last_used: Some(now), ..s[position_of(s, id)] })
}

/// Whether an event is the creation of the given workspace.
pub open spec fn is_created_event(e: WorkspaceEvent, w: Workspace) -> bool {
    e matches WorkspaceEvent::WorkspaceCreated { workspace } && same_workspace(workspace, w)
}

/// Whether an event is the activation of the given workspace.
pub open spec fn is_activated_event(e: WorkspaceEvent, w: Workspace, previous: Option<u128>) -> bool {
    e matches WorkspaceEvent::WorkspaceActivated { workspace, previous: p } && same_workspace(
        workspace,
        w,
    ) && p == previous
}

/// Whether an event is the update of the given workspace.
pub open spec fn is_updated_event(e: WorkspaceEvent, w: Workspace) -> bool {
    e matches WorkspaceEvent::WorkspaceUpdated { workspace } && same_workspace(workspace, w)
}

/// Whether an event is the deletion of the given workspace.
pub open spec fn is_deleted_event(e: WorkspaceEvent, id: u128) -> bool {
    e matches WorkspaceEvent::WorkspaceDeleted { workspace_id } && workspace_id == id
}

/// Room for each counter to grow by one.
pub open spec fn counters_have_room(m: WorkspaceMetrics) -> bool {
    m.switch_count < u64::MAX && m.created_count < u64::MAX && m.deleted_count < u64::MAX
        && m.error_count < u64::MAX
}

/// Manages workspace CRUD operations and switching.
pub struct WorkspaceManager {
    workspaces: Vec<Workspace>,
    active_workspace_id: Option<u128>,
    config: WorkspaceManagerConfig,
    metrics: WorkspaceMetrics,
    events: Vec<WorkspaceEvent>,
}

/// What switching to the workspace `workspace_id` at time `now` does to the
/// manager (from `before` to `after`) and gives back (`r`).
pub open spec fn switch_outcome(
    before: WorkspaceManager,
    after: WorkspaceManager,
    workspace_id: u128,
    now: i64,
    r: Result<(), TilleRSError>,
) -> bool {
    &&& (has_id(before.spaces(), workspace_id) ==> {
            &&& r is Ok
            &&& after.active() == Some(workspace_id)
            &&& after.spaces() == touch(before.spaces(), workspace_id, now)
            &&& after.pending_events().len() == before.pending_events().len() + 1
            &&& after.pending_events().drop_last() == before.pending_events()
            &&& is_activated_event(
                after.pending_events().last(),
                lookup(before.spaces(), workspace_id).unwrap(),
                before.active(),
            )
            &&& after.metrics_view() == (WorkspaceMetrics {
                switch_count: (before.metrics_view().switch_count + 1) as u64,
                ..before.metrics_view()
            })
        })
    &&& (!has_id(before.spaces(), workspace_id) ==> {
            &&& r matches Err(TilleRSError::WorkspaceNotFound(m)) && m@ == uuid_text(workspace_id)
            &&& after.active() == before.active()
            &&& after.spaces() == before.spaces()
            &&& after.pending_events() == before.pending_events()
            &&& after.metrics_view() == before.metrics_view()
        })
}

/// What deleting the workspace `workspace_id` at time `now` does to the
/// manager (from `before` to `after`) and gives back (`r`).
pub open spec fn delete_outcome(
    before: WorkspaceManager,
    after: WorkspaceManager,
    workspace_id: u128,
    now: i64,
    r: Result<(), TilleRSError>,
) -> bool {
    &&& (!has_id(before.spaces(), workspace_id) ==> {
            &&& r matches Err(TilleRSError::WorkspaceNotFound(m)) && m@ == uuid_text(workspace_id)
            &&& after.spaces() == before.spaces()
            &&& after.active() == before.active()
            &&& after.pending_events() == before.pending_events()
            &&& after.metrics_view() == before.metrics_view()
        })
    &&& (has_id(before.spaces(), workspace_id) ==> ({
            let t = remove_id(before.spaces(), workspace_id);
            &&& r is Ok
            &&& !has_id(t, workspace_id)
            &&& after.pending_events().len() >= 1
            &&& is_deleted_event(after.pending_events().last(), workspace_id)
            &&& if before.active() == Some(workspace_id) && t.len() > 0 {
                &&& after.spaces() == touch(t, t[0].id, now)
                &&& after.active() == Some(t[0].id)
                &&& after.pending_events().len() == before.pending_events().len() + 2
                &&& after.pending_events().take(before.pending_events().len() as int) == before.pending_events()
                &&& is_activated_event(
                    after.pending_events()[before.pending_events().len() as int],
                    t[0],
                    Some(workspace_id),
                )
                &&& after.metrics_view() == (WorkspaceMetrics {
                    switch_count: (before.metrics_view().switch_count + 1) as u64,
                    deleted_count: (before.metrics_view().deleted_count + 1) as u64,
                    ..before.metrics_view()
                })
            } else {
                &&& after.spaces() == t
                &&& after.active() == if before.active() == Some(workspace_id) {
                    None
                } else {
                    before.active()
                }
                &&& after.pending_events().drop_last() == before.pending_events()
                &&& after.metrics_view() == (WorkspaceMetrics {
                    deleted_count: (before.metrics_view().deleted_count + 1) as u64,
                    ..before.metrics_view()
                })
            }
        }))
}

/// What creating a workspace with the identifier `id` at time `now` does
/// to the manager (from `before` to `after`) and gives back (`r`): it fails
/// when the limit is reached or the name or shortcut is taken (each counted
/// as an error), or when the request is not valid, leaving the workspaces,
/// the active one and the events as they were; otherwise the workspace is
/// stored under `id` with a created event, and the first workspace becomes
/// the active one with an activation event.
pub open spec fn create_outcome(
    before: WorkspaceManager,
    after: WorkspaceManager,
    request: WorkspaceCreateRequest,
    default_pattern_id: u128,
    id: u128,
    now: i64,
    r: Result<u128, TilleRSError>,
) -> bool {
        let s = before.spaces();
        let max = before.config_view().max_workspaces;
        if s.len() >= max {
            &&& r matches Err(e) && is_validation_error(
                e,
                "Maximum workspace limit of "@ + decimal(max as nat) + " reached"@,
            )
            &&& after.spaces() == s && after.active() == before.active()
            &&& after.pending_events() == before.pending_events()
            &&& after.metrics_view() == (WorkspaceMetrics {
                error_count: (before.metrics_view().error_count + 1) as u64,
                ..before.metrics_view()
            })
        } else if has_name(s, request.name@) {
            &&& r matches Err(e) && is_validation_error(
                e,
                "Workspace name '"@ + request.name@ + "' already exists"@,
            )
            &&& after.spaces() == s && after.active() == before.active()
            &&& after.pending_events() == before.pending_events()
            &&& after.metrics_view() == (WorkspaceMetrics {
                error_count: (before.metrics_view().error_count + 1) as u64,
                ..before.metrics_view()
            })
        } else if has_shortcut(s, request.keyboard_shortcut@) {
            &&& r matches Err(e) && is_validation_error(
                e,
                "Keyboard shortcut '"@ + request.keyboard_shortcut@ + "' already exists"@,
            )
            &&& after.spaces() == s && after.active() == before.active()
            &&& after.pending_events() == before.pending_events()
            &&& after.metrics_view() == (WorkspaceMetrics {
                error_count: (before.metrics_view().error_count + 1) as u64,
                ..before.metrics_view()
            })
        } else if create_request_error(request) is Some {
            &&& r matches Err(e) && is_validation_error(
                e,
                create_request_error(request).unwrap(),
            )
            &&& after.spaces() == s && after.active() == before.active()
            &&& after.pending_events() == before.pending_events()
            &&& after.metrics_view() == before.metrics_view()
        } else {
            &&& r == Ok::<u128, TilleRSError>(id)
            &&& exists|w: Workspace| {
                &&& #[trigger] is_created_event(after.pending_events()[before.pending_events().len() as int], w)
                &&& w.id == id
                &&& w.name == request.name
                &&& w.description == request.description
                &&& w.keyboard_shortcut == request.keyboard_shortcut
                &&& w.tiling_pattern_id == match request.tiling_pattern_id {
                    Some(p) => p,
                    None => default_pattern_id,
                }
                &&& w.monitor_assignments@.len() == 0
                &&& w.auto_arrange == match request.auto_arrange {
                    Some(a) => a,
                    None => true,
                }
                &&& w.created_at == now
                &&& w.last_used is None
                &&& w.state == WorkspaceState::Inactive
                &&& if before.active() is None {
                    &&& after.spaces() == touch(upsert(s, w), id, now)
                    &&& after.active() == Some(id)
                    &&& after.pending_events().len() == before.pending_events().len() + 2
                    &&& is_activated_event(
                        after.pending_events()[before.pending_events().len() + 1int],
                        w,
                        None,
                    )
                    &&& after.metrics_view() == (WorkspaceMetrics {
                        created_count: (before.metrics_view().created_count + 1) as u64,
                        switch_count: (before.metrics_view().switch_count + 1) as u64,
                        ..before.metrics_view()
                    })
                } else {
                    &&& after.spaces() == upsert(s, w)
                    &&& after.active() == before.active()
                    &&& after.pending_events().len() == before.pending_events().len() + 1
                    &&& after.metrics_view() == (WorkspaceMetrics {
                        created_count: (before.metrics_view().created_count + 1) as u64,
                        ..before.metrics_view()
                    })
                }
            }
            &&& after.pending_events().take(before.pending_events().len() as int)
                == before.pending_events()
        }
}

impl WorkspaceManager {
    /// The manager's invariant: no two workspaces share an identifier.
    pub closed spec fn wf(&self) -> bool {
        ids_unique(self.workspaces@)
    }

    /// The workspaces, in the order they were first added.
    pub closed spec fn spaces(&self) -> Seq<Workspace> {
        self.workspaces@
    }

    /// The active workspace's identifier.
    pub closed spec fn active(&self) -> Option<u128> {
        self.active_workspace_id
    }

    /// The configuration.
    pub closed spec fn config_view(&self) -> WorkspaceManagerConfig {
        self.config
    }

    /// The counters.
    pub closed spec fn metrics_view(&self) -> WorkspaceMetrics {
        self.metrics
    }

    /// The events recorded and not taken yet.
    pub closed spec fn pending_events(&self) -> Seq<WorkspaceEvent> {
        self.events@
    }

    /// Create a workspace manager with no workspaces.
    pub fn new(config: WorkspaceManagerConfig) -> (r: Result<Self, TilleRSError>)
        ensures
            r matches Ok(m) && m.wf() && m.spaces().len() == 0 && m.active() is None && m.config_view()
                == config && m.metrics_view() == WorkspaceMetrics::default_spec()
                && m.pending_events().len() == 0,
    {
        Ok(WorkspaceManager {
            workspaces: Vec::new(),
            active_workspace_id: None,
            config,
            metrics: WorkspaceMetrics { switch_count: 0, created_count: 0, deleted_count: 0, error_count: 0 },
            events: Vec::new(),
        })
    }

    fn index_of(&self, id: u128) -> (r: Option<usize>)
        requires
            self.wf(),
        ensures
            r is None <==> !has_id(self.spaces(), id),
            r matches Some(i) ==> i < self.spaces().len() && i == position_of(self.spaces(), id),
    {
        let mut i: usize = 0;
        while i < self.workspaces.len()
            invariant
                i <= self.workspaces@.len(),
                ids_unique(self.workspaces@),
                forall|j: int| 0 <= j < i ==> (#[trigger] self.workspaces@[j]).id != id,
            decreases self.workspaces.len() - i,
        {
            if self.workspaces[i].id == id {
                proof {
                    assert(has_id(self.workspaces@, id));
                    let p = position_of(self.workspaces@, id);
                    assert(self.workspaces@[p].id == id);
                    assert(p == i) by {
                        if p < i {
                            assert(self.workspaces@[p].id != id);
                        } else if p > i {
                            assert(self.workspaces@[i as int].id != self.workspaces@[p].id);
                        }
                    }
                }
                return Some(i);
            }
            i = i + 1;
        }
        None
    }

    /// Create a workspace with the given identifier at time `now`. It fails
    /// when the limit is reached or the name or shortcut is taken (each
    /// counted as an error), or when the request is not valid. The first
    /// workspace becomes the active one.
    pub fn create_workspace_with(
        &mut self,
        request: WorkspaceCreateRequest,
        default_pattern_id: u128,
        id: u128,
        now: i64,
    ) -> (r: Result<u128, TilleRSError>)
        requires
            old(self).wf(),
            counters_have_room(old(self).metrics_view()),
        ensures
            final(self).wf(),
            ids_unique(final(self).spaces()),
            final(self).config_view() == old(self).config_view(),
            create_outcome(*old(self), *final(self), request, default_pattern_id, id, now, r),
    {
        let max = self.config.max_workspaces;
        if self.workspaces.len() >= max {
            self.metrics.error_count = self.metrics.error_count + 1;
            let mut msg = owned("Maximum workspace limit of ");
            push_decimal(&mut msg, max as u64);
            push_str(&mut msg, " reached");
            return Err(TilleRSError::ValidationError(msg));
        }
        if self.name_taken(request.name.as_str()) {
            self.metrics.error_count = self.metrics.error_count + 1;
            let mut msg = owned("Workspace name '");
            push_str(&mut msg, request.name.as_str());
            push_str(&mut msg, "' already exists");
            return Err(TilleRSError::ValidationError(msg));
        }
        if self.shortcut_taken(request.keyboard_shortcut.as_str()) {
            self.metrics.error_count = self.metrics.error_count + 1;
            let mut msg = owned("Keyboard shortcut '");
            push_str(&mut msg, request.keyboard_shortcut.as_str());
            push_str(&mut msg, "' already exists");
            return Err(TilleRSError::ValidationError(msg));
        }
        let ghost req = request;
        let workspace = Workspace::new_with(request, default_pattern_id, id, now)?;
        let ghost w = workspace;
        let event = WorkspaceEvent::WorkspaceCreated { workspace: workspace.duplicate() };
        let ghost s0 = self.workspaces@;
        self.store(workspace);
        proof {
            lemma_upsert_lookup(s0, w);
            assert(lookup(upsert(s0, w), id) == Some(w));
        }
        self.metrics.created_count = self.metrics.created_count + 1;
        self.events.push(event);
        assert(is_created_event(self.events@[old(self).events@.len() as int], w));
        let ghost mid_events = self.events@;
        if self.active_workspace_id.is_none() {
            let switched = self.switch_to_workspace_at(id, now);
            match switched {
                Ok(()) => {},
                Err(_) => {
                    assert(false);
                },
            }
            assert(self.events@[old(self).events@.len() as int] == mid_events[old(self).events@.len() as int]);
            assert(self.events@.take(old(self).events@.len() as int) =~= old(self).events@);
            assert(is_activated_event(self.events@[old(self).events@.len() + 1int], w, None));
        } else {
            assert(self.events@.take(old(self).events@.len() as int) =~= old(self).events@);
        }
        assert(is_created_event(self.pending_events()[old(self).pending_events().len() as int], w));
        Ok(id)
    }

    fn name_taken(&self, name: &str) -> (b: bool)
        ensures
            b == has_name(self.spaces(), name@),
    {
        let mut i: usize = 0;
        while i < self.workspaces.len()
            invariant
                i <= self.workspaces@.len(),
                forall|j: int| 0 <= j < i ==> (#[trigger] self.workspaces@[j]).name@ != name@,
            decreases self.workspaces.len() - i,
        {
            if str_equal(self.workspaces[i].name.as_str(), name) {
                return true;
            }
            i = i + 1;
        }
        false
    }

    fn shortcut_taken(&self, shortcut: &str) -> (b: bool)
        ensures
            b == has_shortcut(self.spaces(), shortcut@),
    {
        let mut i: usize = 0;
        while i < self.workspaces.len()
            invariant
                i <= self.workspaces@.len(),
                forall|j: int| 0 <= j < i ==> (#[trigger] self.workspaces@[j]).keyboard_shortcut@ != shortcut@,
            decreases self.workspaces.len() - i,
        {
            if str_equal(self.workspaces[i].keyboard_shortcut.as_str(), shortcut) {
                return true;
            }
            i = i + 1;
        }
        false
    }

    fn other_name_taken(&self, id: u128, name: &str) -> (b: bool)
        ensures
            b == other_has_name(self.spaces(), id, name@),
    {
        let mut i: usize = 0;
        while i < self.workspaces.len()
            invariant
                i <= self.workspaces@.len(),
                forall|j: int| 0 <= j < i ==> !((#[trigger] self.workspaces@[j]).id != id && self.workspaces@[j].name@ == name@),
            decreases self.workspaces.len() - i,
        {
            if self.workspaces[i].id != id && str_equal(self.workspaces[i].name.as_str(), name) {
                return true;
            }
            i = i + 1;
        }
        false
    }

    fn other_shortcut_taken(&self, id: u128, shortcut: &str) -> (b: bool)
        ensures
            b == other_has_shortcut(self.spaces(), id, shortcut@),
    {
        let mut i: usize = 0;
        while i < self.workspaces.len()
            invariant
                i <= self.workspaces@.len(),
                forall|j: int| 0 <= j < i ==> !((#[trigger] self.workspaces@[j]).id != id && self.workspaces@[j].keyboard_shortcut@ == shortcut@),
            decreases self.workspaces.len() - i,
        {
            if self.workspaces[i].id != id && str_equal(self.workspaces[i].keyboard_shortcut.as_str(), shortcut) {
                return true;
            }
            i = i + 1;
        }
        false
    }

    fn store(&mut self, w: Workspace)
        requires
            old(self).wf(),
        ensures
            final(self).wf(),
            final(self).spaces() == upsert(old(self).spaces(), w),
            final(self).active() == old(self).active(),
            final(self).config_view() == old(self).config_view(),
            final(self).metrics_view() == old(self).metrics_view(),
            final(self).pending_events() == old(self).pending_events(),
    {
        let ghost s = self.workspaces@;
        match self.index_of(w.id) {
            Some(i) => {
                proof {
                    let t = s.update(i as int, w);
                    assert forall|a: int, b: int| 0 <= a < b < t.len() implies (#[trigger] t[a]).id != (#[trigger] t[b]).id by {
                        assert(s[i as int].id == w.id);
                    }
                }
                self.workspaces.set(i, w);
            },
            None => {
                proof {
                    let t = s.push(w);
                    assert forall|a: int, b: int| 0 <= a < b < t.len() implies (#[trigger] t[a]).id != (#[trigger] t[b]).id by {
                        if b == s.len() {
                            assert(s[a].id != w.id);
                        }
                    }
                }
                self.workspaces.push(w);
            },
        }
    }

    /// Create a workspace with a fresh identifier at the current time (see
    /// `create_workspace_with`).
    pub fn create_workspace(&mut self, request: WorkspaceCreateRequest, default_pattern_id: u128) -> (r: Result<u128, TilleRSError>)
        requires
            old(self).wf(),
            counters_have_room(old(self).metrics_view()),
        ensures
            final(self).wf(),
            r is Ok <==> (old(self).spaces().len() < old(self).config_view().max_workspaces
                && !has_name(old(self).spaces(), request.name@) && !has_shortcut(
                old(self).spaces(),
                request.keyboard_shortcut@,
            ) && create_request_error(request) is None),
            r matches Ok(id) ==> has_id(final(self).spaces(), id)
                && lookup(final(self).spaces(), id).unwrap().name == request.name
                && lookup(final(self).spaces(), id).unwrap().description == request.description
                && lookup(final(self).spaces(), id).unwrap().keyboard_shortcut == request.keyboard_shortcut
                && lookup(final(self).spaces(), id).unwrap().tiling_pattern_id == match request.tiling_pattern_id {
                    Some(p) => p,
                    None => default_pattern_id,
                }
                && lookup(final(self).spaces(), id).unwrap().auto_arrange == match request.auto_arrange {
                    Some(a) => a,
                    None => true,
                },
            r is Err ==> final(self).spaces() == old(self).spaces() && final(self).active() == old(self).active(),
            old(self).spaces().len() >= old(self).config_view().max_workspaces ==> (r matches Err(e)
                && is_validation_error(
                e,
                "Maximum workspace limit of "@ + decimal(old(self).config_view().max_workspaces as nat) + " reached"@,
            )),
            old(self).spaces().len() < old(self).config_view().max_workspaces && has_name(
                old(self).spaces(),
                request.name@,
            ) ==> (r matches Err(e) && is_validation_error(e, "Workspace name '"@ + request.name@ + "' already exists"@)),
            old(self).spaces().len() < old(self).config_view().max_workspaces && !has_name(
                old(self).spaces(),
                request.name@,
            ) && has_shortcut(old(self).spaces(), request.keyboard_shortcut@) ==> (r matches Err(e)
                && is_validation_error(e, "Keyboard shortcut '"@ + request.keyboard_shortcut@ + "' already exists"@)),
            old(self).spaces().len() < old(self).config_view().max_workspaces && !has_name(
                old(self).spaces(),
                request.name@,
            ) && !has_shortcut(old(self).spaces(), request.keyboard_shortcut@) && create_request_error(request) is Some
                ==> (r matches Err(e) && is_validation_error(e, create_request_error(request).unwrap())),
            r matches Ok(id) ==> final(self).active() == if old(self).active() is None {
                Some(id)
            } else {
                old(self).active()
            },
            exists|id: u128, now: i64| #[trigger] create_outcome(
                *old(self),
                *final(self),
                request,
                default_pattern_id,
                id,
                now,
                r,
            ),
    {
        let id = crate::ids::new_id();
        let now = crate::ids::now_millis();
        let ghost s = self.workspaces@;
        let r = self.create_workspace_with(request, default_pattern_id, id, now);
        assert(create_outcome(*old(self), *self, request, default_pattern_id, id, now, r));
        proof {
            if r is Ok {
                let w = choose|w: Workspace| #[trigger] is_created_event(self.events@[old(self).events@.len() as int], w) && w.id == id && w.name == request.name
                    && w.description == request.description && w.keyboard_shortcut == request.keyboard_shortcut
                    && w.tiling_pattern_id == match request.tiling_pattern_id { Some(p) => p, None => default_pattern_id }
                    && w.auto_arrange == match request.auto_arrange { Some(a) => a, None => true }
                    && (old(self).active() is None ==> self.workspaces@ == touch(upsert(s, w), id, now)) && (old(self).active() is Some ==> self.workspaces@ == upsert(s, w));
                lemma_upsert_lookup(s, w);
                if old(self).active() is None {
                    lemma_touch_lookup(upsert(s, w), id, now, id);
                }
            }
        }
        r
    }

    /// Switch to the workspace with the identifier at time `now`: it becomes
    /// the active one and its last use is now.
    pub fn switch_to_workspace_at(&mut self, workspace_id: u128, now: i64) -> (r: Result<(), TilleRSError>)
        requires
            old(self).wf(),
            old(self).metrics_view().switch_count < u64::MAX,
        ensures
            final(self).wf(),
            ids_unique(final(self).spaces()),
            final(self).config_view() == old(self).config_view(),
            switch_outcome(*old(self), *final(self), workspace_id, now, r),
    {
        let i = match self.index_of(workspace_id) {
            Some(i) => i,
            None => {
                return Err(TilleRSError::WorkspaceNotFound(uuid_string(workspace_id)));
            },
        };
        let snapshot = self.workspaces[i].duplicate();
        let previous = self.active_workspace_id;
        self.active_workspace_id = Some(workspace_id);
        let ghost s = self.workspaces@;
        let mut w = self.workspaces.remove(i);
        w.last_used = Some(now);
        self.workspaces.insert(i, w);
        assert(self.workspaces@ =~= touch(s, workspace_id, now));
        proof {
            let t = self.workspaces@;
            assert forall|a: int, b: int| 0 <= a < b < t.len() implies (#[trigger] t[a]).id != (#[trigger] t[b]).id by {
                assert(t[a].id == s[a].id);
                assert(t[b].id == s[b].id);
            }
        }
        self.metrics.switch_count = self.metrics.switch_count + 1;
        self.events.push(WorkspaceEvent::WorkspaceActivated { workspace: snapshot, previous });
        assert(self.events@.drop_last() =~= old(self).events@);
        Ok(())
    }

    /// Switch to the workspace with the identifier now (see `switch_to_workspace_at`).
    pub fn switch_to_workspace(&mut self, workspace_id: u128) -> (r: Result<(), TilleRSError>)
        requires
            old(self).wf(),
            old(self).metrics_view().switch_count < u64::MAX,
        ensures
            final(self).wf(),
            r is Ok <==> has_id(old(self).spaces(), workspace_id),
            r is Ok ==> final(self).active() == Some(workspace_id),
            r is Ok ==> exists|t: i64| final(self).spaces() == #[trigger] touch(old(self).spaces(), workspace_id, t),
            r is Err ==> final(self).active() == old(self).active() && final(self).spaces() == old(self).spaces(),
            exists|now: i64| #[trigger] switch_outcome(*old(self), *final(self), workspace_id, now, r),
    {
        let now = crate::ids::now_millis();
        let r = self.switch_to_workspace_at(workspace_id, now);
        assert(r is Ok ==> self.spaces() == touch(old(self).spaces(), workspace_id, now));
        assert(switch_outcome(*old(self), *self, workspace_id, now, r));
        r
    }

    /// A copy of the workspace with the identifier.
    pub fn get_workspace(&self, workspace_id: u128) -> (r: Result<Workspace, TilleRSError>)
        requires
            self.wf(),
        ensures
            match lookup(self.spaces(), workspace_id) {
                Some(w) => r matches Ok(x) && same_workspace(x, w),
                None => r matches Err(TilleRSError::WorkspaceNotFound(m)) && m@ == uuid_text(workspace_id),
            },
    {
        match self.index_of(workspace_id) {
            Some(i) => Ok(self.workspaces[i].duplicate()),
            None => Err(TilleRSError::WorkspaceNotFound(uuid_string(workspace_id))),
        }
    }

    fn copies(&self) -> (r: Vec<Workspace>)
        ensures
            r@.len() == self.spaces().len(),
            forall|i: int| 0 <= i < r@.len() ==> same_workspace(#[trigger] r@[i], self.spaces()[i]),
    {
        let mut r: Vec<Workspace> = Vec::new();
        let mut i: usize = 0;
        while i < self.workspaces.len()
            invariant
                i <= self.workspaces@.len(),
                r@.len() == i,
                forall|j: int| 0 <= j < i ==> same_workspace(#[trigger] r@[j], self.workspaces@[j]),
            decreases self.workspaces.len() - i,
        {
            r.push(self.workspaces[i].duplicate());
            i = i + 1;
        }
        r
    }

    /// Copies of all workspaces.
    pub fn get_all_workspaces(&self) -> (r: Vec<Workspace>)
        ensures
            r@.len() == self.spaces().len(),
            forall|i: int| 0 <= i < r@.len() ==> same_workspace(#[trigger] r@[i], self.spaces()[i]),
    {
        self.copies()
    }

    /// Copies of all workspaces currently tracked by the manager.
    pub fn list_workspaces(&self) -> (r: Vec<Workspace>)
        ensures
            r@.len() == self.spaces().len(),
            forall|i: int| 0 <= i < r@.len() ==> same_workspace(#[trigger] r@[i], self.spaces()[i]),
    {
        self.copies()
    }

    /// A copy of the active workspace, if there is one and it is present.
    pub fn get_active_workspace(&self) -> (r: Option<Workspace>)
        requires
            self.wf(),
        ensures
            match self.active() {
                Some(id) => match lookup(self.spaces(), id) {
                    Some(w) => r matches Some(x) && same_workspace(x, w),
                    None => r is None,
                },
                None => r is None,
            },
    {
        match self.active_workspace_id {
            Some(id) => match self.index_of(id) {
                Some(i) => Some(self.workspaces[i].duplicate()),
                None => None,
            },
            None => None,
        }
    }

    /// The active workspace's identifier.
    pub fn get_active_workspace_id(&self) -> (r: Option<u128>)
        ensures
            r == self.active(),
    {
        self.active_workspace_id
    }

    /// The number of workspaces.
    pub fn get_workspace_count(&self) -> (n: usize)
        ensures
            n == self.spaces().len(),
    {
        self.workspaces.len()
    }

    /// Whether the workspace limit is reached.
    pub fn is_limit_reached(&self) -> (b: bool)
        ensures
            b == (self.spaces().len() >= self.config_view().max_workspaces),
    {
        self.workspaces.len() >= self.config.max_workspaces
    }

    /// The counters.
    pub fn get_metrics(&self) -> (m: WorkspaceMetrics)
        ensures
            m == self.metrics_view(),
    {
        self.metrics
    }

    /// Reset the counters to zero.
    pub fn reset_metrics(&mut self)
        ensures
            final(self).wf() == old(self).wf(),
            final(self).metrics_view() == WorkspaceMetrics::default_spec(),
            final(self).spaces() == old(self).spaces(),
            final(self).active() == old(self).active(),
            final(self).config_view() == old(self).config_view(),
            final(self).pending_events() == old(self).pending_events(),
    {
        self.metrics = WorkspaceMetrics { switch_count: 0, created_count: 0, deleted_count: 0, error_count: 0 };
    }

    /// Take the events recorded so far.
    pub fn take_events(&mut self) -> (r: Vec<WorkspaceEvent>)
        ensures
            final(self).wf() == old(self).wf(),
            r@ == old(self).pending_events(),
            final(self).pending_events().len() == 0,
            final(self).spaces() == old(self).spaces(),
            final(self).active() == old(self).active(),
            final(self).config_view() == old(self).config_view(),
            final(self).metrics_view() == old(self).metrics_view(),
    {
        let mut taken: Vec<WorkspaceEvent> = Vec::new();
        std::mem::swap(&mut taken, &mut self.events);
        taken
    }
}

/// The duplicate-name and duplicate-shortcut findings over the workspaces, in
/// order: a workspace is reported when an earlier one has its name, and again
/// when an earlier one has its shortcut.
pub open spec fn duplicate_findings(s: Seq<Workspace>) -> Seq<(u128, Seq<char>)>
    decreases s.len(),
{
    if s.len() == 0 {
        Seq::<(u128, Seq<char>)>::empty()
    } else {
        let w = s.last();
        let before = s.drop_last();
        duplicate_findings(before) + (if has_name(before, w.name@) {
            seq![(w.id, "Duplicate workspace name: "@ + w.name@)]
        } else {
            Seq::<(u128, Seq<char>)>::empty()
        }) + (if has_shortcut(before, w.keyboard_shortcut@) {
            seq![(w.id, "Duplicate keyboard shortcut: "@ + w.keyboard_shortcut@)]
        } else {
            Seq::<(u128, Seq<char>)>::empty()
        })
    }
}

/// The workspaces of a loaded list stored one after the other by identifier.
pub open spec fn stored_all(list: Seq<Workspace>) -> Seq<Workspace>
    decreases list.len(),
{
    if list.len() == 0 {
        Seq::<Workspace>::empty()
    } else {
        upsert(stored_all(list.drop_last()), list.last())
    }
}

/// Whether `p` is the workspace used last: it has a last use, no workspace was
/// used later, and no later one in the list was used at the same time.
pub open spec fn is_last_used(s: Seq<Workspace>, p: int) -> bool {
    &&& 0 <= p < s.len()
    &&& s[p].last_used is Some
    &&& forall|j: int| 0 <= j < s.len() && (#[trigger] s[j]).last_used is Some ==> s[j].last_used.unwrap() <= s[p].last_used.unwrap()
    &&& forall|j: int| p < j < s.len() && (#[trigger] s[j]).last_used is Some ==> s[j].last_used.unwrap() < s[p].last_used.unwrap()
}

/// Whether a workspace's name, lowercased, holds the lowercased pattern.
pub open spec fn name_matches(w: Workspace, pattern: Seq<char>) -> bool {
    contains_seq(lowercase(w.name@), lowercase(pattern))
}

impl WorkspaceManager {
    /// Delete the workspace with the identifier. When it was the active one,
    /// the first remaining workspace is switched to at `now`, or there is no
    /// active workspace when none remains.
    pub fn delete_workspace_at(&mut self, workspace_id: u128, now: i64) -> (r: Result<(), TilleRSError>)
        requires
            old(self).wf(),
            old(self).metrics_view().switch_count < u64::MAX,
            old(self).metrics_view().deleted_count < u64::MAX,
        ensures
            final(self).wf(),
            ids_unique(final(self).spaces()),
            final(self).config_view() == old(self).config_view(),
            delete_outcome(*old(self), *final(self), workspace_id, now, r),
    {
        let i = match self.index_of(workspace_id) {
            Some(i) => i,
            None => {
                return Err(TilleRSError::WorkspaceNotFound(uuid_string(workspace_id)));
            },
        };
        let ghost s = self.workspaces@;
        self.workspaces.remove(i);
        let ghost t = self.workspaces@;
        proof {
            assert(t == remove_id(s, workspace_id));
            assert forall|a: int, b: int| 0 <= a < b < t.len() implies (#[trigger] t[a]).id != (#[trigger] t[b]).id by {
                let a0 = if a < i { a } else { a + 1 };
                let b0 = if b < i { b } else { b + 1 };
                assert(t[a] == s[a0]);
                assert(t[b] == s[b0]);
            }
            assert(!has_id(t, workspace_id)) by {
                if has_id(t, workspace_id) {
                    let k = choose|k: int| 0 <= k < t.len() && (#[trigger] t[k]).id == workspace_id;
                    let k0 = if k < i { k } else { k + 1 };
                    assert(s[k0].id == workspace_id);
                    assert(s[i as int].id == workspace_id);
                }
            }
        }
        let ghost mid_events = self.events@;
        if self.active_workspace_id == Some(workspace_id) {
            if self.workspaces.len() > 0 {
                let first_id = self.workspaces[0].id;
                proof {
                    assert(has_id(t, first_id)) by {
                        assert(t[0].id == first_id);
                    }
                    assert(position_of(t, first_id) == 0) by {
                        let q = position_of(t, first_id);
                        if q != 0 {
                            assert(t[0].id != t[q].id);
                        }
                    }
                }
                let switched = self.switch_to_workspace_at(first_id, now);
                match switched {
                    Ok(()) => {},
                    Err(_) => {
                        assert(false);
                    },
                }
            } else {
                self.active_workspace_id = None;
            }
        }
        self.metrics.deleted_count = self.metrics.deleted_count + 1;
        let ghost before_push = self.events@;
        self.events.push(WorkspaceEvent::WorkspaceDeleted { workspace_id });
        proof {
            assert(self.events@.drop_last() == before_push);
            if old(self).active() == Some(workspace_id) && t.len() > 0 {
                assert(self.events@.take(old(self).events@.len() as int) =~= old(self).events@);
                assert(self.events@[old(self).events@.len() as int] == before_push.last());
            }
        }
        Ok(())
    }

    /// Delete the workspace with the identifier now (see `delete_workspace_at`).
    pub fn delete_workspace(&mut self, workspace_id: u128) -> (r: Result<(), TilleRSError>)
        requires
            old(self).wf(),
            old(self).metrics_view().switch_count < u64::MAX,
            old(self).metrics_view().deleted_count < u64::MAX,
        ensures
            final(self).wf(),
            r is Ok <==> has_id(old(self).spaces(), workspace_id),
            has_id(old(self).spaces(), workspace_id) ==> ({
                let t = remove_id(old(self).spaces(), workspace_id);
                if old(self).active() == Some(workspace_id) && t.len() > 0 {
                    &&& final(self).active() == Some(t[0].id)
                    &&& exists|n: i64| final(self).spaces() == #[trigger] touch(t, t[0].id, n)
                } else {
                    &&& final(self).spaces() == t
                    &&& final(self).active() == if old(self).active() == Some(workspace_id) {
                        None
                    } else {
                        old(self).active()
                    }
                }
            }),
            !has_id(old(self).spaces(), workspace_id) ==> final(self).spaces() == old(self).spaces()
                && final(self).active() == old(self).active(),
            !has_id(final(self).spaces(), workspace_id),
            exists|now: i64| #[trigger] delete_outcome(*old(self), *final(self), workspace_id, now, r),
    {
        let now = crate::ids::now_millis();
        let r = self.delete_workspace_at(workspace_id, now);
        assert(delete_outcome(*old(self), *self, workspace_id, now, r));
        proof {
            if has_id(old(self).spaces(), workspace_id) {
                let t = remove_id(old(self).spaces(), workspace_id);
                if old(self).active() == Some(workspace_id) && t.len() > 0 {
                    lemma_touch_lookup(t, t[0].id, now, workspace_id);
                    assert(self.spaces() == touch(t, t[0].id, now));
                }
            }
        }
        r
    }

    /// Replace a workspace with the one given, which holds its identifier.
    /// The name and the shortcut must not be taken by another workspace.
    pub fn update_workspace(&mut self, workspace: Workspace) -> (r: Result<(), TilleRSError>)
        requires
            old(self).wf(),
        ensures
            final(self).wf(),
            final(self).config_view() == old(self).config_view(),
            final(self).active() == old(self).active(),
            final(self).metrics_view() == old(self).metrics_view(),
            ({
                let s = old(self).spaces();
                if other_has_name(s, workspace.id, workspace.name@) {
                    &&& r matches Err(e) && is_validation_error(
                        e,
                        "Workspace name '"@ + workspace.name@ + "' already exists"@,
                    )
                    &&& final(self).spaces() == s
                    &&& final(self).pending_events() == old(self).pending_events()
                } else if other_has_shortcut(s, workspace.id, workspace.keyboard_shortcut@) {
                    &&& r matches Err(e) && is_validation_error(
                        e,
                        "Keyboard shortcut '"@ + workspace.keyboard_shortcut@ + "' already exists"@,
                    )
                    &&& final(self).spaces() == s
                    &&& final(self).pending_events() == old(self).pending_events()
                } else if !has_id(s, workspace.id) {
                    &&& r matches Err(TilleRSError::WorkspaceNotFound(m)) && m@ == uuid_text(workspace.id)
                    &&& final(self).spaces() == s
                    &&& final(self).pending_events() == old(self).pending_events()
                } else {
                    &&& r is Ok
                    &&& final(self).spaces() == upsert(s, workspace)
                    &&& final(self).pending_events().drop_last() == old(self).pending_events()
                    &&& final(self).pending_events().len() == old(self).pending_events().len() + 1
                    &&& is_updated_event(final(self).pending_events().last(), workspace)
                }
            }),
    {
        if self.other_name_taken(workspace.id, workspace.name.as_str()) {
            let mut msg = owned("Workspace name '");
            push_str(&mut msg, workspace.name.as_str());
            push_str(&mut msg, "' already exists");
            return Err(TilleRSError::ValidationError(msg));
        }
        if self.other_shortcut_taken(workspace.id, workspace.keyboard_shortcut.as_str()) {
            let mut msg = owned("Keyboard shortcut '");
            push_str(&mut msg, workspace.keyboard_shortcut.as_str());
            push_str(&mut msg, "' already exists");
            return Err(TilleRSError::ValidationError(msg));
        }
        if self.index_of(workspace.id).is_none() {
            return Err(TilleRSError::WorkspaceNotFound(uuid_string(workspace.id)));
        }
        let event = WorkspaceEvent::WorkspaceUpdated { workspace: workspace.duplicate() };
        self.store(workspace);
        self.events.push(event);
        assert(self.events@.drop_last() =~= old(self).events@);
        Ok(())
    }

    /// Copies of the workspaces whose name, lowercased, holds the lowercased pattern.
    pub fn find_workspaces_by_name(&self, pattern: &str) -> (r: Vec<Workspace>)
        ensures
            ({
                let f = self.spaces().filter(|w: Workspace| name_matches(w, pattern@));
                &&& r@.len() == f.len()
                &&& forall|i: int| 0 <= i < r@.len() ==> same_workspace(#[trigger] r@[i], f[i])
            }),
    {
        let lower_pattern = to_lowercase(pattern);
        let mut r: Vec<Workspace> = Vec::new();
        let mut i: usize = 0;
        let ghost pred = |w: Workspace| name_matches(w, pattern@);
        proof {
            reveal(Seq::filter);
            assert(self.workspaces@.take(0) =~= Seq::<Workspace>::empty());
        }
        while i < self.workspaces.len()
            invariant
                i <= self.workspaces@.len(),
                lower_pattern@ == lowercase(pattern@),
                pred == (|w: Workspace| name_matches(w, pattern@)),
                r@.len() == self.workspaces@.take(i as int).filter(pred).len(),
                forall|k: int| 0 <= k < r@.len() ==> same_workspace(#[trigger] r@[k], self.workspaces@.take(i as int).filter(pred)[k]),
            decreases self.workspaces.len() - i,
        {
            let w = &self.workspaces[i];
            proof {
                assert(self.workspaces@.take(i + 1) =~= self.workspaces@.take(i as int).push(*w));
                self.workspaces@.take(i as int).lemma_filter_push(*w, pred);
            }
            let lower_name = to_lowercase(w.name.as_str());
            if str_contains(lower_name.as_str(), lower_pattern.as_str()) {
                r.push(w.duplicate());
            }
            i = i + 1;
        }
        assert(self.workspaces@.take(self.workspaces@.len() as int) =~= self.workspaces@);
        r
    }

    /// A copy of the first workspace with the shortcut.
    pub fn find_workspace_by_shortcut(&self, shortcut: &str) -> (r: Option<Workspace>)
        ensures
            r is None <==> !has_shortcut(self.spaces(), shortcut@),
            r matches Some(x) ==> exists|p: int|
                0 <= p < self.spaces().len() && (#[trigger] self.spaces()[p]).keyboard_shortcut@ == shortcut@
                    && same_workspace(x, self.spaces()[p]) && forall|j: int|
                    0 <= j < p ==> (#[trigger] self.spaces()[j]).keyboard_shortcut@ != shortcut@,
    {
        let mut i: usize = 0;
        while i < self.workspaces.len()
            invariant
                i <= self.workspaces@.len(),
                forall|j: int| 0 <= j < i ==> (#[trigger] self.workspaces@[j]).keyboard_shortcut@ != shortcut@,
            decreases self.workspaces.len() - i,
        {
            if str_equal(self.workspaces[i].keyboard_shortcut.as_str(), shortcut) {
                let x = self.workspaces[i].duplicate();
                assert(self.spaces()[i as int].keyboard_shortcut@ == shortcut@ && same_workspace(x, self.spaces()[i as int]));
                return Some(x);
            }
            i = i + 1;
        }
        None
    }

    /// Report every workspace whose name or shortcut an earlier workspace has.
    pub fn validate_all_workspaces(&self) -> (r: Vec<(u128, TilleRSError)>)
        ensures
            r@.len() == duplicate_findings(self.spaces()).len(),
            forall|i: int| 0 <= i < r@.len() ==> (#[trigger] r@[i]).0 == duplicate_findings(self.spaces())[i].0
                && is_validation_error(r@[i].1, duplicate_findings(self.spaces())[i].1),
    {
        let mut r: Vec<(u128, TilleRSError)> = Vec::new();
        let mut i: usize = 0;
        let ghost s = self.workspaces@;
        assert(s.take(0) =~= Seq::<Workspace>::empty());
        while i < self.workspaces.len()
            invariant
                i <= s.len(),
                s == self.workspaces@,
                r@.len() == duplicate_findings(s.take(i as int)).len(),
                forall|k: int| 0 <= k < r@.len() ==> (#[trigger] r@[k]).0 == duplicate_findings(s.take(i as int))[k].0
                    && is_validation_error(r@[k].1, duplicate_findings(s.take(i as int))[k].1),
            decreases self.workspaces.len() - i,
        {
            let w = &self.workspaces[i];
            let ghost before = s.take(i as int);
            let ghost found = duplicate_findings(before);
            proof {
                assert(s.take(i + 1).drop_last() =~= before);
                assert(s.take(i + 1).last() == *w);
            }
            let mut name_seen = false;
            let mut j: usize = 0;
            while j < i
                invariant
                    j <= i < s.len(),
                    s == self.workspaces@,
                    before == s.take(i as int),
                    name_seen == exists|k: int| 0 <= k < j && (#[trigger] s[k]).name@ == s[i as int].name@,
                decreases i - j,
            {
                if str_equal(self.workspaces[j].name.as_str(), self.workspaces[i].name.as_str()) {
                    name_seen = true;
                }
                j = j + 1;
            }
            assert(name_seen == has_name(before, w.name@)) by {
                if name_seen {
                    let k = choose|k: int| 0 <= k < i && (#[trigger] s[k]).name@ == s[i as int].name@;
                    assert(before[k] == s[k]);
                }
                if has_name(before, w.name@) {
                    let k = choose|k: int| 0 <= k < before.len() && (#[trigger] before[k]).name@ == w.name@;
                    assert(before[k] == s[k]);
                }
            }
            let mut shortcut_seen = false;
            let mut j: usize = 0;
            while j < i
                invariant
                    j <= i < s.len(),
                    s == self.workspaces@,
                    before == s.take(i as int),
                    shortcut_seen == exists|k: int| 0 <= k < j && (#[trigger] s[k]).keyboard_shortcut@ == s[i as int].keyboard_shortcut@,
                decreases i - j,
            {
                if str_equal(self.workspaces[j].keyboard_shortcut.as_str(), self.workspaces[i].keyboard_shortcut.as_str()) {
                    shortcut_seen = true;
                }
                j = j + 1;
            }
            assert(shortcut_seen == has_shortcut(before, w.keyboard_shortcut@)) by {
                if shortcut_seen {
                    let k = choose|k: int| 0 <= k < i && (#[trigger] s[k]).keyboard_shortcut@ == s[i as int].keyboard_shortcut@;
                    assert(before[k] == s[k]);
                }
                if has_shortcut(before, w.keyboard_shortcut@) {
                    let k = choose|k: int| 0 <= k < before.len() && (#[trigger] before[k]).keyboard_shortcut@ == w.keyboard_shortcut@;
                    assert(before[k] == s[k]);
                }
            }
            let ghost r0 = r@;
            if name_seen {
                let mut msg = owned("Duplicate workspace name: ");
                push_str(&mut msg, w.name.as_str());
                r.push((w.id, TilleRSError::ValidationError(msg)));
            }
            let ghost r1 = r@;
            if shortcut_seen {
                let mut msg = owned("Duplicate keyboard shortcut: ");
                push_str(&mut msg, w.keyboard_shortcut.as_str());
                r.push((w.id, TilleRSError::ValidationError(msg)));
            }
            proof {
                let next = duplicate_findings(s.take(i + 1));
                assert(next.len() == r@.len());
                assert forall|k: int| 0 <= k < r@.len() implies (#[trigger] r@[k]).0 == next[k].0
                    && is_validation_error(r@[k].1, next[k].1) by {
                    if k < r0.len() {
                        assert(r@[k] == r0[k]);
                    } else if k < r1.len() {
                        assert(r@[k] == r1[k]);
                    }
                }
            }
            i = i + 1;
        }
        assert(s.take(s.len() as int) =~= s);
        r
    }

    /// Switch, at `now`, to the workspace used last, if any workspace was used.
    pub fn restore_last_active_workspace_at(&mut self, now: i64) -> (r: Result<(), TilleRSError>)
        requires
            old(self).wf(),
            old(self).metrics_view().switch_count < u64::MAX,
        ensures
            final(self).wf(),
            r is Ok,
            final(self).config_view() == old(self).config_view(),
            (forall|j: int| 0 <= j < old(self).spaces().len() ==> (#[trigger] old(self).spaces()[j]).last_used is None)
                ==> final(self).spaces() == old(self).spaces() && final(self).active() == old(self).active()
                && final(self).pending_events() == old(self).pending_events()
                && final(self).metrics_view() == old(self).metrics_view(),
            (exists|j: int| 0 <= j < old(self).spaces().len() && (#[trigger] old(self).spaces()[j]).last_used is Some)
                ==> exists|p: int| is_last_used(old(self).spaces(), p) && final(self).active() == Some(
                old(self).spaces()[p].id,
            ) && final(self).spaces() == touch(old(self).spaces(), old(self).spaces()[p].id, now),
    {
        let ghost s = self.workspaces@;
        let mut best: Option<usize> = None;
        let mut i: usize = 0;
        while i < self.workspaces.len()
            invariant
                i <= s.len(),
                s == self.workspaces@,
                best is None <==> forall|j: int| 0 <= j < i ==> (#[trigger] s[j]).last_used is None,
                best matches Some(p) ==> p < i && s[p as int].last_used is Some
                    && (forall|j: int| 0 <= j < i && (#[trigger] s[j]).last_used is Some ==> s[j].last_used.unwrap() <= s[p as int].last_used.unwrap())
                    && (forall|j: int| p < j < i && (#[trigger] s[j]).last_used is Some ==> s[j].last_used.unwrap() < s[p as int].last_used.unwrap()),
            decreases self.workspaces.len() - i,
        {
            if let Some(t) = self.workspaces[i].last_used {
                match best {
                    None => {
                        best = Some(i);
                    },
                    Some(b) => {
                        let bt = match self.workspaces[b].last_used {
                            Some(x) => x,
                            None => t,
                        };
                        if t >= bt {
                            best = Some(i);
                        }
                    },
                }
            }
            i = i + 1;
        }
        match best {
            Some(p) => {
                let id = self.workspaces[p].id;
                proof {
                    assert(is_last_used(s, p as int));
                    assert(has_id(s, id)) by {
                        assert(s[p as int].id == id);
                    }
                    assert(position_of(s, id) == p) by {
                        let q = position_of(s, id);
                        if q < p {
                            assert(s[q].id != s[p as int].id);
                        } else if q > p {
                            assert(s[p as int].id != s[q].id);
                        }
                    }
                }
                let switched = self.switch_to_workspace_at(id, now);
                match switched {
                    Ok(()) => {},
                    Err(_) => {
                        assert(false);
                    },
                }
                Ok(())
            },
            None => Ok(()),
        }
    }

    /// Takes the workspaces loaded from the configuration: they replace all
    /// workspaces, stored by identifier one after the other (for an
    /// identifier loaded twice, the later one). The active identifier is kept
    /// as it is. Reading the file is the caller's; a missing file loads
    /// nothing.
    pub fn load_workspaces_from_config(&mut self, list: Vec<Workspace>)
        requires
            old(self).wf(),
        ensures
            final(self).wf(),
            final(self).spaces() == stored_all(list@),
            final(self).active() == old(self).active(),
            final(self).config_view() == old(self).config_view(),
            final(self).metrics_view() == old(self).metrics_view(),
            final(self).pending_events() == old(self).pending_events(),
    {
        self.workspaces = Vec::new();
        let mut list = list;
        let ghost l = list@;
        let total = list.len();
        let mut n: usize = 0;
        assert(self.workspaces@ =~= stored_all(l.take(0)));
        assert(list@ =~= l.skip(0));
        while list.len() > 0
            invariant
                total == l.len(),
                n + list@.len() == l.len(),
                list@ == l.skip(n as int),
                self.wf(),
                self.workspaces@ == stored_all(l.take(n as int)),
                self.active_workspace_id == old(self).active_workspace_id,
                self.config == old(self).config,
                self.metrics == old(self).metrics,
                self.events@ == old(self).events@,
            decreases list.len(),
        {
            let w = list.remove(0);
            proof {
                assert(w == l[n as int]);
                assert(l.take(n + 1).drop_last() =~= l.take(n as int));
                assert(l.take(n + 1).last() == w);
                assert(list@ =~= l.skip(n + 1));
            }
            self.store(w);
            n = n + 1;
        }
        assert(l.take(l.len() as int) =~= l);
    }

    /// The workspaces to save to the configuration, when auto-save is on;
    /// nothing to save when it is off. Writing the file is the caller's.
    pub fn save_workspaces_to_config(&self) -> (r: Option<Vec<Workspace>>)
        ensures
            !self.config_view().auto_save ==> r is None,
            self.config_view().auto_save ==> (r matches Some(v) && v@.len() == self.spaces().len()
                && forall|i: int| 0 <= i < v@.len() ==> same_workspace(#[trigger] v@[i], self.spaces()[i])),
    {
        if !self.config.auto_save {
            return None;
        }
        Some(self.copies())
    }
}

impl WorkspaceMetrics {
    /// All counters at zero.
    pub open spec fn default_spec() -> WorkspaceMetrics {
        WorkspaceMetrics { switch_count: 0, created_count: 0, deleted_count: 0, error_count: 0 }
    }
}

/// Storing a workspace and looking its identifier up gives it back.
pub proof fn lemma_upsert_lookup(s: Seq<Workspace>, w: Workspace)
    requires
        ids_unique(s),
    ensures
        has_id(upsert(s, w), w.id),
        lookup(upsert(s, w), w.id) == Some(w),
        ids_unique(upsert(s, w)),
{
    let t = upsert(s, w);
    if has_id(s, w.id) {
        let p = position_of(s, w.id);
        assert(t[p].id == w.id);
        let q = position_of(t, w.id);
        assert(t[q].id == w.id);
        assert(q == p) by {
            if q != p {
                assert(s[q].id == w.id);
                if q < p {
                    assert(s[q].id != s[p].id);
                } else {
                    assert(s[p].id != s[q].id);
                }
            }
        }
        assert forall|a: int, b: int| 0 <= a < b < t.len() implies (#[trigger] t[a]).id != (#[trigger] t[b]).id by {}
    } else {
        let p = s.len() as int;
        assert(t[p].id == w.id);
        let q = position_of(t, w.id);
        assert(q == p) by {
            if q < p {
                assert(s[q].id == w.id);
            }
        }
        assert forall|a: int, b: int| 0 <= a < b < t.len() implies (#[trigger] t[a]).id != (#[trigger] t[b]).id by {
            if b == p {
                assert(s[a].id != w.id);
            }
        }
    }
}

/// Touching a workspace changes only its last use.
pub proof fn lemma_touch_lookup(s: Seq<Workspace>, id: u128, now: i64, x: u128)
    requires
        ids_unique(s),
        has_id(s, id),
    ensures
        ids_unique(touch(s, id, now)),
        has_id(touch(s, id, now), x) == has_id(s, x),
        has_id(s, x) ==> lookup(touch(s, id, now), x) == Some(
            if x == id {
                Workspace { last_used: Some(now), ..lookup(s, id).unwrap() }
            } else {
                lookup(s, x).unwrap()
            },
        ),
{
    let p = position_of(s, id);
    let t = touch(s, id, now);
    assert(s[p].id == id);
    assert forall|a: int, b: int| 0 <= a < b < t.len() implies (#[trigger] t[a]).id != (#[trigger] t[b]).id by {
        assert(t[a].id == s[a].id);
        assert(t[b].id == s[b].id);
    }
    if has_id(s, x) {
        let q = position_of(s, x);
        assert(t[q].id == x);
        let q2 = position_of(t, x);
        assert(t[q2].id == x);
        assert(s[q2].id == x);
        assert(q2 == q) by {
            if q2 < q {
                assert(s[q2].id != s[q].id);
            } else if q2 > q {
                assert(s[q].id != s[q2].id);
            }
        }
    }
    if has_id(t, x) {
        let q2 = position_of(t, x);
        assert(s[q2].id == x);
    }
}


/// Whether no two workspaces share a name.
pub open spec fn names_unique(s: Seq<Workspace>) -> bool {
    forall|i: int, j: int| 0 <= i < j < s.len() ==> (#[trigger] s[i]).name@ != (#[trigger] s[j]).name@
}

/// A deleted workspace is gone, the others stay as they were, and no two
/// workspaces share an identifier afterwards.
pub proof fn law_delete_removes_only_that_workspace(s: Seq<Workspace>, id: u128, x: u128)
    requires
        ids_unique(s),
    ensures
        !has_id(remove_id(s, id), id),
        ids_unique(remove_id(s, id)),
        x != id ==> lookup(remove_id(s, id), x) == lookup(s, x),
        has_id(s, id) ==> remove_id(s, id).len() + 1 == s.len(),
{
    let t = remove_id(s, id);
    if has_id(s, id) {
        let p = position_of(s, id);
        assert(s[p].id == id);
        assert forall|a: int, b: int| 0 <= a < b < t.len() implies (#[trigger] t[a]).id != (#[trigger] t[b]).id by {
            let a0 = if a < p { a } else { a + 1 };
            let b0 = if b < p { b } else { b + 1 };
            assert(t[a] == s[a0]);
            assert(t[b] == s[b0]);
        }
        if has_id(t, id) {
            let k = choose|k: int| 0 <= k < t.len() && (#[trigger] t[k]).id == id;
            let k0 = if k < p { k } else { k + 1 };
            assert(s[k0].id == id);
        }
        if x != id {
            if has_id(s, x) {
                let q = position_of(s, x);
                assert(s[q].id == x);
                let q1 = if q < p { q } else { q - 1 };
                assert(t[q1] == s[q]);
                assert(has_id(t, x));
                let r = position_of(t, x);
                let r0 = if r < p { r } else { r + 1 };
                assert(t[r] == s[r0]);
                assert(r0 == q) by {
                    if r0 < q {
                        assert(s[r0].id != s[q].id);
                    } else if r0 > q {
                        assert(s[q].id != s[r0].id);
                    }
                }
            }
            if has_id(t, x) {
                let r = position_of(t, x);
                let r0 = if r < p { r } else { r + 1 };
                assert(t[r] == s[r0]);
                assert(has_id(s, x));
            }
        }
    }
}

/// A workspace created while under the limit keeps the count within it.
pub proof fn law_create_respects_limit(s: Seq<Workspace>, w: Workspace, max: nat, now: i64)
    requires
        ids_unique(s),
        s.len() < max,
    ensures
        upsert(s, w).len() <= max,
        touch(upsert(s, w), w.id, now).len() <= max,
{
    lemma_upsert_lookup(s, w);
    let t = upsert(s, w);
    let p = position_of(t, w.id);
    assert(0 <= p < t.len());
}

/// Creating a workspace whose name is not taken keeps names unique.
pub proof fn law_create_keeps_names_unique(s: Seq<Workspace>, w: Workspace, now: i64)
    requires
        ids_unique(s),
        names_unique(s),
        !has_name(s, w.name@),
        !has_id(s, w.id),
    ensures
        names_unique(upsert(s, w)),
        names_unique(touch(upsert(s, w), w.id, now)),
{
    let t = upsert(s, w);
    assert(t == s.push(w));
    assert forall|i: int, j: int| 0 <= i < j < t.len() implies (#[trigger] t[i]).name@ != (#[trigger] t[j]).name@ by {
        if j == s.len() {
            assert(s[i].name@ != w.name@);
        }
    }
    lemma_upsert_lookup(s, w);
    let u = touch(t, w.id, now);
    assert forall|i: int, j: int| 0 <= i < j < u.len() implies (#[trigger] u[i]).name@ != (#[trigger] u[j]).name@ by {
        assert(u[i].name == t[i].name);
        assert(u[j].name == t[j].name);
    }
}

/// Whether no two workspaces share a keyboard shortcut.
pub open spec fn shortcuts_unique(s: Seq<Workspace>) -> bool {
    forall|i: int, j: int|
        0 <= i < j < s.len() ==> (#[trigger] s[i]).keyboard_shortcut@ != (#[trigger] s[j]).keyboard_shortcut@
}

/// A creation that succeeds with a fresh identifier adds exactly one
/// workspace at the end, made from the request: the earlier ones stay as they
/// were, the count stays within the limit, and names and shortcuts stay
/// unique. The new workspace becomes the active one when none was.
pub proof fn law_create_adds_one_workspace(
    before: WorkspaceManager,
    after: WorkspaceManager,
    request: WorkspaceCreateRequest,
    default_pattern_id: u128,
    id: u128,
    now: i64,
    r: Result<u128, TilleRSError>,
)
    requires
        before.wf(),
        create_outcome(before, after, request, default_pattern_id, id, now, r),
        r is Ok,
        !has_id(before.spaces(), id),
        names_unique(before.spaces()),
        shortcuts_unique(before.spaces()),
    ensures
        after.spaces().len() == before.spaces().len() + 1,
        after.spaces().len() <= before.config_view().max_workspaces,
        after.spaces().take(before.spaces().len() as int) == before.spaces(),
        after.spaces().last().id == id,
        after.spaces().last().name == request.name,
        after.spaces().last().keyboard_shortcut == request.keyboard_shortcut,
        after.spaces().last().tiling_pattern_id == match request.tiling_pattern_id {
            Some(p) => p,
            None => default_pattern_id,
        },
        after.spaces().last().auto_arrange == match request.auto_arrange {
            Some(a) => a,
            None => true,
        },
        names_unique(after.spaces()),
        shortcuts_unique(after.spaces()),
        after.active() == if before.active() is None {
            Some(id)
        } else {
            before.active()
        },
{
    let s = before.spaces();
    let w = choose|w: Workspace|
        #[trigger] is_created_event(after.pending_events()[before.pending_events().len() as int], w) && w.id == id
            && w.name == request.name && w.keyboard_shortcut == request.keyboard_shortcut
            && w.tiling_pattern_id == match request.tiling_pattern_id {
            Some(p) => p,
            None => default_pattern_id,
        } && w.auto_arrange == match request.auto_arrange {
            Some(a) => a,
            None => true,
        } && (before.active() is None ==> after.spaces() == touch(upsert(s, w), id, now) && after.active() == Some(id))
            && (before.active() is Some ==> after.spaces() == upsert(s, w) && after.active() == before.active());
    let t = upsert(s, w);
    assert(t == s.push(w));
    lemma_upsert_lookup(s, w);
    let n = s.len() as int;
    assert(t[n].id == id);
    assert(position_of(t, id) == n) by {
        let q = position_of(t, id);
        assert(t[q].id == id);
        if q < n {
            assert(s[q].id == id);
        }
    }
    let u = after.spaces();
    assert(u.len() == n + 1);
    assert forall|i: int| 0 <= i < n implies #[trigger] u[i] == s[i] by {
        assert(t[i] == s[i]);
    }
    assert(u.take(n) =~= s);
    assert(u[n].name == w.name && u[n].keyboard_shortcut == w.keyboard_shortcut && u[n].id == id);
    assert(u[n].tiling_pattern_id == w.tiling_pattern_id && u[n].auto_arrange == w.auto_arrange);
    assert forall|i: int, j: int| 0 <= i < j < u.len() implies (#[trigger] u[i]).name@ != (#[trigger] u[j]).name@ by {
        if j == n {
            assert(u[i] == s[i]);
            assert(s[i].name@ != request.name@);
        } else {
            assert(u[i] == s[i] && u[j] == s[j]);
        }
    }
    assert forall|i: int, j: int|
        0 <= i < j < u.len() implies (#[trigger] u[i]).keyboard_shortcut@ != (#[trigger] u[j]).keyboard_shortcut@ by {
        if j == n {
            assert(u[i] == s[i]);
            assert(s[i].keyboard_shortcut@ != request.keyboard_shortcut@);
        } else {
            assert(u[i] == s[i] && u[j] == s[j]);
        }
    }
}

/// Builder for a workspace manager with a custom configuration.
pub struct WorkspaceManagerBuilder {
    config: WorkspaceManagerConfig,
}

impl WorkspaceManagerBuilder {
    /// The configuration being built.
    pub closed spec fn config_view(&self) -> WorkspaceManagerConfig {
        self.config
    }

    /// A builder with the default configuration.
    pub fn new() -> (b: Self)
        ensures
            b.config_view() == default_manager_config(),
    {
        WorkspaceManagerBuilder { config: WorkspaceManagerConfig::default() }
    }

    /// Set the maximum number of workspaces.
    pub fn max_workspaces(self, max: usize) -> (b: Self)
        ensures
            b.config_view() == (WorkspaceManagerConfig { max_workspaces: max, ..self.config_view() }),
    {
        let mut b = self;
        b.config.max_workspaces = max;
        b
    }

    /// Enable or disable auto-save.
    pub fn auto_save(self, enabled: bool) -> (b: Self)
        ensures
            b.config_view() == (WorkspaceManagerConfig { auto_save: enabled, ..self.config_view() }),
    {
        let mut b = self;
        b.config.auto_save = enabled;
        b
    }

    /// Set the auto-save interval in seconds.
    pub fn auto_save_interval(self, seconds: u64) -> (b: Self)
        ensures
            b.config_view() == (WorkspaceManagerConfig { auto_save_interval: seconds, ..self.config_view() }),
    {
        let mut b = self;
        b.config.auto_save_interval = seconds;
        b
    }

    /// Enable or disable restoring the last active workspace.
    pub fn restore_last_active(self, enabled: bool) -> (b: Self)
        ensures
            b.config_view() == (WorkspaceManagerConfig { restore_last_active: enabled, ..self.config_view() }),
    {
        let mut b = self;
        b.config.restore_last_active = enabled;
        b
    }

    /// Enable or disable performance monitoring.
    pub fn performance_monitoring(self, enabled: bool) -> (b: Self)
        ensures
            b.config_view() == (WorkspaceManagerConfig { performance_monitoring: enabled, ..self.config_view() }),
    {
        let mut b = self;
        b.config.performance_monitoring = enabled;
        b
    }

    /// The configuration built so far.
    pub fn config(&self) -> (c: WorkspaceManagerConfig)
        ensures
            c == self.config_view(),
    {
        self.config
    }

    /// Build the workspace manager.
    pub fn build(self) -> (r: Result<WorkspaceManager, TilleRSError>)
        ensures
            r matches Ok(m) && m.wf() && m.spaces().len() == 0 && m.active() is None
                && m.config_view() == self.config_view(),
    {
        WorkspaceManager::new(self.config)
    }
}

impl Default for WorkspaceManagerBuilder {
    fn default() -> (b: Self)
        ensures
            b.config_view() == default_manager_config(),
    {
        Self::new()
    }
}

} // verus!
