//! The decisions that tie workspaces, windows and tiling together: which
//! pattern arranges the active workspace and which windows it tiles, what a
//! keyboard action asks for, which window takes the focus next, and the
//! workspace operations that keyboard actions perform.
//!
//! The work that goes through the Accessibility provider (listing windows,
//! moving them, focusing them) and the layout arithmetic in display points
//! are done by the caller between these steps.

use vstd::prelude::*;
use crate::TilleRSError;
use crate::text;
use crate::table::{keys_unique, entry_of, lemma_entry_absent, lemma_entry_at, lemma_entry_set, lemma_entry_push};
use crate::models::keyboard_mapping::{ActionParameters, ActionType};
use crate::models::tiling_pattern::TilingPattern;
use crate::models::workspace::{Workspace, WorkspaceCreateRequest};
use crate::services::keyboard_handler::{KeyboardEvent, KeyboardHandler};
use crate::services::tiling_engine::TilingEngine;
use crate::services::window_manager::{WindowInfo, WindowManager, WindowMode, focus_applied, law_focus_is_exclusive};
use crate::table::{Keyed, keys_increasing};
use crate::services::workspace_manager::{WorkspaceEvent, WorkspaceManager, WorkspaceMetrics, lookup, has_id, has_name, has_shortcut};
use crate::models::workspace::is_validation_error;

verus! {

/// Configuration of the orchestrator.
#[derive(Debug, Clone, Copy, PartialEq, Eq, Structural)]
pub struct OrchestratorConfig {
    /// Whether windows are arranged when a workspace is switched to
    pub auto_arrange_on_switch: bool,
    /// Whether windows are arranged when new windows appear
    pub auto_arrange_on_new_window: bool,
    /// Delay in milliseconds before a layout is applied
    pub layout_delay_ms: u64,
    /// Most windows that are tiled automatically
    pub max_auto_tile_windows: usize,
}

/// The default configuration.
pub open spec fn default_orchestrator_config() -> OrchestratorConfig {
    OrchestratorConfig {
        auto_arrange_on_switch: true,
        auto_arrange_on_new_window: true,
        layout_delay_ms: 100,
        max_auto_tile_windows: 20,
    }
}

impl Default for OrchestratorConfig {
    fn default() -> (c: Self)
        ensures
            c == default_orchestrator_config(),
    {
        OrchestratorConfig {
            auto_arrange_on_switch: true,
            auto_arrange_on_new_window: true,
            layout_delay_ms: 100,
            max_auto_tile_windows: 20,
        }
    }
}

/// Counters of the orchestrator.
#[derive(Debug, Clone, Copy, PartialEq, Eq, Structural)]
pub struct OrchestratorMetrics {
    pub workspace_switches: u64,
    pub windows_tiled: u64,
    pub layout_errors: u64,
}

/// What a keyboard action asks of the orchestrator.
#[derive(Debug, Clone, PartialEq, Eq)]
pub enum OrchestratorAction {
    /// Switch to the workspace with this id
    SwitchWorkspace(u128),
    /// Switch to the first workspace (no workspace was named)
    SwitchToFirstWorkspace,
    /// Move the focused window to the workspace with this id
    MoveFocusedWindowToWorkspace(u128),
    /// Move the focused window to the monitor with this id
    MoveFocusedWindowToMonitor(String),
    /// Create a workspace with this name
    CreateWorkspace(String),
    /// Delete the active workspace
    DeleteCurrentWorkspace,
    /// Toggle floating mode of the focused window
    ToggleFocusedWindowFloating,
    /// Toggle fullscreen mode of the focused window
    ToggleFocusedWindowFullscreen,
    /// Focus the next tileable window
    FocusNextWindow,
    /// Focus the previous tileable window
    FocusPreviousWindow,
    /// Close the focused window
    CloseFocusedWindow,
    /// Arrange the active workspace
    ArrangeCurrentWorkspace,
    /// Show the workspace overview
    ShowOverview,
    /// A custom action, which is not implemented
    Custom(String),
    /// An action the orchestrator does not handle
    Unhandled,
    /// The action came without the parameter it needs: nothing to do
    Ignored,
}

/// What a keyboard event asks for.
pub open spec fn action_for(event: KeyboardEvent) -> OrchestratorAction {
    match event.action {
        ActionType::SwitchWorkspace => match event.parameters {
            ActionParameters::WorkspaceId(id) => OrchestratorAction::SwitchWorkspace(id),
            _ => OrchestratorAction::SwitchToFirstWorkspace,
        },
        ActionType::MoveWindow => match event.parameters {
            ActionParameters::WorkspaceId(id) => OrchestratorAction::MoveFocusedWindowToWorkspace(id),
            _ => OrchestratorAction::Ignored,
        },
        ActionType::MoveWindowToMonitor => match event.parameters {
            ActionParameters::MonitorId(m) => OrchestratorAction::MoveFocusedWindowToMonitor(m),
            _ => OrchestratorAction::Ignored,
        },
        ActionType::CreateWorkspace => match event.parameters {
            ActionParameters::WorkspaceName(n) => OrchestratorAction::CreateWorkspace(n),
            _ => OrchestratorAction::Ignored,
        },
        ActionType::DeleteWorkspace => OrchestratorAction::DeleteCurrentWorkspace,
        ActionType::ToggleFloating => OrchestratorAction::ToggleFocusedWindowFloating,
        ActionType::ToggleFullscreen => OrchestratorAction::ToggleFocusedWindowFullscreen,
        ActionType::FocusNext => OrchestratorAction::FocusNextWindow,
        ActionType::FocusPrevious => OrchestratorAction::FocusPreviousWindow,
        ActionType::CloseWindow => OrchestratorAction::CloseFocusedWindow,
        ActionType::RefreshLayout => OrchestratorAction::ArrangeCurrentWorkspace,
        ActionType::ShowOverview => OrchestratorAction::ShowOverview,
        ActionType::Custom(a) => OrchestratorAction::Custom(a),
        _ => OrchestratorAction::Unhandled,
    }
}

/// Each shortcut action is carried out by the orchestrator action of the
/// same meaning: focusing the next window only for FocusNext, the previous
/// one only for FocusPrevious, and likewise for the other actions; a
/// workspace or monitor named by the event is the one acted on. Two events
/// carried out the same way (other than ignored or unhandled) ask for the
/// same action.
pub proof fn law_actions_dispatch_by_meaning(e: KeyboardEvent, other: KeyboardEvent)
    ensures
        action_for(e) == OrchestratorAction::FocusNextWindow <==> e.action == ActionType::FocusNext,
        action_for(e) == OrchestratorAction::FocusPreviousWindow <==> e.action == ActionType::FocusPrevious,
        action_for(e) == OrchestratorAction::DeleteCurrentWorkspace <==> e.action == ActionType::DeleteWorkspace,
        action_for(e) == OrchestratorAction::ToggleFocusedWindowFloating <==> e.action == ActionType::ToggleFloating,
        action_for(e) == OrchestratorAction::ToggleFocusedWindowFullscreen <==> e.action
            == ActionType::ToggleFullscreen,
        action_for(e) == OrchestratorAction::CloseFocusedWindow <==> e.action == ActionType::CloseWindow,
        action_for(e) == OrchestratorAction::ArrangeCurrentWorkspace <==> e.action == ActionType::RefreshLayout,
        action_for(e) == OrchestratorAction::ShowOverview <==> e.action == ActionType::ShowOverview,
        (action_for(e) is SwitchWorkspace || action_for(e) is SwitchToFirstWorkspace) <==> e.action
            == ActionType::SwitchWorkspace,
        forall|id: u128|
            action_for(e) == OrchestratorAction::SwitchWorkspace(id) <==> (e.action == ActionType::SwitchWorkspace
                && e.parameters == ActionParameters::WorkspaceId(id)),
        forall|id: u128|
            action_for(e) == OrchestratorAction::MoveFocusedWindowToWorkspace(id) <==> (e.action
                == ActionType::MoveWindow && e.parameters == ActionParameters::WorkspaceId(id)),
        forall|m: String|
            action_for(e) == OrchestratorAction::MoveFocusedWindowToMonitor(m) <==> (e.action
                == ActionType::MoveWindowToMonitor && e.parameters == ActionParameters::MonitorId(m)),
        forall|n: String|
            action_for(e) == OrchestratorAction::CreateWorkspace(n) <==> (e.action == ActionType::CreateWorkspace
                && e.parameters == ActionParameters::WorkspaceName(n)),
        forall|c: String| action_for(e) == OrchestratorAction::Custom(c) <==> e.action == ActionType::Custom(c),
        action_for(e) == action_for(other) && !(action_for(e) is Ignored) && !(action_for(e) is Unhandled)
            ==> e.action == other.action,
{
}

/// Whether a window is tiled automatically: not minimized, not fullscreen,
/// in tiled mode, and larger than the minimum size on both sides.
pub open spec fn is_tileable<F>(w: WindowInfo<F>, large_enough: bool) -> bool {
    !w.is_minimized && !w.is_fullscreen && w.mode == WindowMode::Tiled && large_enough
}

/// The tileable windows of a list, in list order; `large` says of each
/// window whether it passes the minimum size.
pub open spec fn tileable_of<F>(s: Seq<WindowInfo<F>>, large: Seq<bool>) -> Seq<WindowInfo<F>>
    decreases s.len(),
{
    if s.len() == 0 || large.len() != s.len() {
        seq![]
    } else if is_tileable(s.last(), large.last()) {
        tileable_of(s.drop_last(), large.drop_last()).push(s.last())
    } else {
        tileable_of(s.drop_last(), large.drop_last())
    }
}

/// The ids of a list of windows.
pub open spec fn ids_of<F>(s: Seq<WindowInfo<F>>) -> Seq<u32> {
    s.map_values(|w: WindowInfo<F>| w.id)
}

/// The position of the first focused window, if any.
#[verifier::opaque]
pub open spec fn first_focused<F>(s: Seq<WindowInfo<F>>) -> Option<int> {
    if exists|i: int| 0 <= i < s.len() && (#[trigger] s[i]).is_focused {
        Some(choose|i: int| 0 <= i < s.len() && (#[trigger] s[i]).is_focused
            && forall|j: int| 0 <= j < i ==> !(#[trigger] s[j]).is_focused)
    } else {
        None
    }
}

/// The window to focus after the first focused one, cyclically; the first
/// window when none is focused; nothing with fewer than two windows.
pub open spec fn next_focus_target<F>(s: Seq<WindowInfo<F>>) -> Option<u32> {
    if s.len() <= 1 {
        None
    } else {
        match first_focused(s) {
            Some(i) => Some(s[(i + 1) % (s.len() as int)].id),
            None => Some(s[0].id),
        }
    }
}

/// The window to focus before the first focused one, cyclically; the last
/// window when none is focused; nothing with fewer than two windows.
pub open spec fn previous_focus_target<F>(s: Seq<WindowInfo<F>>) -> Option<u32> {
    if s.len() <= 1 {
        None
    } else {
        match first_focused(s) {
            Some(i) => Some(s[if i == 0 { s.len() - 1 } else { i - 1 }].id),
            None => Some(s[s.len() - 1].id),
        }
    }
}

/// The message of a workspace whose pattern is not registered.
pub open spec fn pattern_missing_message(id: u128) -> Seq<char> {
    "Tiling pattern "@ + text::uuid_text(id) + " not found"@
}

/// The shortcut of a workspace created from the keyboard: Option with the
/// first letter of the name, or `x` for an empty name.
pub open spec fn created_shortcut(name: Seq<char>) -> Seq<char> {
    "opt+"@.push(if name.len() > 0 { name[0] } else { 'x' })
}

/// The request for a workspace created from the keyboard.
pub open spec fn is_created_request(r: WorkspaceCreateRequest, name: Seq<char>) -> bool {
    &&& r.name@ == name
    &&& r.description matches Some(d) && d@ == "Workspace created via keyboard shortcut"@
    &&& r.keyboard_shortcut@ == created_shortcut(name)
    &&& r.tiling_pattern_id is None
    &&& r.auto_arrange == Some(true)
}

/// What checking the request of a workspace created from the keyboard
/// gives: the name's problem, else the shortcut's (its description always
/// passes).
pub open spec fn created_request_error(name: Seq<char>) -> Option<Seq<char>> {
    if crate::models::workspace::name_error(name) is Some {
        crate::models::workspace::name_error(name)
    } else {
        crate::models::workspace::shortcut_text_error(created_shortcut(name))
    }
}

proof fn lemma_byte_len_bound(s: Seq<char>)
    ensures
        crate::models::workspace::byte_len(s) <= 4 * s.len(),
    decreases s.len(),
{
    if s.len() > 0 {
        lemma_byte_len_bound(s.drop_last());
    }
}

/// The request made for a name fails its checks exactly as
/// `created_request_error` says.
proof fn lemma_created_request_error(r: WorkspaceCreateRequest, name: Seq<char>)
    requires
        is_created_request(r, name),
    ensures
        crate::models::workspace::create_request_error(r) == created_request_error(name),
{
    reveal_strlit("Workspace created via keyboard shortcut");
    let d = r.description.unwrap();
    lemma_byte_len_bound(d@);
    assert(crate::models::workspace::description_error(r.description) is None);
}

/// The position of the first focused window, if any.
fn first_focused_index<F>(windows: &Vec<WindowInfo<F>>) -> (r: Option<usize>)
    ensures
        match r {
            Some(i) => first_focused(windows@) == Some(i as int) && i < windows.len(),
            None => first_focused(windows@) is None,
        },
{
    let mut i: usize = 0;
    while i < windows.len()
        invariant
            i <= windows@.len(),
            forall|j: int| 0 <= j < i ==> !(#[trigger] windows@[j]).is_focused,
        decreases windows@.len() - i,
    {
        if windows[i].is_focused {
            proof {
                reveal(first_focused);
                let s = windows@;
                assert(s[i as int].is_focused);
                let c = choose|c: int| 0 <= c < s.len() && (#[trigger] s[c]).is_focused
                    && forall|j: int| 0 <= j < c ==> !(#[trigger] s[j]).is_focused;
                assert(0 <= i < s.len() && s[i as int].is_focused
                    && forall|j: int| 0 <= j < i ==> !(#[trigger] s[j]).is_focused);
                if c < i {
                    assert(!s[c].is_focused);
                } else if c > i {
                    assert(!s[i as int].is_focused);
                }
            }
            return Some(i);
        }
        i = i + 1;
    }
    proof {
        reveal(first_focused);
    }
    None
}

/// The tileable windows of a list, in list order. `large_enough` says of
/// each window whether its frame is larger than the minimum on both sides.
pub fn tileable_windows<F: Copy>(windows: &Vec<WindowInfo<F>>, large_enough: &Vec<bool>) -> (r: Vec<WindowInfo<F>>)
    requires
        large_enough.len() == windows.len(),
    ensures
        r@ == tileable_of(windows@, large_enough@),
{
    let mut out: Vec<WindowInfo<F>> = Vec::new();
    let mut i: usize = 0;
    while i < windows.len()
        invariant
            i <= windows@.len(),
            large_enough@.len() == windows@.len(),
            out@ == tileable_of(windows@.take(i as int), large_enough@.take(i as int)),
        decreases windows@.len() - i,
    {
        let ghost pre = windows@.take(i as int);
        let ghost lpre = large_enough@.take(i as int);
        let w = &windows[i];
        if !w.is_minimized && !w.is_fullscreen && w.mode == WindowMode::Tiled && large_enough[i] {
            out.push(w.duplicate());
        }
        i = i + 1;
        assert(windows@.take(i as int).drop_last() =~= pre);
        assert(large_enough@.take(i as int).drop_last() =~= lpre);
    }
    assert(windows@.take(i as int) =~= windows@);
    assert(large_enough@.take(i as int) =~= large_enough@);
    out
}

/// The first focused window of a list, if any.
pub fn focused_window<F: Copy>(windows: &Vec<WindowInfo<F>>) -> (r: Option<WindowInfo<F>>)
    ensures
        match first_focused(windows@) {
            Some(i) => r == Some(windows@[i]),
            None => r is None,
        },
{
    match first_focused_index(windows) {
        Some(i) => Some(windows[i].duplicate()),
        None => None,
    }
}

/// The id of the window to focus next among the tileable windows.
pub fn next_window_to_focus<F>(windows: &Vec<WindowInfo<F>>) -> (r: Option<u32>)
    ensures
        r == next_focus_target(windows@),
{
    if windows.len() <= 1 {
        return None;
    }
    match first_focused_index(windows) {
        Some(i) => {
            let n = (i + 1) % windows.len();
            Some(windows[n].id)
        },
        None => Some(windows[0].id),
    }
}

/// The id of the window to focus previously among the tileable windows.
pub fn previous_window_to_focus<F>(windows: &Vec<WindowInfo<F>>) -> (r: Option<u32>)
    ensures
        r == previous_focus_target(windows@),
{
    if windows.len() <= 1 {
        return None;
    }
    match first_focused_index(windows) {
        Some(i) => {
            let p = if i == 0 { windows.len() - 1 } else { i - 1 };
            Some(windows[p].id)
        },
        None => Some(windows[windows.len() - 1].id),
    }
}

/// What a keyboard event asks of the orchestrator.
pub fn keyboard_action(event: &KeyboardEvent) -> (a: OrchestratorAction)
    ensures
        a == action_for(*event),
{
    match &event.action {
        ActionType::SwitchWorkspace => match &event.parameters {
            ActionParameters::WorkspaceId(id) => OrchestratorAction::SwitchWorkspace(*id),
            _ => OrchestratorAction::SwitchToFirstWorkspace,
        },
        ActionType::MoveWindow => match &event.parameters {
            ActionParameters::WorkspaceId(id) => OrchestratorAction::MoveFocusedWindowToWorkspace(*id),
            _ => OrchestratorAction::Ignored,
        },
        ActionType::MoveWindowToMonitor => match &event.parameters {
            ActionParameters::MonitorId(m) => OrchestratorAction::MoveFocusedWindowToMonitor(m.clone()),
            _ => OrchestratorAction::Ignored,
        },
        ActionType::CreateWorkspace => match &event.parameters {
            ActionParameters::WorkspaceName(n) => OrchestratorAction::CreateWorkspace(n.clone()),
            _ => OrchestratorAction::Ignored,
        },
        ActionType::DeleteWorkspace => OrchestratorAction::DeleteCurrentWorkspace,
        ActionType::ToggleFloating => OrchestratorAction::ToggleFocusedWindowFloating,
        ActionType::ToggleFullscreen => OrchestratorAction::ToggleFocusedWindowFullscreen,
        ActionType::FocusNext => OrchestratorAction::FocusNextWindow,
        ActionType::FocusPrevious => OrchestratorAction::FocusPreviousWindow,
        ActionType::CloseWindow => OrchestratorAction::CloseFocusedWindow,
        ActionType::RefreshLayout => OrchestratorAction::ArrangeCurrentWorkspace,
        ActionType::ShowOverview => OrchestratorAction::ShowOverview,
        ActionType::Custom(a) => OrchestratorAction::Custom(a.clone()),
        _ => OrchestratorAction::Unhandled,
    }
}

/// The request for a workspace created from the keyboard with this name.
pub fn created_workspace_request(name: &str) -> (r: WorkspaceCreateRequest)
    ensures
        is_created_request(r, name@),
{
    let cs = text::chars_of(name);
    let first = if cs.len() > 0 { cs[0] } else { 'x' };
    let mut shortcut = text::owned("opt+");
    text::push_char(&mut shortcut, first);
    WorkspaceCreateRequest {
        name: text::owned(name),
        description: Some(text::owned("Workspace created via keyboard shortcut")),
        keyboard_shortcut: shortcut,
        tiling_pattern_id: None,
        auto_arrange: Some(true),
    }
}

/// The orchestrator: the services it ties together, its registry of tiling
/// patterns (one per id) and its configuration.
pub struct WorkspaceOrchestrator<F> {
    pub workspace_manager: WorkspaceManager,
    pub window_manager: WindowManager<F>,
    pub tiling_engine: TilingEngine,
    pub keyboard_handler: KeyboardHandler,
    pub patterns: Vec<(u128, TilingPattern)>,
    pub config: OrchestratorConfig,
}

impl<F: Copy> WorkspaceOrchestrator<F> {
    /// The registered patterns, by id.
    pub open spec fn patterns_view(&self) -> Seq<(u128, TilingPattern)> {
        self.patterns@
    }

    /// The configuration.
    pub open spec fn config_view(&self) -> OrchestratorConfig {
        self.config
    }

    /// Whether the registry holds one pattern per id.
    pub open spec fn wf(&self) -> bool {
        keys_unique(self.patterns@)
    }

    /// An orchestrator of the given services with no pattern registered.
    pub fn new(
        workspace_manager: WorkspaceManager,
        window_manager: WindowManager<F>,
        tiling_engine: TilingEngine,
        keyboard_handler: KeyboardHandler,
        config: OrchestratorConfig,
    ) -> (o: Self)
        ensures
            o.wf(),
            o.patterns_view().len() == 0,
            o.config_view() == config,
            o.workspace_manager == workspace_manager,
            o.window_manager == window_manager,
            o.tiling_engine == tiling_engine,
            o.keyboard_handler == keyboard_handler,
    {
        WorkspaceOrchestrator {
            workspace_manager,
            window_manager,
            tiling_engine,
            keyboard_handler,
            patterns: Vec::new(),
            config,
        }
    }

    /// The configuration.
    pub fn config(&self) -> (c: OrchestratorConfig)
        ensures
            c == self.config_view(),
    {
        self.config
    }

    /// Registers a pattern under its id, replacing any pattern with that id.
    pub fn add_tiling_pattern(&mut self, pattern: TilingPattern)
        requires
            old(self).wf(),
        ensures
            final(self).wf(),
            entry_of(final(self).patterns_view(), pattern.id) == Some(pattern),
            forall|k: u128| k != pattern.id ==> entry_of(final(self).patterns_view(), k) == entry_of(old(self).patterns_view(), k),
            final(self).config_view() == old(self).config_view(),
            final(self).workspace_manager == old(self).workspace_manager,
            final(self).window_manager == old(self).window_manager,
    {
        let ghost t = self.patterns@;
        let mut i: usize = 0;
        while i < self.patterns.len()
            invariant
                i <= self.patterns@.len(),
                self.patterns@ == t,
                t == old(self).patterns@,
                keys_unique(t),
                self.config == old(self).config,
                self.workspace_manager == old(self).workspace_manager,
                self.window_manager == old(self).window_manager,
                forall|j: int| 0 <= j < i ==> (#[trigger] t[j]).0 != pattern.id,
            decreases self.patterns@.len() - i,
        {
            if self.patterns[i].0 == pattern.id {
                let id = pattern.id;
                self.patterns.set(i, (id, pattern));
                proof {
                    assert(self.patterns@ == t.update(i as int, (id, pattern)));
                    lemma_entry_set(t, i as int, (id, pattern));
                    assert forall|k: u128| k != pattern.id implies entry_of(self.patterns_view(), k) == entry_of(old(self).patterns_view(), k) by {
                        assert(k != (id, pattern).0);
                    }
                }
                return;
            }
            i = i + 1;
        }
        proof {
            lemma_entry_absent(t, pattern.id);
            lemma_entry_push(t, (pattern.id, pattern));
        }
        let id = pattern.id;
        self.patterns.push((id, pattern));
    }

    /// The pattern registered under an id, if any.
    pub fn get_pattern(&self, id: u128) -> (r: Option<TilingPattern>)
        requires
            self.wf(),
        ensures
            r == entry_of(self.patterns_view(), id),
    {
        let mut i: usize = 0;
        while i < self.patterns.len()
            invariant
                i <= self.patterns@.len(),
                keys_unique(self.patterns@),
                forall|j: int| 0 <= j < i ==> (#[trigger] self.patterns@[j]).0 != id,
            decreases self.patterns@.len() - i,
        {
            if self.patterns[i].0 == id {
                proof {
                    lemma_entry_at(self.patterns@, i as int);
                }
                return Some(self.patterns[i].1.duplicate());
            }
            i = i + 1;
        }
        proof {
            lemma_entry_absent(self.patterns@, id);
        }
        None
    }

    /// Whether a pattern is registered under an id.
    pub fn has_pattern(&self, id: u128) -> (b: bool)
        requires
            self.wf(),
        ensures
            b == (entry_of(self.patterns_view(), id) is Some),
    {
        self.get_pattern(id).is_some()
    }

    /// The pattern that arranges the active workspace: nothing when no
    /// workspace is active or the active one is not arranged automatically,
    /// and a configuration error when its pattern is not registered.
    pub fn arrangement_pattern(&self) -> (r: Result<Option<TilingPattern>, TilleRSError>)
        requires
            self.wf(),
            self.workspace_manager.wf(),
        ensures
            match self.workspace_manager.active() {
                None => r == Ok::<Option<TilingPattern>, TilleRSError>(None),
                Some(a) => match lookup(self.workspace_manager.spaces(), a) {
                    None => r == Ok::<Option<TilingPattern>, TilleRSError>(None),
                    Some(w) => if !w.auto_arrange {
                        r == Ok::<Option<TilingPattern>, TilleRSError>(None)
                    } else {
                        match entry_of(self.patterns_view(), w.tiling_pattern_id) {
                            Some(p) => r == Ok::<Option<TilingPattern>, TilleRSError>(Some(p)),
                            None => r matches Err(TilleRSError::ConfigurationError(m))
                                && m@ == pattern_missing_message(w.tiling_pattern_id),
                        }
                    },
                },
            },
    {
        let workspace = match self.workspace_manager.get_active_workspace() {
            Some(w) => w,
            None => {
                return Ok(None);
            },
        };
        if !workspace.auto_arrange {
            return Ok(None);
        }
        match self.get_pattern(workspace.tiling_pattern_id) {
            Some(p) => Ok(Some(p)),
            None => {
                let mut m = text::owned("Tiling pattern ");
                let id_text = text::uuid_string(workspace.tiling_pattern_id);
                text::push_str(&mut m, id_text.as_str());
                text::push_str(&mut m, " not found");
                Err(TilleRSError::ConfigurationError(m))
            },
        }
    }

    /// The ids of the windows to tile: none when there is no tileable window
    /// or more than the configured maximum.
    pub fn windows_to_tile(&self, tileable: &Vec<WindowInfo<F>>) -> (r: Option<Vec<u32>>)
        ensures
            if tileable.len() == 0 || tileable.len() > self.config_view().max_auto_tile_windows {
                r is None
            } else {
                r matches Some(v) && v@ == ids_of(tileable@)
            },
    {
        if tileable.len() == 0 || tileable.len() > self.config.max_auto_tile_windows {
            return None;
        }
        let mut ids: Vec<u32> = Vec::new();
        let mut i: usize = 0;
        while i < tileable.len()
            invariant
                i <= tileable@.len(),
                ids@ == ids_of(tileable@.take(i as int)),
            decreases tileable@.len() - i,
        {
            ids.push(tileable[i].id);
            i = i + 1;
            assert(ids@ =~= ids_of(tileable@.take(i as int)));
        }
        assert(tileable@.take(i as int) =~= tileable@);
        Some(ids)
    }

    /// Whether a workspace event calls for arranging the active workspace:
    /// only the activation of an automatically arranged workspace, when the
    /// configuration arranges on switch.
    pub fn arranges_on(&self, event: &WorkspaceEvent) -> (b: bool)
        ensures
            b == (event matches WorkspaceEvent::WorkspaceActivated { workspace, .. }
                && self.config_view().auto_arrange_on_switch && workspace.auto_arrange),
    {
        match event {
            WorkspaceEvent::WorkspaceActivated { workspace, .. } => self.config.auto_arrange_on_switch && workspace.auto_arrange,
            _ => false,
        }
    }

    /// A registered pattern id for a new workspace, when there is one;
    /// otherwise a fresh id.
    pub fn default_pattern_id(&self) -> (id: u128)
        requires
            self.wf(),
        ensures
            self.patterns_view().len() > 0 ==> entry_of(self.patterns_view(), id) is Some,
    {
        if self.patterns.len() > 0 {
            proof {
                lemma_entry_at(self.patterns@, 0);
            }
            self.patterns[0].0
        } else {
            crate::ids::new_id()
        }
    }

    /// Switches to the workspace with an id.
    pub fn switch_workspace(&mut self, workspace_id: u128) -> (r: Result<(), TilleRSError>)
        requires
            old(self).workspace_manager.wf(),
            old(self).workspace_manager.metrics_view().switch_count < u64::MAX,
        ensures
            final(self).workspace_manager.wf(),
            r is Ok <==> has_id(old(self).workspace_manager.spaces(), workspace_id),
            r is Ok ==> final(self).workspace_manager.active() == Some(workspace_id),
            r is Err ==> final(self).workspace_manager.active() == old(self).workspace_manager.active()
                && final(self).workspace_manager.spaces() == old(self).workspace_manager.spaces(),
            final(self).patterns_view() == old(self).patterns_view(),
            final(self).config_view() == old(self).config_view(),
    {
        self.workspace_manager.switch_to_workspace(workspace_id)
    }

    /// Switches to the first workspace, when there is one.
    pub fn switch_to_first_workspace(&mut self) -> (r: Result<(), TilleRSError>)
        requires
            old(self).workspace_manager.wf(),
            old(self).workspace_manager.metrics_view().switch_count < u64::MAX,
        ensures
            final(self).workspace_manager.wf(),
            old(self).workspace_manager.spaces().len() == 0 ==> r is Ok
                && final(self).workspace_manager == old(self).workspace_manager,
            old(self).workspace_manager.spaces().len() > 0 ==> r is Ok
                && final(self).workspace_manager.active() == Some(old(self).workspace_manager.spaces()[0].id),
            final(self).patterns_view() == old(self).patterns_view(),
            final(self).config_view() == old(self).config_view(),
    {
        let workspaces = self.workspace_manager.get_all_workspaces();
        if workspaces.len() > 0 {
            let first = workspaces[0].id;
            assert(has_id(self.workspace_manager.spaces(), first)) by {
                assert(self.workspace_manager.spaces()[0].id == first);
            }
            self.workspace_manager.switch_to_workspace(first)
        } else {
            Ok(())
        }
    }

    /// Creates a workspace from the keyboard: Option with the name's first
    /// letter as its shortcut, arranged automatically, under a registered
    /// pattern when there is one.
    pub fn create_new_workspace(&mut self, name: &str) -> (r: Result<u128, TilleRSError>)
        requires
            old(self).wf(),
            old(self).workspace_manager.wf(),
            crate::services::workspace_manager::counters_have_room(old(self).workspace_manager.metrics_view()),
        ensures
            final(self).wf(),
            final(self).workspace_manager.wf(),
            ({
                let s = old(self).workspace_manager.spaces();
                let max = old(self).workspace_manager.config_view().max_workspaces;
                let sc = created_shortcut(name@);
                &&& r is Ok <==> (s.len() < max && !has_name(s, name@) && !has_shortcut(s, sc)
                    && created_request_error(name@) is None)
                &&& s.len() >= max ==> (r matches Err(e) && is_validation_error(
                    e,
                    "Maximum workspace limit of "@ + text::decimal(max as nat) + " reached"@,
                ))
                &&& s.len() < max && has_name(s, name@) ==> (r matches Err(e) && is_validation_error(
                    e,
                    "Workspace name '"@ + name@ + "' already exists"@,
                ))
                &&& s.len() < max && !has_name(s, name@) && has_shortcut(s, sc) ==> (r matches Err(e)
                    && is_validation_error(e, "Keyboard shortcut '"@ + sc + "' already exists"@))
                &&& s.len() < max && !has_name(s, name@) && !has_shortcut(s, sc) && created_request_error(name@) is Some
                    ==> (r matches Err(e) && is_validation_error(e, created_request_error(name@).unwrap()))
            }),
            r matches Ok(id) ==> final(self).workspace_manager.active() == if old(self).workspace_manager.active() is None {
                Some(id)
            } else {
                old(self).workspace_manager.active()
            },
            r matches Ok(id) ==> lookup(final(self).workspace_manager.spaces(), id).unwrap().description matches Some(d)
                && d@ == "Workspace created via keyboard shortcut"@,
            r matches Ok(id) ==> has_id(final(self).workspace_manager.spaces(), id)
                && lookup(final(self).workspace_manager.spaces(), id).unwrap().name@ == name@
                && lookup(final(self).workspace_manager.spaces(), id).unwrap().keyboard_shortcut@ == created_shortcut(name@)
                && lookup(final(self).workspace_manager.spaces(), id).unwrap().auto_arrange
                && (old(self).patterns_view().len() > 0 ==> entry_of(old(self).patterns_view(),
                    lookup(final(self).workspace_manager.spaces(), id).unwrap().tiling_pattern_id) is Some),
            r is Err ==> final(self).workspace_manager.spaces() == old(self).workspace_manager.spaces(),
            final(self).patterns_view() == old(self).patterns_view(),
            final(self).config_view() == old(self).config_view(),
    {
        let request = created_workspace_request(name);
        proof {
            lemma_created_request_error(request, name@);
        }
        let default_id = self.default_pattern_id();
        self.workspace_manager.create_workspace(request, default_id)
    }

    /// Deletes the active workspace, when there is one.
    pub fn delete_current_workspace(&mut self) -> (r: Result<(), TilleRSError>)
        requires
            old(self).workspace_manager.wf(),
            old(self).workspace_manager.metrics_view().switch_count < u64::MAX,
            old(self).workspace_manager.metrics_view().deleted_count < u64::MAX,
        ensures
            final(self).workspace_manager.wf(),
            r is Ok,
            match old(self).workspace_manager.active() {
                Some(a) => has_id(old(self).workspace_manager.spaces(), a)
                    ==> !has_id(final(self).workspace_manager.spaces(), a),
                None => final(self).workspace_manager == old(self).workspace_manager,
            },
            final(self).patterns_view() == old(self).patterns_view(),
            final(self).config_view() == old(self).config_view(),
    {
        match self.workspace_manager.get_active_workspace() {
            Some(active) => {
                let r = self.workspace_manager.delete_workspace(active.id);
                r
            },
            None => Ok(()),
        }
    }

    /// Handles a keyboard event: the workspace actions (switching, creating,
    /// deleting) are performed here; every action, performed or not, is
    /// given back so that the caller carries out the window actions (which
    /// go through the Accessibility provider). An error of a workspace
    /// action is passed on.
    pub fn handle_keyboard_event(&mut self, event: &KeyboardEvent) -> (r: Result<OrchestratorAction, TilleRSError>)
        requires
            old(self).wf(),
            old(self).workspace_manager.wf(),
            crate::services::workspace_manager::counters_have_room(old(self).workspace_manager.metrics_view()),
        ensures
            final(self).wf(),
            final(self).workspace_manager.wf(),
            final(self).patterns_view() == old(self).patterns_view(),
            final(self).config_view() == old(self).config_view(),
            r is Ok ==> r == Ok::<OrchestratorAction, TilleRSError>(action_for(*event)),
            match action_for(*event) {
                OrchestratorAction::SwitchWorkspace(id) => (r is Ok <==> has_id(old(self).workspace_manager.spaces(), id))
                    && (r is Ok ==> final(self).workspace_manager.active() == Some(id))
                    && (r is Err ==> final(self).workspace_manager.spaces() == old(self).workspace_manager.spaces()),
                OrchestratorAction::SwitchToFirstWorkspace => r is Ok
                    && (old(self).workspace_manager.spaces().len() > 0 ==> final(self).workspace_manager.active()
                        == Some(old(self).workspace_manager.spaces()[0].id)),
                OrchestratorAction::CreateWorkspace(name) =>
                    (r is Ok ==> exists|id: u128| #[trigger] has_id(final(self).workspace_manager.spaces(), id)
                        && lookup(final(self).workspace_manager.spaces(), id).unwrap().name@ == name@
                        && lookup(final(self).workspace_manager.spaces(), id).unwrap().keyboard_shortcut@ == created_shortcut(name@))
                    && (r is Err ==> final(self).workspace_manager.spaces() == old(self).workspace_manager.spaces()),
                OrchestratorAction::DeleteCurrentWorkspace => r is Ok
                    && match old(self).workspace_manager.active() {
                        Some(a) => has_id(old(self).workspace_manager.spaces(), a)
                            ==> !has_id(final(self).workspace_manager.spaces(), a),
                        None => final(self).workspace_manager == old(self).workspace_manager,
                    },
                _ => r is Ok && final(self).workspace_manager == old(self).workspace_manager,
            },
    {
        let action = keyboard_action(event);
        match &action {
            OrchestratorAction::SwitchWorkspace(id) => {
                match self.switch_workspace(*id) {
                    Ok(()) => {},
                    Err(e) => {
                        return Err(e);
                    },
                }
            },
            OrchestratorAction::SwitchToFirstWorkspace => {
                match self.switch_to_first_workspace() {
                    Ok(()) => {},
                    Err(e) => {
                        return Err(e);
                    },
                }
            },
            OrchestratorAction::CreateWorkspace(name) => {
                match self.create_new_workspace(name.as_str()) {
                    Ok(id) => {
                        assert(has_id(self.workspace_manager.spaces(), id));
                    },
                    Err(e) => {
                        return Err(e);
                    },
                }
            },
            OrchestratorAction::DeleteCurrentWorkspace => {
                match self.delete_current_workspace() {
                    Ok(()) => {},
                    Err(e) => {
                        return Err(e);
                    },
                }
            },
            _ => {},
        }
        Ok(action)
    }

    /// The orchestrator's counters: the workspace switches so far.
    pub fn get_metrics(&self) -> (m: OrchestratorMetrics)
        ensures
            m == (OrchestratorMetrics {
                workspace_switches: self.workspace_manager.metrics_view().switch_count,
                windows_tiled: 0,
                layout_errors: 0,
            }),
    {
        let wm: WorkspaceMetrics = self.workspace_manager.get_metrics();
        OrchestratorMetrics { workspace_switches: wm.switch_count, windows_tiled: 0, layout_errors: 0 }
    }
}

/// Builds an orchestrator from its services and configuration.
pub struct WorkspaceOrchestratorBuilder<F> {
    workspace_manager: Option<WorkspaceManager>,
    window_manager: Option<WindowManager<F>>,
    tiling_engine: Option<TilingEngine>,
    keyboard_handler: Option<KeyboardHandler>,
    config: OrchestratorConfig,
}

impl<F: Copy> WorkspaceOrchestratorBuilder<F> {
    /// The workspace manager given, if any.
    pub closed spec fn given_workspace_manager(&self) -> Option<WorkspaceManager> {
        self.workspace_manager
    }

    /// The window manager given, if any.
    pub closed spec fn given_window_manager(&self) -> Option<WindowManager<F>> {
        self.window_manager
    }

    /// The tiling engine given, if any.
    pub closed spec fn given_tiling_engine(&self) -> Option<TilingEngine> {
        self.tiling_engine
    }

    /// The keyboard handler given, if any.
    pub closed spec fn given_keyboard_handler(&self) -> Option<KeyboardHandler> {
        self.keyboard_handler
    }

    /// The configuration given (the default one until another is given).
    pub closed spec fn given_config(&self) -> OrchestratorConfig {
        self.config
    }

    /// A builder with no service and the default configuration.
    pub fn new() -> (b: Self)
        ensures
            b.given_workspace_manager() is None,
            b.given_window_manager() is None,
            b.given_tiling_engine() is None,
            b.given_keyboard_handler() is None,
            b.given_config() == default_orchestrator_config(),
    {
        WorkspaceOrchestratorBuilder {
            workspace_manager: None,
            window_manager: None,
            tiling_engine: None,
            keyboard_handler: None,
            config: OrchestratorConfig::default(),
        }
    }

    /// Gives the workspace manager.
    pub fn workspace_manager(self, manager: WorkspaceManager) -> (b: Self)
        ensures
            b.given_workspace_manager() == Some(manager),
            b.given_window_manager() == self.given_window_manager(),
            b.given_tiling_engine() == self.given_tiling_engine(),
            b.given_keyboard_handler() == self.given_keyboard_handler(),
            b.given_config() == self.given_config(),
    {
        WorkspaceOrchestratorBuilder { workspace_manager: Some(manager), ..self }
    }

    /// Gives the window manager.
    pub fn window_manager(self, manager: WindowManager<F>) -> (b: Self)
        ensures
            b.given_workspace_manager() == self.given_workspace_manager(),
            b.given_window_manager() == Some(manager),
            b.given_tiling_engine() == self.given_tiling_engine(),
            b.given_keyboard_handler() == self.given_keyboard_handler(),
            b.given_config() == self.given_config(),
    {
        WorkspaceOrchestratorBuilder { window_manager: Some(manager), ..self }
    }

    /// Gives the tiling engine.
    pub fn tiling_engine(self, engine: TilingEngine) -> (b: Self)
        ensures
            b.given_workspace_manager() == self.given_workspace_manager(),
            b.given_window_manager() == self.given_window_manager(),
            b.given_tiling_engine() == Some(engine),
            b.given_keyboard_handler() == self.given_keyboard_handler(),
            b.given_config() == self.given_config(),
    {
        WorkspaceOrchestratorBuilder { tiling_engine: Some(engine), ..self }
    }

    /// Gives the keyboard handler.
    pub fn keyboard_handler(self, handler: KeyboardHandler) -> (b: Self)
        ensures
            b.given_workspace_manager() == self.given_workspace_manager(),
            b.given_window_manager() == self.given_window_manager(),
            b.given_tiling_engine() == self.given_tiling_engine(),
            b.given_keyboard_handler() == Some(handler),
            b.given_config() == self.given_config(),
    {
        WorkspaceOrchestratorBuilder { keyboard_handler: Some(handler), ..self }
    }

    /// Gives the configuration.
    pub fn config(self, config: OrchestratorConfig) -> (b: Self)
        ensures
            b.given_workspace_manager() == self.given_workspace_manager(),
            b.given_window_manager() == self.given_window_manager(),
            b.given_tiling_engine() == self.given_tiling_engine(),
            b.given_keyboard_handler() == self.given_keyboard_handler(),
            b.given_config() == config,
    {
        WorkspaceOrchestratorBuilder { config, ..self }
    }

    /// The orchestrator of the given services; the first service missing,
    /// in the order workspace manager, window manager, tiling engine,
    /// keyboard handler, is a configuration error.
    pub fn build(self) -> (r: Result<WorkspaceOrchestrator<F>, TilleRSError>)
        ensures
            self.given_workspace_manager() is None ==> (r matches Err(TilleRSError::ConfigurationError(m))
                && m@ == "WorkspaceManager is required"@),
            self.given_workspace_manager() is Some && self.given_window_manager() is None
                ==> (r matches Err(TilleRSError::ConfigurationError(m)) && m@ == "WindowManager is required"@),
            self.given_workspace_manager() is Some && self.given_window_manager() is Some
                && self.given_tiling_engine() is None
                ==> (r matches Err(TilleRSError::ConfigurationError(m)) && m@ == "TilingEngine is required"@),
            self.given_workspace_manager() is Some && self.given_window_manager() is Some
                && self.given_tiling_engine() is Some && self.given_keyboard_handler() is None
                ==> (r matches Err(TilleRSError::ConfigurationError(m)) && m@ == "KeyboardHandler is required"@),
            self.given_workspace_manager() is Some && self.given_window_manager() is Some
                && self.given_tiling_engine() is Some && self.given_keyboard_handler() is Some
                ==> (r matches Ok(o) && o.wf() && o.patterns_view().len() == 0
                    && o.config_view() == self.given_config()
                    && Some(o.workspace_manager) == self.given_workspace_manager()
                    && Some(o.window_manager) == self.given_window_manager()
                    && Some(o.tiling_engine) == self.given_tiling_engine()
                    && Some(o.keyboard_handler) == self.given_keyboard_handler()),
    {
        let workspace_manager = match self.workspace_manager {
            Some(m) => m,
            None => {
                return Err(TilleRSError::ConfigurationError(text::owned("WorkspaceManager is required")));
            },
        };
        let window_manager = match self.window_manager {
            Some(m) => m,
            None => {
                return Err(TilleRSError::ConfigurationError(text::owned("WindowManager is required")));
            },
        };
        let tiling_engine = match self.tiling_engine {
            Some(e) => e,
            None => {
                return Err(TilleRSError::ConfigurationError(text::owned("TilingEngine is required")));
            },
        };
        let keyboard_handler = match self.keyboard_handler {
            Some(h) => h,
            None => {
                return Err(TilleRSError::ConfigurationError(text::owned("KeyboardHandler is required")));
            },
        };
        Ok(WorkspaceOrchestrator::new(workspace_manager, window_manager, tiling_engine, keyboard_handler, self.config))
    }
}

/// After window `id` was focused in a list with one record per id, the
/// first focused window is the one with that id.
proof fn lemma_first_focused_after_focus<F>(s: Seq<WindowInfo<F>>, p: int)
    requires
        keys_increasing(s),
        0 <= p < s.len(),
    ensures
        first_focused(focus_applied(s, s[p].id)) == Some(p),
{
    reveal(first_focused);
    let f = focus_applied(s, s[p].id);
    law_focus_is_exclusive(s, s[p].id);
    assert(f[p].is_focused);
    let c = choose|c: int| 0 <= c < f.len() && (#[trigger] f[c]).is_focused
        && forall|j: int| 0 <= j < c ==> !(#[trigger] f[j]).is_focused;
    assert(0 <= p < f.len() && f[p].is_focused && forall|j: int| 0 <= j < p ==> !(#[trigger] f[j]).is_focused);
    assert(c == p);
}

/// The position `first_focused` gives, when it gives one, is in the list.
proof fn lemma_first_focused_in_range<F>(s: Seq<WindowInfo<F>>)
    ensures
        first_focused(s) matches Some(i) ==> 0 <= i < s.len(),
{
    reveal(first_focused);
    if exists|w: int| 0 <= w < s.len() && (#[trigger] s[w]).is_focused {
        let w = choose|w: int| 0 <= w < s.len() && (#[trigger] s[w]).is_focused;
        lemma_least_focused_exists(s, w);
    }
}

/// Focusing the next window and then the previous one comes back to the
/// window that had the focus (the first focused one, or the last window when
/// none had it), in a list of at least two windows with one record per id.
pub proof fn law_next_then_previous<F>(s: Seq<WindowInfo<F>>)
    requires
        keys_increasing(s),
        s.len() >= 2,
    ensures
        ({
            let next = next_focus_target(s).unwrap();
            let back = previous_focus_target(focus_applied(s, next)).unwrap();
            match first_focused(s) {
                Some(i) => back == s[i].id,
                None => back == s[s.len() - 1].id,
            }
        }),
{
    let n = s.len() as int;
    lemma_first_focused_in_range(s);
    let j: int = match first_focused(s) {
        Some(i) => if i == n - 1 { 0 } else { i + 1 },
        None => 0,
    };
    assert(next_focus_target(s) == Some(s[j].id)) by {
        match first_focused(s) {
            Some(i) => {
                if i == n - 1 {
                    assert((i + 1) % n == 0) by (nonlinear_arith)
                        requires i == n - 1, n >= 2;
                } else {
                    assert((i + 1) % n == i + 1) by (nonlinear_arith)
                        requires 0 <= i < n - 1;
                }
            },
            None => {},
        }
    }
    lemma_first_focused_after_focus(s, j);
    let f = focus_applied(s, s[j].id);
    assert(f.len() == n);
    let p: int = if j == 0 { n - 1 } else { j - 1 };
    assert(previous_focus_target(f) == Some(f[p].id));
    assert(f[p].id == s[p].id);
}

/// Focusing the previous window and then the next one comes back to the
/// window that had the focus (the first focused one, or the first window
/// when none had it), in a list of at least two windows with one record per
/// id.
pub proof fn law_previous_then_next<F>(s: Seq<WindowInfo<F>>)
    requires
        keys_increasing(s),
        s.len() >= 2,
    ensures
        ({
            let prev = previous_focus_target(s).unwrap();
            let back = next_focus_target(focus_applied(s, prev)).unwrap();
            match first_focused(s) {
                Some(i) => back == s[i].id,
                None => back == s[0].id,
            }
        }),
{
    let n = s.len() as int;
    lemma_first_focused_in_range(s);
    let j: int = match first_focused(s) {
        Some(i) => if i == 0 { n - 1 } else { i - 1 },
        None => n - 1,
    };
    assert(previous_focus_target(s) == Some(s[j].id));
    lemma_first_focused_after_focus(s, j);
    let f = focus_applied(s, s[j].id);
    assert(f.len() == n);
    let q: int = if j == n - 1 { 0 } else { j + 1 };
    assert(next_focus_target(f) == Some(f[q].id)) by {
        if j == n - 1 {
            assert((j + 1) % n == 0) by (nonlinear_arith)
                requires j == n - 1, n >= 2;
        } else {
            assert((j + 1) % n == j + 1) by (nonlinear_arith)
                requires 0 <= j < n - 1;
        }
    }
    assert(f[q].id == s[q].id);
}

/// When some window is focused, there is a least focused position, and it
/// is the one `first_focused` gives.
proof fn lemma_least_focused_exists<F>(s: Seq<WindowInfo<F>>, w: int)
    requires
        0 <= w < s.len(),
        s[w].is_focused,
    ensures
        first_focused(s) matches Some(i) && 0 <= i < s.len() && s[i].is_focused
            && forall|k: int| 0 <= k < i ==> !(#[trigger] s[k]).is_focused,
    decreases w,
{
    reveal(first_focused);
    if exists|k: int| 0 <= k < w && (#[trigger] s[k]).is_focused {
        let k = choose|k: int| 0 <= k < w && (#[trigger] s[k]).is_focused;
        lemma_least_focused_exists(s, k);
    } else {
        assert(0 <= w < s.len() && s[w].is_focused && forall|k: int| 0 <= k < w ==> !(#[trigger] s[k]).is_focused);
    }
}

} // verus!
