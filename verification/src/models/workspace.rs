//! Workspaces: logical groupings of applications and windows with layout
//! rules, their creation and update requests and their validation.

use vstd::prelude::*;
use crate::TilleRSError;
use crate::text::{
    is_blank, str_is_blank, owned, push_str, split_on, views, chars_of, split_chars,
    string_of_chars, chars_equal, is_alphanumeric, char_is_alphanumeric,
};

verus! {

/// Workspace state for tracking active/inactive status.
#[derive(Debug, Clone, Copy, PartialEq, Eq, Structural)]
pub enum WorkspaceState {
    Inactive,
    Active,
    Modified,
}

impl Default for WorkspaceState {
    fn default() -> (s: Self)
        ensures
            s == WorkspaceState::Inactive,
    {
        WorkspaceState::Inactive
    }
}

/// A logical grouping of applications and windows.
#[derive(Debug, Clone)]
pub struct Workspace {
    /// Unique identifier
    pub id: u128,
    /// Human-readable workspace name
    pub name: String,
    /// Optional workspace description
    pub description: Option<String>,
    /// Key combination for switching to this workspace
    pub keyboard_shortcut: String,
    /// Reference to default tiling pattern
    pub tiling_pattern_id: u128,
    /// Monitor identifiers paired with layout preferences
    pub monitor_assignments: Vec<(String, String)>,
    /// Whether windows are arranged automatically
    pub auto_arrange: bool,
    /// Creation time, in milliseconds since the Unix epoch
    pub created_at: i64,
    /// Time of last activation, in milliseconds since the Unix epoch
    pub last_used: Option<i64>,
    /// Current workspace state
    pub state: WorkspaceState,
}

/// Request structure for creating a new workspace.
#[derive(Debug, Clone)]
pub struct WorkspaceCreateRequest {
    pub name: String,
    pub description: Option<String>,
    pub keyboard_shortcut: String,
    /// Reference to default tiling pattern (the default is used when absent)
    pub tiling_pattern_id: Option<u128>,
    pub auto_arrange: Option<bool>,
}

/// Request structure for updating an existing workspace.
#[derive(Debug, Clone)]
pub struct WorkspaceUpdateRequest {
    pub name: Option<String>,
    pub description: Option<String>,
    pub keyboard_shortcut: Option<String>,
    pub tiling_pattern_id: Option<u128>,
    pub auto_arrange: Option<bool>,
}

/// Number of bytes the UTF-8 encoding of a char takes.
pub open spec fn utf8_width(c: char) -> nat {
    if (c as u32) < 0x80 {
        1
    } else if (c as u32) < 0x800 {
        2
    } else if (c as u32) < 0x10000 {
        3
    } else {
        4
    }
}

/// Length of a string in UTF-8 bytes, which is what `str::len` counts.
pub open spec fn byte_len(s: Seq<char>) -> nat
    decreases s.len(),
{
    if s.len() == 0 {
        0
    } else {
        byte_len(s.drop_last()) + utf8_width(s.last())
    }
}

/// Whether a piece names a modifier in a workspace shortcut.
pub open spec fn is_modifier_word(p: Seq<char>) -> bool {
    p == "cmd"@ || p == "ctrl"@ || p == "opt"@ || p == "shift"@
}

/// The first piece that does not name a modifier.
pub open spec fn first_bad_modifier(parts: Seq<Seq<char>>) -> Option<Seq<char>>
    decreases parts.len(),
{
    if parts.len() == 0 {
        None
    } else {
        match first_bad_modifier(parts.drop_last()) {
            Some(x) => Some(x),
            None => if !is_modifier_word(parts.last()) {
                Some(parts.last())
            } else {
                None
            },
        }
    }
}

/// Whether a key piece is acceptable: not empty, and either alphanumeric or
/// starting with `F`.
pub open spec fn key_piece_ok(k: Seq<char>) -> bool {
    k.len() > 0 && ((forall|i: int| 0 <= i < k.len() ==> is_alphanumeric(#[trigger] k[i])) || k[0]
        == 'F')
}

/// What checking a workspace shortcut gives: nothing, or the error message.
pub open spec fn shortcut_text_error(s: Seq<char>) -> Option<Seq<char>> {
    let parts = split_on(s, '+');
    if s.len() == 0 {
        Some("Keyboard shortcut cannot be empty"@)
    } else if parts.len() < 2 {
        Some("Keyboard shortcut must include at least one modifier and one key"@)
    } else if first_bad_modifier(parts.drop_last()) is Some {
        Some("Invalid modifier '"@ + first_bad_modifier(parts.drop_last()).unwrap()
            + "' in keyboard shortcut"@)
    } else if !key_piece_ok(parts.last()) {
        Some("Invalid key '"@ + parts.last() + "' in keyboard shortcut"@)
    } else {
        None
    }
}

/// What checking a name and description gives: nothing, or the error message.
pub open spec fn name_error(name: Seq<char>) -> Option<Seq<char>> {
    if is_blank(name) {
        Some("Workspace name cannot be empty"@)
    } else if byte_len(name) > 100 {
        Some("Workspace name cannot exceed 100 characters"@)
    } else {
        None
    }
}

/// What checking a description gives: nothing, or the error message.
pub open spec fn description_error(d: Option<String>) -> Option<Seq<char>> {
    match d {
        Some(t) => if byte_len(t@) > 500 {
            Some("Workspace description cannot exceed 500 characters"@)
        } else {
            None
        },
        None => None,
    }
}

/// What validating a creation request gives: nothing, or the error message.
pub open spec fn create_request_error(r: WorkspaceCreateRequest) -> Option<Seq<char>> {
    if name_error(r.name@) is Some {
        name_error(r.name@)
    } else if shortcut_text_error(r.keyboard_shortcut@) is Some {
        shortcut_text_error(r.keyboard_shortcut@)
    } else {
        description_error(r.description)
    }
}

/// What validating an update request gives: nothing, or the error message.
pub open spec fn update_request_error(r: WorkspaceUpdateRequest) -> Option<Seq<char>> {
    if r.name is Some && name_error(r.name.unwrap()@) is Some {
        name_error(r.name.unwrap()@)
    } else if r.keyboard_shortcut is Some && shortcut_text_error(r.keyboard_shortcut.unwrap()@) is Some {
        shortcut_text_error(r.keyboard_shortcut.unwrap()@)
    } else {
        description_error(r.description)
    }
}

/// Whether an error is the validation error with the given message.
pub open spec fn is_validation_error(e: TilleRSError, msg: Seq<char>) -> bool {
    e matches TilleRSError::ValidationError(m) && m@ == msg
}

/// Whether two workspaces hold the same values.
pub open spec fn same_workspace(a: Workspace, b: Workspace) -> bool {
    &&& a.id == b.id
    &&& a.name == b.name
    &&& a.description == b.description
    &&& a.keyboard_shortcut == b.keyboard_shortcut
    &&& a.tiling_pattern_id == b.tiling_pattern_id
    &&& a.monitor_assignments@ == b.monitor_assignments@
    &&& a.auto_arrange == b.auto_arrange
    &&& a.created_at == b.created_at
    &&& a.last_used == b.last_used
    &&& a.state == b.state
}

fn validation(msg: &str) -> (e: TilleRSError)
    ensures
        is_validation_error(e, msg@),
{
    TilleRSError::ValidationError(owned(msg))
}

/// Whether a string takes more than `limit` bytes in UTF-8.
pub fn byte_len_exceeds(s: &String, limit: u64) -> (b: bool)
    ensures
        b == (byte_len(s@) > limit),
{
    let cs = chars_of(s.as_str());
    let mut acc: u128 = 0;
    let mut i: usize = 0;
    while i < cs.len()
        invariant
            i <= cs@.len(),
            cs@ == s@,
            acc == byte_len(cs@.take(i as int)),
            acc <= 4 * i,
        decreases cs.len() - i,
    {
        let c = cs[i];
        let u = c as u32;
        let w: u128 = if u < 0x80 {
            1
        } else if u < 0x800 {
            2
        } else if u < 0x10000 {
            3
        } else {
            4
        };
        assert(cs@.take(i + 1).drop_last() =~= cs@.take(i as int));
        acc = acc + w;
        i = i + 1;
    }
    assert(cs@.take(cs@.len() as int) =~= cs@);
    acc > limit as u128
}

fn is_modifier_piece(p: &Vec<char>) -> (b: bool)
    ensures
        b == is_modifier_word(p@),
{
    let cmd = chars_of("cmd");
    let ctrl = chars_of("ctrl");
    let opt = chars_of("opt");
    let shift = chars_of("shift");
    chars_equal(p, &cmd) || chars_equal(p, &ctrl) || chars_equal(p, &opt) || chars_equal(p, &shift)
}

proof fn lemma_first_bad_prefix(parts: Seq<Seq<char>>, k: int)
    requires
        0 <= k < parts.len(),
        first_bad_modifier(parts.take(k)) is None,
        !is_modifier_word(parts[k]),
    ensures
        first_bad_modifier(parts) == Some(parts[k]),
    decreases parts.len() - k,
{
    assert(parts.take(k + 1).drop_last() =~= parts.take(k));
    if k + 1 == parts.len() {
        assert(parts.take(k + 1) =~= parts);
    } else {
        lemma_first_bad_extend(parts, k + 1);
    }
}

proof fn lemma_first_bad_extend(parts: Seq<Seq<char>>, k: int)
    requires
        0 < k <= parts.len(),
        first_bad_modifier(parts.take(k)) is Some,
    ensures
        first_bad_modifier(parts) == first_bad_modifier(parts.take(k)),
    decreases parts.len() - k,
{
    if k == parts.len() {
        assert(parts.take(k) =~= parts);
    } else {
        assert(parts.take(k + 1).drop_last() =~= parts.take(k));
        lemma_first_bad_extend(parts, k + 1);
    }
}

impl Workspace {
    /// Check the format of a workspace shortcut such as `cmd+shift+a`: pieces
    /// separated by `+`, all but the last naming a modifier (cmd, ctrl, opt,
    /// shift), the last being alphanumeric or starting with `F`.
    pub fn validate_keyboard_shortcut(shortcut: &str) -> (r: Result<(), TilleRSError>)
        ensures
            match shortcut_text_error(shortcut@) {
                None => r is Ok,
                Some(msg) => r matches Err(e) && is_validation_error(e, msg),
            },
    {
        let cs = chars_of(shortcut);
        if cs.len() == 0 {
            return Err(validation("Keyboard shortcut cannot be empty"));
        }
        let parts = split_chars(&cs, '+');
        let ghost pv = views(parts@);
        if parts.len() < 2 {
            return Err(validation("Keyboard shortcut must include at least one modifier and one key"));
        }
        let n = parts.len() - 1;
        let mut i: usize = 0;
        assert(pv.drop_last().take(0) =~= Seq::<Seq<char>>::empty());
        while i < n
            invariant
                n == parts@.len() - 1,
                pv == views(parts@),
                pv == split_on(shortcut@, '+'),
                i <= n,
                first_bad_modifier(pv.drop_last().take(i as int)) is None,
            decreases n - i,
        {
            assert(pv.drop_last().take(i + 1).drop_last() =~= pv.drop_last().take(i as int));
            assert(pv.drop_last().take(i + 1).last() == parts@[i as int]@);
            if !is_modifier_piece(&parts[i]) {
                proof {
                    lemma_first_bad_prefix(pv.drop_last(), i as int);
                }
                let mut msg = owned("Invalid modifier '");
                let piece = string_of_chars(&parts[i]);
                push_str(&mut msg, piece.as_str());
                push_str(&mut msg, "' in keyboard shortcut");
                return Err(TilleRSError::ValidationError(msg));
            }
            i = i + 1;
        }
        assert(pv.drop_last().take(n as int) =~= pv.drop_last());
        let key = &parts[n];
        let mut ok = key.len() > 0;
        if ok {
            let mut all_alnum = true;
            let mut j: usize = 0;
            while j < key.len()
                invariant
                    j <= key@.len(),
                    all_alnum == (forall|m: int| 0 <= m < j ==> is_alphanumeric(#[trigger] key@[m])),
                decreases key.len() - j,
            {
                if !char_is_alphanumeric(key[j]) {
                    all_alnum = false;
                }
                j = j + 1;
            }
            ok = all_alnum || key[0] == 'F';
        }
        if !ok {
            let mut msg = owned("Invalid key '");
            let piece = string_of_chars(key);
            push_str(&mut msg, piece.as_str());
            push_str(&mut msg, "' in keyboard shortcut");
            return Err(TilleRSError::ValidationError(msg));
        }
        Ok(())
    }

    fn check_name(name: &String) -> (r: Result<(), TilleRSError>)
        ensures
            match name_error(name@) {
                None => r is Ok,
                Some(msg) => r matches Err(e) && is_validation_error(e, msg),
            },
    {
        if str_is_blank(name.as_str()) {
            return Err(validation("Workspace name cannot be empty"));
        }
        if byte_len_exceeds(name, 100) {
            return Err(validation("Workspace name cannot exceed 100 characters"));
        }
        Ok(())
    }

    fn check_description(d: &Option<String>) -> (r: Result<(), TilleRSError>)
        ensures
            match description_error(*d) {
                None => r is Ok,
                Some(msg) => r matches Err(e) && is_validation_error(e, msg),
            },
    {
        if let Some(desc) = d {
            if byte_len_exceeds(desc, 500) {
                return Err(validation("Workspace description cannot exceed 500 characters"));
            }
        }
        Ok(())
    }

    /// Validate a creation request.
    pub fn validate_create_request(request: &WorkspaceCreateRequest) -> (r: Result<(), TilleRSError>)
        ensures
            match create_request_error(*request) {
                None => r is Ok,
                Some(msg) => r matches Err(e) && is_validation_error(e, msg),
            },
    {
        Self::check_name(&request.name)?;
        Self::validate_keyboard_shortcut(request.keyboard_shortcut.as_str())?;
        Self::check_description(&request.description)?;
        Ok(())
    }

    /// Validate an update request.
    pub fn validate_update_request(request: &WorkspaceUpdateRequest) -> (r: Result<(), TilleRSError>)
        ensures
            match update_request_error(*request) {
                None => r is Ok,
                Some(msg) => r matches Err(e) && is_validation_error(e, msg),
            },
            (request.keyboard_shortcut matches Some(k) && shortcut_text_error(k@) is Some && (request.name is None
                || name_error(request.name.unwrap()@) is None)) ==> (r matches Err(e) && is_validation_error(
                e,
                shortcut_text_error(request.keyboard_shortcut.unwrap()@).unwrap(),
            )),
    {
        if let Some(name) = &request.name {
            Self::check_name(name)?;
        }
        if let Some(shortcut) = &request.keyboard_shortcut {
            Self::validate_keyboard_shortcut(shortcut.as_str())?;
        }
        Self::check_description(&request.description)?;
        Ok(())
    }

    /// Create a workspace from a request, with the given identifier and
    /// creation time.
    pub fn new_with(request: WorkspaceCreateRequest, default_pattern_id: u128, id: u128, now: i64) -> (r: Result<Self, TilleRSError>)
        ensures
            match create_request_error(request) {
                Some(msg) => r matches Err(e) && is_validation_error(e, msg),
                None => r matches Ok(w) && {
                    &&& w.id == id
                    &&& w.name == request.name
                    &&& w.description == request.description
                    &&& w.keyboard_shortcut == request.keyboard_shortcut
                    &&& w.tiling_pattern_id == match request.tiling_pattern_id {
                        Some(p) => p,
                        None => default_pattern_id,
                    }
                    &&& w.monitor_assignments@.len() == 0
                    &&& w.auto_arrange == match request.auto_arrange {
                        Some(a) => a,
                        None => true,
                    }
                    &&& w.created_at == now
                    &&& w.last_used is None
                    &&& w.state == WorkspaceState::Inactive
                },
            },
    {
        Self::validate_create_request(&request)?;
        let pattern_id = match request.tiling_pattern_id {
            Some(p) => p,
            None => default_pattern_id,
        };
        let auto_arrange = match request.auto_arrange {
            Some(a) => a,
            None => true,
        };
        Ok(Workspace {
            id,
            name: request.name,
            description: request.description,
            keyboard_shortcut: request.keyboard_shortcut,
            tiling_pattern_id: pattern_id,
            monitor_assignments: Vec::new(),
            auto_arrange,
            created_at: now,
            last_used: None,
            state: WorkspaceState::Inactive,
        })
    }

    /// Create a workspace from a request, with a fresh identifier and the
    /// current time.
    pub fn new(request: WorkspaceCreateRequest, default_pattern_id: u128) -> (r: Result<Self, TilleRSError>)
        ensures
            match create_request_error(request) {
                Some(msg) => r matches Err(e) && is_validation_error(e, msg),
                None => r matches Ok(w) && {
                    &&& w.name == request.name
                    &&& w.description == request.description
                    &&& w.keyboard_shortcut == request.keyboard_shortcut
                    &&& w.tiling_pattern_id == match request.tiling_pattern_id {
                        Some(p) => p,
                        None => default_pattern_id,
                    }
                    &&& w.monitor_assignments@.len() == 0
                    &&& w.auto_arrange == match request.auto_arrange {
                        Some(a) => a,
                        None => true,
                    }
                    &&& w.last_used is None
                    &&& w.state == WorkspaceState::Inactive
                },
            },
    {
        let id = crate::ids::new_id();
        let now = crate::ids::now_millis();
        Self::new_with(request, default_pattern_id, id, now)
    }

    /// Update the workspace with the fields the request provides.
    pub fn update(&mut self, request: WorkspaceUpdateRequest) -> (r: Result<(), TilleRSError>)
        ensures
            (request.keyboard_shortcut matches Some(k) && shortcut_text_error(k@) is Some && (request.name is None
                || name_error(request.name.unwrap()@) is None)) ==> (r matches Err(e) && is_validation_error(
                e,
                shortcut_text_error(request.keyboard_shortcut.unwrap()@).unwrap(),
            ) && *final(self) == *old(self)),
            match update_request_error(request) {
                Some(msg) => r matches Err(e) && is_validation_error(e, msg) && *final(self) == *old(self),
                None => r is Ok && {
                    &&& final(self).name == match request.name {
                        Some(n) => n,
                        None => old(self).name,
                    }
                    &&& final(self).description == match request.description {
                        Some(d) => Some(d),
                        None => old(self).description,
                    }
                    &&& final(self).keyboard_shortcut == match request.keyboard_shortcut {
                        Some(k) => k,
                        None => old(self).keyboard_shortcut,
                    }
                    &&& final(self).tiling_pattern_id == match request.tiling_pattern_id {
                        Some(p) => p,
                        None => old(self).tiling_pattern_id,
                    }
                    &&& final(self).auto_arrange == match request.auto_arrange {
                        Some(a) => a,
                        None => old(self).auto_arrange,
                    }
                    &&& final(self).id == old(self).id
                    &&& final(self).monitor_assignments == old(self).monitor_assignments
                    &&& final(self).created_at == old(self).created_at
                    &&& final(self).last_used == old(self).last_used
                    &&& final(self).state == old(self).state
                },
            },
    {
        Self::validate_update_request(&request)?;
        if let Some(name) = request.name {
            self.name = name;
        }
        if let Some(description) = request.description {
            self.description = Some(description);
        }
        if let Some(keyboard_shortcut) = request.keyboard_shortcut {
            self.keyboard_shortcut = keyboard_shortcut;
        }
        if let Some(tiling_pattern_id) = request.tiling_pattern_id {
            self.tiling_pattern_id = tiling_pattern_id;
        }
        if let Some(auto_arrange) = request.auto_arrange {
            self.auto_arrange = auto_arrange;
        }
        Ok(())
    }

    /// Activate this workspace at the given time.
    pub fn activate_at(&mut self, now: i64)
        ensures
            *final(self) == (Workspace { state: WorkspaceState::Active, last_used: Some(now), ..*old(self) }),
    {
        self.state = WorkspaceState::Active;
        self.last_used = Some(now);
    }

    /// Activate this workspace now.
    pub fn activate(&mut self)
        ensures
            final(self).state == WorkspaceState::Active,
            final(self).last_used is Some,
            final(self).id == old(self).id,
            final(self).name == old(self).name,
            final(self).keyboard_shortcut == old(self).keyboard_shortcut,
    {
        let now = crate::ids::now_millis();
        self.activate_at(now);
    }

    /// Deactivate this workspace.
    pub fn deactivate(&mut self)
        ensures
            *final(self) == (Workspace { state: WorkspaceState::Inactive, ..*old(self) }),
    {
        if self.state == WorkspaceState::Active || self.state == WorkspaceState::Modified {
            self.state = WorkspaceState::Inactive;
        }
    }

    /// Mark an active workspace as modified (layout changed).
    pub fn mark_modified(&mut self)
        ensures
            *final(self) == (Workspace {
                state: if old(self).state == WorkspaceState::Active {
                    WorkspaceState::Modified
                } else {
                    old(self).state
                },
                ..*old(self)
            }),
    {
        if self.state == WorkspaceState::Active {
            self.state = WorkspaceState::Modified;
        }
    }

    /// Check if workspace is currently active.
    pub fn is_active(&self) -> (b: bool)
        ensures
            b == (self.state == WorkspaceState::Active),
    {
        self.state == WorkspaceState::Active
    }

    /// A copy of this workspace.
    pub fn duplicate(&self) -> (r: Self)
        ensures
            same_workspace(r, *self),
    {
        let mut assignments: Vec<(String, String)> = Vec::new();
        let mut i: usize = 0;
        while i < self.monitor_assignments.len()
            invariant
                i <= self.monitor_assignments@.len(),
                assignments@ == self.monitor_assignments@.take(i as int),
            decreases self.monitor_assignments.len() - i,
        {
            let pair = &self.monitor_assignments[i];
            assignments.push((pair.0.clone(), pair.1.clone()));
            i = i + 1;
            assert(assignments@ =~= self.monitor_assignments@.take(i as int));
        }
        assert(self.monitor_assignments@.take(self.monitor_assignments@.len() as int)
            =~= self.monitor_assignments@);
        Workspace {
            id: self.id,
            name: self.name.clone(),
            description: match &self.description {
                Some(d) => Some(d.clone()),
                None => None,
            },
            keyboard_shortcut: self.keyboard_shortcut.clone(),
            tiling_pattern_id: self.tiling_pattern_id,
            monitor_assignments: assignments,
            auto_arrange: self.auto_arrange,
            created_at: self.created_at,
            last_used: self.last_used,
            state: self.state,
        }
    }
}

/// An update is checked as a creation is: an update request that provides
/// every field of a creation request is refused exactly when that creation
/// request is, and with the same message.
pub proof fn law_update_checked_like_create(u: WorkspaceUpdateRequest, c: WorkspaceCreateRequest)
    requires
        u.name == Some(c.name),
        u.keyboard_shortcut == Some(c.keyboard_shortcut),
        u.description == c.description,
    ensures
        update_request_error(u) == create_request_error(c),
{
}

/// A new keyboard shortcut that fails the shortcut check refuses the update
/// with that check's message, unless a new name already refused it; a
/// shortcut that passes adds no refusal of its own.
pub proof fn law_update_shortcut_checked(u: WorkspaceUpdateRequest, shortcut: String)
    requires
        u.keyboard_shortcut == Some(shortcut),
        u.name is None || name_error(u.name.unwrap()@) is None,
    ensures
        shortcut_text_error(shortcut@) is Some ==> update_request_error(u) == shortcut_text_error(shortcut@),
        shortcut_text_error(shortcut@) is None ==> update_request_error(u) == description_error(u.description),
{
}

} // verus!
