//! Windows as the Accessibility API reports them, the permission state of
//! that API, and two providers of windows: the system one, which this
//! environment cannot reach, and an in-memory one that keeps windows by id.
//!
//! A window's frame (origin and size, in display points) is a type parameter
//! `F`: it is carried and replaced, never computed on here.

use vstd::prelude::*;
use crate::TilleRSError;
use crate::text;
use crate::table::{Keyed, keys_increasing, has_key, find_key, last_with_key, lemma_find_at, position_of_key, table_from_records};

verus! {

/// Accessibility-derived window metadata.
#[derive(Debug)]
pub struct AXWindow<F> {
    pub window_id: u32,
    pub title: String,
    pub application_name: String,
    pub bundle_id: String,
    pub frame: F,
    pub is_minimized: bool,
    pub is_fullscreen: bool,
    pub is_focused: bool,
    pub monitor_id: Option<String>,
}

impl<F> Keyed for AXWindow<F> {
    open spec fn key(&self) -> u32 {
        self.window_id
    }

    fn key_of(&self) -> (k: u32) {
        self.window_id
    }
}

/// A copy of an optional string.
pub fn copy_opt_string(o: &Option<String>) -> (r: Option<String>)
    ensures
        r == *o,
{
    match o {
        Some(s) => Some(s.clone()),
        None => None,
    }
}

impl<F: Copy> AXWindow<F> {
    /// A window with the given metadata.
    pub fn new(
        window_id: u32,
        title: &str,
        application_name: &str,
        bundle_id: &str,
        frame: F,
        is_minimized: bool,
        is_fullscreen: bool,
        is_focused: bool,
        monitor_id: Option<String>,
    ) -> (w: Self)
        ensures
            w.window_id == window_id,
            w.title@ == title@,
            w.application_name@ == application_name@,
            w.bundle_id@ == bundle_id@,
            w.frame == frame,
            w.is_minimized == is_minimized,
            w.is_fullscreen == is_fullscreen,
            w.is_focused == is_focused,
            w.monitor_id == monitor_id,
    {
        AXWindow {
            window_id,
            title: text::owned(title),
            application_name: text::owned(application_name),
            bundle_id: text::owned(bundle_id),
            frame,
            is_minimized,
            is_fullscreen,
            is_focused,
            monitor_id,
        }
    }

    /// An equal copy of this window.
    pub fn duplicate(&self) -> (r: Self)
        ensures
            r == *self,
    {
        AXWindow {
            window_id: self.window_id,
            title: self.title.clone(),
            application_name: self.application_name.clone(),
            bundle_id: self.bundle_id.clone(),
            frame: self.frame,
            is_minimized: self.is_minimized,
            is_fullscreen: self.is_fullscreen,
            is_focused: self.is_focused,
            monitor_id: copy_opt_string(&self.monitor_id),
        }
    }
}

/// The state of the Accessibility permission.
#[derive(Debug, Clone, Copy, PartialEq, Eq, Structural)]
pub enum PermissionStatus {
    Unknown,
    Granted,
    Denied,
}

/// The message of the system provider's operations, none of which this
/// environment can perform.
pub open spec fn not_implemented_message() -> Seq<char> {
    "SystemAccessibilityProvider is not implemented in this environment"@
}

/// The system provider's answer to every window operation.
pub open spec fn is_not_implemented<T>(r: Result<T, TilleRSError>) -> bool {
    r matches Err(TilleRSError::MacOSAPIError(m)) && m@ == not_implemented_message()
}

fn not_implemented<T>() -> (r: Result<T, TilleRSError>)
    ensures
        is_not_implemented(r),
{
    Err(TilleRSError::MacOSAPIError(text::owned("SystemAccessibilityProvider is not implemented in this environment")))
}

/// The provider backed by the system Accessibility API. Only its permission
/// state is kept; every window operation reports that the API cannot be
/// reached here.
#[derive(Debug)]
pub struct SystemAccessibilityProvider {
    status: PermissionStatus,
}

impl SystemAccessibilityProvider {
    /// The permission state the provider holds.
    pub closed spec fn status_view(&self) -> PermissionStatus {
        self.status
    }

    /// A provider whose permission state is not known yet.
    pub fn new() -> (p: Self)
        ensures
            p.status_view() == PermissionStatus::Unknown,
    {
        SystemAccessibilityProvider { status: PermissionStatus::Unknown }
    }

    /// `Ok` when the permission is granted, else the reason it is needed.
    pub fn ensure_permissions(&self) -> (r: Result<(), TilleRSError>)
        ensures
            r is Ok <==> self.status_view() == PermissionStatus::Granted,
            r is Err ==> (r matches Err(TilleRSError::PermissionDenied(m))
                && m@ == "Accessibility permission is required for window management"@),
    {
        match self.status {
            PermissionStatus::Granted => Ok(()),
            PermissionStatus::Unknown | PermissionStatus::Denied => Err(
                TilleRSError::PermissionDenied(text::owned("Accessibility permission is required for window management")),
            ),
        }
    }

    /// The permission state, without prompting.
    pub fn permission_status(&self) -> (s: PermissionStatus)
        ensures
            s == self.status_view(),
    {
        self.status
    }

    /// Lists the windows: not possible in this environment.
    pub fn list_windows<F>(&self, include_minimized: bool) -> (r: Result<Vec<AXWindow<F>>, TilleRSError>)
        ensures
            is_not_implemented(r),
    {
        not_implemented()
    }

    /// Looks a window up: not possible in this environment.
    pub fn get_window<F>(&self, window_id: u32) -> (r: Result<Option<AXWindow<F>>, TilleRSError>)
        ensures
            is_not_implemented(r),
    {
        not_implemented()
    }

    /// Focuses a window: not possible in this environment.
    pub fn focus_window(&self, window_id: u32) -> (r: Result<(), TilleRSError>)
        ensures
            is_not_implemented(r),
    {
        not_implemented()
    }

    /// Moves or resizes a window: not possible in this environment.
    pub fn set_window_frame<F>(&self, window_id: u32, frame: F, animate: bool) -> (r: Result<(), TilleRSError>)
        ensures
            is_not_implemented(r),
    {
        not_implemented()
    }

    /// Minimizes or restores a window: not possible in this environment.
    pub fn set_window_minimized(&self, window_id: u32, minimized: bool) -> (r: Result<(), TilleRSError>)
        ensures
            is_not_implemented(r),
    {
        not_implemented()
    }
}

impl Default for SystemAccessibilityProvider {
    fn default() -> (p: Self)
        ensures
            p.status_view() == PermissionStatus::Unknown,
    {
        Self::new()
    }
}

/// Whether a window is listed: minimized windows only when asked for.
pub open spec fn ax_listed<F>(w: AXWindow<F>, include_minimized: bool) -> bool {
    include_minimized || !w.is_minimized
}

/// The windows of a table that are listed, in table order.
pub open spec fn ax_listing<F>(s: Seq<AXWindow<F>>, include_minimized: bool) -> Seq<AXWindow<F>>
    decreases s.len(),
{
    if s.len() == 0 {
        seq![]
    } else if ax_listed(s.last(), include_minimized) {
        ax_listing(s.drop_last(), include_minimized).push(s.last())
    } else {
        ax_listing(s.drop_last(), include_minimized)
    }
}

/// A window with its focus set to whether it is the window `id`.
pub open spec fn ax_focused<F>(w: AXWindow<F>, id: u32) -> AXWindow<F> {
    AXWindow { is_focused: w.window_id == id, ..w }
}

/// A window with another frame.
pub open spec fn ax_with_frame<F>(w: AXWindow<F>, frame: F) -> AXWindow<F> {
    AXWindow { frame: frame, ..w }
}

/// A window minimized or restored.
pub open spec fn ax_with_minimized<F>(w: AXWindow<F>, minimized: bool) -> AXWindow<F> {
    AXWindow { is_minimized: minimized, ..w }
}

/// Whether a result is the error for a window that is not there.
pub open spec fn is_window_not_found<T>(r: Result<T, TilleRSError>, id: u32) -> bool {
    r == Err::<T, TilleRSError>(TilleRSError::WindowNotFound(id))
}

/// A provider that keeps windows in memory, one per id, for tests and for
/// running without the system API.
#[derive(Debug)]
pub struct InMemoryAccessibilityProvider<F> {
    windows: Vec<AXWindow<F>>,
    status: PermissionStatus,
}

impl<F: Copy> InMemoryAccessibilityProvider<F> {
    /// The windows held, in increasing id order.
    pub closed spec fn windows_view(&self) -> Seq<AXWindow<F>> {
        self.windows@
    }

    /// The permission state the provider reports.
    pub closed spec fn status_view(&self) -> PermissionStatus {
        self.status
    }

    /// Whether the windows are held in increasing id order.
    pub closed spec fn wf(&self) -> bool {
        keys_increasing(self.windows@)
    }

    /// A provider holding the given windows (for an id given twice, the later
    /// one), with the permission granted.
    pub fn new_with(windows: Vec<AXWindow<F>>) -> (p: Self)
        ensures
            p.wf(),
            forall|k: u32| #[trigger] find_key(p.windows_view(), k) == last_with_key(windows@, k),
            p.status_view() == PermissionStatus::Granted,
    {
        let t = table_from_records(windows);
        InMemoryAccessibilityProvider { windows: t, status: PermissionStatus::Granted }
    }

    /// Sets the permission state the provider reports.
    pub fn set_permission_status(&mut self, status: PermissionStatus)
        ensures
            final(self).status_view() == status,
            final(self).windows_view() == old(self).windows_view(),
            final(self).wf() == old(self).wf(),
    {
        self.status = status;
    }

    /// `Ok` when the permission is granted, else a permission error.
    pub fn ensure_permissions(&self) -> (r: Result<(), TilleRSError>)
        ensures
            r is Ok <==> self.status_view() == PermissionStatus::Granted,
            r is Err ==> (r matches Err(TilleRSError::PermissionDenied(m))
                && m@ == "Accessibility permission denied in in-memory provider"@),
    {
        match self.status {
            PermissionStatus::Granted => Ok(()),
            PermissionStatus::Unknown | PermissionStatus::Denied => Err(
                TilleRSError::PermissionDenied(text::owned("Accessibility permission denied in in-memory provider")),
            ),
        }
    }

    /// The permission state.
    pub fn permission_status(&self) -> (s: PermissionStatus)
        ensures
            s == self.status_view(),
    {
        self.status
    }

    /// The windows held, minimized ones only when asked for, in increasing id
    /// order.
    pub fn list_windows(&self, include_minimized: bool) -> (r: Result<Vec<AXWindow<F>>, TilleRSError>)
        ensures
            r matches Ok(v) && v@ == ax_listing(self.windows_view(), include_minimized),
    {
        let mut out: Vec<AXWindow<F>> = Vec::new();
        let mut i: usize = 0;
        while i < self.windows.len()
            invariant
                i <= self.windows@.len(),
                out@ == ax_listing(self.windows@.take(i as int), include_minimized),
            decreases self.windows@.len() - i,
        {
            let ghost pre = self.windows@.take(i as int);
            let w = &self.windows[i];
            if include_minimized || !w.is_minimized {
                out.push(w.duplicate());
            }
            i = i + 1;
            assert(self.windows@.take(i as int).drop_last() =~= pre);
        }
        assert(self.windows@.take(i as int) =~= self.windows@);
        Ok(out)
    }

    /// The window with an id, if held.
    pub fn get_window(&self, window_id: u32) -> (r: Result<Option<AXWindow<F>>, TilleRSError>)
        requires
            self.wf(),
        ensures
            r == Ok::<Option<AXWindow<F>>, TilleRSError>(find_key(self.windows_view(), window_id)),
    {
        match position_of_key(&self.windows, window_id) {
            Some(i) => Ok(Some(self.windows[i].duplicate())),
            None => Ok(None),
        }
    }

    /// Focuses a held window, and only that one; a window that is not held is
    /// an error and changes nothing.
    pub fn focus_window(&mut self, window_id: u32) -> (r: Result<(), TilleRSError>)
        requires
            old(self).wf(),
        ensures
            final(self).wf(),
            final(self).status_view() == old(self).status_view(),
            has_key(old(self).windows_view(), window_id) ==> r is Ok
                && final(self).windows_view() == old(self).windows_view().map_values(|w: AXWindow<F>| ax_focused(w, window_id)),
            !has_key(old(self).windows_view(), window_id) ==> is_window_not_found(r, window_id)
                && final(self).windows_view() == old(self).windows_view(),
    {
        if position_of_key(&self.windows, window_id).is_none() {
            return Err(TilleRSError::WindowNotFound(window_id));
        }
        let ghost s = self.windows@;
        let mut i: usize = 0;
        while i < self.windows.len()
            invariant
                i <= self.windows@.len(),
                self.windows@.len() == s.len(),
                self.status == old(self).status,
                forall|j: int| 0 <= j < i ==> #[trigger] self.windows@[j] == ax_focused(s[j], window_id),
                forall|j: int| i <= j < s.len() ==> #[trigger] self.windows@[j] == s[j],
            decreases self.windows@.len() - i,
        {
            let w = self.windows.remove(i);
            let focused = w.window_id == window_id;
            let nw = AXWindow {
                window_id: w.window_id,
                title: w.title,
                application_name: w.application_name,
                bundle_id: w.bundle_id,
                frame: w.frame,
                is_minimized: w.is_minimized,
                is_fullscreen: w.is_fullscreen,
                is_focused: focused,
                monitor_id: w.monitor_id,
            };
            self.windows.insert(i, nw);
            i = i + 1;
        }
        assert(self.windows@ =~= s.map_values(|w: AXWindow<F>| ax_focused(w, window_id)));
        assert forall|a: int, b: int| 0 <= a < b < self.windows@.len() implies
            (#[trigger] self.windows@[a]).key() < (#[trigger] self.windows@[b]).key() by {
            assert(s[a].key() < s[b].key());
        }
        Ok(())
    }

    /// Sets the frame of a held window; a window that is not held is an error.
    pub fn set_window_frame(&mut self, window_id: u32, frame: F, animate: bool) -> (r: Result<(), TilleRSError>)
        requires
            old(self).wf(),
        ensures
            final(self).wf(),
            final(self).status_view() == old(self).status_view(),
            has_key(old(self).windows_view(), window_id) ==> r is Ok
                && final(self).windows_view() == old(self).windows_view().map_values(
                    |w: AXWindow<F>| if w.window_id == window_id { ax_with_frame(w, frame) } else { w }),
            !has_key(old(self).windows_view(), window_id) ==> is_window_not_found(r, window_id)
                && final(self).windows_view() == old(self).windows_view(),
    {
        match position_of_key(&self.windows, window_id) {
            None => Err(TilleRSError::WindowNotFound(window_id)),
            Some(i) => {
                let ghost s = self.windows@;
                let w = self.windows.remove(i);
                let nw = AXWindow {
                    window_id: w.window_id,
                    title: w.title,
                    application_name: w.application_name,
                    bundle_id: w.bundle_id,
                    frame: frame,
                    is_minimized: w.is_minimized,
                    is_fullscreen: w.is_fullscreen,
                    is_focused: w.is_focused,
                    monitor_id: w.monitor_id,
                };
                self.windows.insert(i, nw);
                proof {
                    assert forall|j: int| 0 <= j < s.len() && j != i implies (#[trigger] s[j]).window_id != window_id by {
                        if j < i {
                            assert(s[j].key() < s[i as int].key());
                        } else {
                            assert(s[i as int].key() < s[j].key());
                        }
                    }
                    assert(self.windows@ =~= s.map_values(
                        |w: AXWindow<F>| if w.window_id == window_id { ax_with_frame(w, frame) } else { w }));
                    assert forall|a: int, b: int| 0 <= a < b < self.windows@.len() implies
                        (#[trigger] self.windows@[a]).key() < (#[trigger] self.windows@[b]).key() by {
                        assert(s[a].key() < s[b].key());
                    }
                }
                Ok(())
            },
        }
    }

    /// Minimizes or restores a held window; a window that is not held is an
    /// error.
    pub fn set_window_minimized(&mut self, window_id: u32, minimized: bool) -> (r: Result<(), TilleRSError>)
        requires
            old(self).wf(),
        ensures
            final(self).wf(),
            final(self).status_view() == old(self).status_view(),
            has_key(old(self).windows_view(), window_id) ==> r is Ok
                && final(self).windows_view() == old(self).windows_view().map_values(
                    |w: AXWindow<F>| if w.window_id == window_id { ax_with_minimized(w, minimized) } else { w }),
            !has_key(old(self).windows_view(), window_id) ==> is_window_not_found(r, window_id)
                && final(self).windows_view() == old(self).windows_view(),
    {
        match position_of_key(&self.windows, window_id) {
            None => Err(TilleRSError::WindowNotFound(window_id)),
            Some(i) => {
                let ghost s = self.windows@;
                let w = self.windows.remove(i);
                let nw = AXWindow {
                    window_id: w.window_id,
                    title: w.title,
                    application_name: w.application_name,
                    bundle_id: w.bundle_id,
                    frame: w.frame,
                    is_minimized: minimized,
                    is_fullscreen: w.is_fullscreen,
                    is_focused: w.is_focused,
                    monitor_id: w.monitor_id,
                };
                self.windows.insert(i, nw);
                proof {
                    assert forall|j: int| 0 <= j < s.len() && j != i implies (#[trigger] s[j]).window_id != window_id by {
                        if j < i {
                            assert(s[j].key() < s[i as int].key());
                        } else {
                            assert(s[i as int].key() < s[j].key());
                        }
                    }
                    assert(self.windows@ =~= s.map_values(
                        |w: AXWindow<F>| if w.window_id == window_id { ax_with_minimized(w, minimized) } else { w }));
                    assert forall|a: int, b: int| 0 <= a < b < self.windows@.len() implies
                        (#[trigger] self.windows@[a]).key() < (#[trigger] self.windows@[b]).key() by {
                        assert(s[a].key() < s[b].key());
                    }
                }
                Ok(())
            },
        }
    }
}

impl<F: Copy> Default for InMemoryAccessibilityProvider<F> {
    /// A provider holding no window, whose permission state is not known.
    fn default() -> (p: Self)
        ensures
            p.wf(),
            p.windows_view() == Seq::<AXWindow<F>>::empty(),
            p.status_view() == PermissionStatus::Unknown,
    {
        InMemoryAccessibilityProvider { windows: Vec::new(), status: PermissionStatus::Unknown }
    }
}

} // verus!
