//! The window manager's cache of windows and its counters.
//!
//! The cache holds one record per window id, in increasing id order, filled
//! from what the Accessibility provider lists and kept up to date as windows
//! are focused, moved and minimized. Each operation that asks the provider
//! to act takes the provider's answer as an argument: on an error the cache
//! is left alone and the error is counted.

use vstd::prelude::*;
use crate::TilleRSError;
use crate::text;
use crate::macos::accessibility::{AXWindow, copy_opt_string};
use crate::table::{Keyed, keys_increasing, has_key, find_key, last_with_key, lemma_find_at, position_of_key, table_from_records};

verus! {

/// How the window manager treats a window.
#[derive(Debug, Clone, Copy, PartialEq, Eq, Structural)]
pub enum WindowMode {
    Tiled,
    Floating,
    Fullscreen,
}

/// A managed window. `F` is its frame (origin and size).
#[derive(Debug)]
pub struct WindowInfo<F> {
    pub id: u32,
    pub title: String,
    pub application_name: String,
    pub bundle_id: String,
    pub frame: F,
    pub is_minimized: bool,
    pub is_fullscreen: bool,
    pub is_focused: bool,
    pub monitor_id: Option<String>,
    pub mode: WindowMode,
}

impl<F> Keyed for WindowInfo<F> {
    open spec fn key(&self) -> u32 {
        self.id
    }

    fn key_of(&self) -> (k: u32) {
        self.id
    }
}

/// The record of a window the provider reported: fullscreen windows are
/// managed as fullscreen, all others as tiled.
pub open spec fn info_of<F>(ax: AXWindow<F>) -> WindowInfo<F> {
    WindowInfo {
        id: ax.window_id,
        title: ax.title,
        application_name: ax.application_name,
        bundle_id: ax.bundle_id,
        frame: ax.frame,
        is_minimized: ax.is_minimized,
        is_fullscreen: ax.is_fullscreen,
        is_focused: ax.is_focused,
        monitor_id: ax.monitor_id,
        mode: if ax.is_fullscreen { WindowMode::Fullscreen } else { WindowMode::Tiled },
    }
}

impl<F: Copy> WindowInfo<F> {
    /// The record of a window the provider reported.
    pub fn from_ax(ax: &AXWindow<F>) -> (w: Self)
        ensures
            w == info_of(*ax),
    {
        WindowInfo {
            id: ax.window_id,
            title: ax.title.clone(),
            application_name: ax.application_name.clone(),
            bundle_id: ax.bundle_id.clone(),
            frame: ax.frame,
            is_minimized: ax.is_minimized,
            is_fullscreen: ax.is_fullscreen,
            is_focused: ax.is_focused,
            monitor_id: copy_opt_string(&ax.monitor_id),
            mode: if ax.is_fullscreen { WindowMode::Fullscreen } else { WindowMode::Tiled },
        }
    }

    /// The window's frame.
    pub fn frame(&self) -> (f: F)
        ensures
            f == self.frame,
    {
        self.frame
    }

    /// An equal copy of this record.
    pub fn duplicate(&self) -> (r: Self)
        ensures
            r == *self,
    {
        WindowInfo {
            id: self.id,
            title: self.title.clone(),
            application_name: self.application_name.clone(),
            bundle_id: self.bundle_id.clone(),
            frame: self.frame,
            is_minimized: self.is_minimized,
            is_fullscreen: self.is_fullscreen,
            is_focused: self.is_focused,
            monitor_id: copy_opt_string(&self.monitor_id),
            mode: self.mode,
        }
    }
}

/// Counters of the window manager's operations.
#[derive(Debug, Clone, Copy, PartialEq, Eq, Structural)]
pub struct WindowManagerMetrics {
    pub refresh_count: u64,
    pub focus_events: u64,
    pub move_events: u64,
    pub minimize_events: u64,
    pub error_count: u64,
}

impl Default for WindowManagerMetrics {
    fn default() -> (m: Self)
        ensures
            m == zero_metrics(),
    {
        WindowManagerMetrics { refresh_count: 0, focus_events: 0, move_events: 0, minimize_events: 0, error_count: 0 }
    }
}

/// All counters at zero.
pub open spec fn zero_metrics() -> WindowManagerMetrics {
    WindowManagerMetrics { refresh_count: 0, focus_events: 0, move_events: 0, minimize_events: 0, error_count: 0 }
}

/// The counters with one more error.
pub open spec fn one_more_error(m: WindowManagerMetrics) -> WindowManagerMetrics {
    WindowManagerMetrics { error_count: (m.error_count + 1) as u64, ..m }
}

/// The view of an optional string.
pub open spec fn opt_str_view(o: Option<&str>) -> Option<Seq<char>> {
    match o {
        Some(s) => Some(s@),
        None => None,
    }
}

/// Whether a window is listed: minimized windows only when asked for, and
/// only windows on the given monitor when one is given.
pub open spec fn listed<F>(w: WindowInfo<F>, include_minimized: bool, monitor: Option<Seq<char>>) -> bool {
    &&& include_minimized || !w.is_minimized
    &&& match monitor {
        Some(m) => w.monitor_id matches Some(x) && x@ == m,
        None => true,
    }
}

/// The listed windows of a cache, in cache order.
pub open spec fn listing<F>(s: Seq<WindowInfo<F>>, include_minimized: bool, monitor: Option<Seq<char>>) -> Seq<WindowInfo<F>>
    decreases s.len(),
{
    if s.len() == 0 {
        seq![]
    } else if listed(s.last(), include_minimized, monitor) {
        listing(s.drop_last(), include_minimized, monitor).push(s.last())
    } else {
        listing(s.drop_last(), include_minimized, monitor)
    }
}

/// A record with its focus set to whether it is the window `id`.
pub open spec fn focused<F>(w: WindowInfo<F>, id: u32) -> WindowInfo<F> {
    WindowInfo { is_focused: w.id == id, ..w }
}

/// A record with another frame.
pub open spec fn with_frame<F>(w: WindowInfo<F>, frame: F) -> WindowInfo<F> {
    WindowInfo { frame: frame, ..w }
}

/// A record minimized or restored.
pub open spec fn with_minimized<F>(w: WindowInfo<F>, minimized: bool) -> WindowInfo<F> {
    WindowInfo { is_minimized: minimized, ..w }
}

/// A record with another mode.
pub open spec fn with_mode<F>(w: WindowInfo<F>, mode: WindowMode) -> WindowInfo<F> {
    WindowInfo { mode: mode, ..w }
}

/// The mode a toggle leads to: tiled and floating swap, fullscreen stays.
pub open spec fn toggled(m: WindowMode) -> WindowMode {
    match m {
        WindowMode::Tiled => WindowMode::Floating,
        WindowMode::Floating => WindowMode::Tiled,
        WindowMode::Fullscreen => WindowMode::Fullscreen,
    }
}

/// The cache after window `id` was focused: every record's focus says
/// whether it is that window.
pub open spec fn focus_applied<F>(s: Seq<WindowInfo<F>>, id: u32) -> Seq<WindowInfo<F>> {
    s.map_values(|w: WindowInfo<F>| focused(w, id))
}

/// The cache after window `id` was toggled.
pub open spec fn toggle_applied<F>(s: Seq<WindowInfo<F>>, id: u32) -> Seq<WindowInfo<F>> {
    s.map_values(|x: WindowInfo<F>| if x.id == id { with_mode(x, toggled(x.mode)) } else { x })
}

/// The records of the windows a provider listed, in the order listed.
pub open spec fn infos_of<F>(ws: Seq<AXWindow<F>>) -> Seq<WindowInfo<F>> {
    ws.map_values(|a: AXWindow<F>| info_of(a))
}

/// The window manager's cache and counters.
#[derive(Debug)]
pub struct WindowManager<F> {
    cache: Vec<WindowInfo<F>>,
    metrics: WindowManagerMetrics,
}

impl<F: Copy> WindowManager<F> {
    /// The cached windows, in increasing id order.
    pub closed spec fn cached(&self) -> Seq<WindowInfo<F>> {
        self.cache@
    }

    /// The counters.
    pub closed spec fn metrics_view(&self) -> WindowManagerMetrics {
        self.metrics
    }

    /// Whether the cache holds one record per id, in increasing id order.
    pub closed spec fn wf(&self) -> bool {
        keys_increasing(self.cache@)
    }

    /// A well-formed cache holds one record per id, in increasing id order.
    pub proof fn lemma_cache_keys_increasing(&self)
        requires
            self.wf(),
        ensures
            keys_increasing(self.cached()),
    {
    }

    /// A manager with an empty cache and all counters at zero.
    pub fn new() -> (m: Self)
        ensures
            m.wf(),
            m.cached() == Seq::<WindowInfo<F>>::empty(),
            m.metrics_view() == zero_metrics(),
    {
        WindowManager { cache: Vec::new(), metrics: WindowManagerMetrics::default() }
    }

    /// The counters.
    pub fn metrics(&self) -> (m: WindowManagerMetrics)
        ensures
            m == self.metrics_view(),
    {
        self.metrics
    }

    /// Whether the cache is empty (listing then refreshes it first).
    pub fn is_cache_empty(&self) -> (b: bool)
        ensures
            b == (self.cached().len() == 0),
    {
        self.cache.len() == 0
    }

    fn count_error(&mut self)
        requires
            old(self).metrics.error_count < u64::MAX,
        ensures
            final(self).metrics == one_more_error(old(self).metrics),
            final(self).cache == old(self).cache,
    {
        self.metrics.error_count = self.metrics.error_count + 1;
    }

    /// Passes on the provider's permission check, counting a failure.
    pub fn ensure_permissions(&mut self, outcome: Result<(), TilleRSError>) -> (r: Result<(), TilleRSError>)
        requires
            outcome is Err ==> old(self).metrics_view().error_count < u64::MAX,
        ensures
            r == outcome,
            final(self).cached() == old(self).cached(),
            final(self).wf() == old(self).wf(),
            final(self).metrics_view() == if outcome is Err {
                one_more_error(old(self).metrics_view())
            } else {
                old(self).metrics_view()
            },
    {
        if outcome.is_err() {
            self.count_error();
        }
        outcome
    }

    /// Rebuilds the cache from the windows the provider listed (for an id
    /// listed twice, the later one) and counts the refresh; a listing error
    /// leaves the cache alone and is counted.
    pub fn refresh_cache(&mut self, listed: Result<Vec<AXWindow<F>>, TilleRSError>) -> (r: Result<(), TilleRSError>)
        requires
            old(self).wf(),
            listed is Err ==> old(self).metrics_view().error_count < u64::MAX,
            listed is Ok ==> old(self).metrics_view().refresh_count < u64::MAX,
        ensures
            final(self).wf(),
            match listed {
                Err(e) => r == Err::<(), TilleRSError>(e)
                    && final(self).cached() == old(self).cached()
                    && final(self).metrics_view() == one_more_error(old(self).metrics_view()),
                Ok(ws) => r is Ok
                    && (forall|k: u32| #[trigger] find_key(final(self).cached(), k) == last_with_key(infos_of(ws@), k))
                    && final(self).metrics_view() == (WindowManagerMetrics {
                        refresh_count: (old(self).metrics_view().refresh_count + 1) as u64,
                        ..old(self).metrics_view()
                    }),
            },
    {
        match listed {
            Err(e) => {
                self.count_error();
                Err(e)
            },
            Ok(windows) => {
                let mut infos: Vec<WindowInfo<F>> = Vec::new();
                let mut i: usize = 0;
                while i < windows.len()
                    invariant
                        i <= windows@.len(),
                        infos@ == infos_of(windows@.take(i as int)),
                    decreases windows@.len() - i,
                {
                    infos.push(WindowInfo::from_ax(&windows[i]));
                    i = i + 1;
                    assert(infos@ =~= infos_of(windows@.take(i as int)));
                }
                assert(windows@.take(i as int) =~= windows@);
                self.cache = table_from_records(infos);
                self.metrics.refresh_count = self.metrics.refresh_count + 1;
                Ok(())
            },
        }
    }

    /// The cached windows that are listed, in increasing id order.
    pub fn list_windows(&self, include_minimized: bool, monitor_filter: Option<&str>) -> (r: Vec<WindowInfo<F>>)
        ensures
            r@ == listing(self.cached(), include_minimized, opt_str_view(monitor_filter)),
    {
        let ghost monitor = opt_str_view(monitor_filter);
        let mut out: Vec<WindowInfo<F>> = Vec::new();
        let mut i: usize = 0;
        while i < self.cache.len()
            invariant
                i <= self.cache@.len(),
                monitor == opt_str_view(monitor_filter),
                out@ == listing(self.cache@.take(i as int), include_minimized, monitor),
            decreases self.cache@.len() - i,
        {
            let ghost pre = self.cache@.take(i as int);
            let w = &self.cache[i];
            let on_monitor = match monitor_filter {
                Some(m) => match &w.monitor_id {
                    Some(x) => text::str_equal(x.as_str(), m),
                    None => false,
                },
                None => true,
            };
            if (include_minimized || !w.is_minimized) && on_monitor {
                out.push(w.duplicate());
            }
            i = i + 1;
            assert(self.cache@.take(i as int).drop_last() =~= pre);
        }
        assert(self.cache@.take(i as int) =~= self.cache@);
        out
    }

    /// The cached record of a window, if any.
    pub fn get_window(&self, window_id: u32) -> (r: Option<WindowInfo<F>>)
        requires
            self.wf(),
        ensures
            r == find_key(self.cached(), window_id),
    {
        match position_of_key(&self.cache, window_id) {
            Some(i) => Some(self.cache[i].duplicate()),
            None => None,
        }
    }

    /// After the provider focused a window: that window, and only that one,
    /// is focused in the cache, and the focus is counted. A provider error
    /// leaves the cache alone and is counted.
    pub fn focus_window(&mut self, window_id: u32, outcome: Result<(), TilleRSError>) -> (r: Result<(), TilleRSError>)
        requires
            old(self).wf(),
            outcome is Err ==> old(self).metrics_view().error_count < u64::MAX,
            outcome is Ok ==> old(self).metrics_view().focus_events < u64::MAX,
        ensures
            final(self).wf(),
            r == outcome,
            outcome is Err ==> final(self).cached() == old(self).cached()
                && final(self).metrics_view() == one_more_error(old(self).metrics_view()),
            outcome is Ok ==> final(self).cached() == focus_applied(old(self).cached(), window_id)
                && final(self).metrics_view() == (WindowManagerMetrics {
                    focus_events: (old(self).metrics_view().focus_events + 1) as u64,
                    ..old(self).metrics_view()
                }),
    {
        if outcome.is_err() {
            self.count_error();
            return outcome;
        }
        let ghost s = self.cache@;
        let mut i: usize = 0;
        while i < self.cache.len()
            invariant
                i <= self.cache@.len(),
                self.cache@.len() == s.len(),
                self.metrics == old(self).metrics,
                forall|j: int| 0 <= j < i ==> #[trigger] self.cache@[j] == focused(s[j], window_id),
                forall|j: int| i <= j < s.len() ==> #[trigger] self.cache@[j] == s[j],
            decreases self.cache@.len() - i,
        {
            let w = self.cache.remove(i);
            let is_target = w.id == window_id;
            let nw = WindowInfo {
                id: w.id,
                title: w.title,
                application_name: w.application_name,
                bundle_id: w.bundle_id,
                frame: w.frame,
                is_minimized: w.is_minimized,
                is_fullscreen: w.is_fullscreen,
                is_focused: is_target,
                monitor_id: w.monitor_id,
                mode: w.mode,
            };
            self.cache.insert(i, nw);
            i = i + 1;
        }
        assert(self.cache@ =~= s.map_values(|w: WindowInfo<F>| focused(w, window_id)));
        assert forall|a: int, b: int| 0 <= a < b < self.cache@.len() implies
            (#[trigger] self.cache@[a]).key() < (#[trigger] self.cache@[b]).key() by {
            assert(s[a].key() < s[b].key());
        }
        self.metrics.focus_events = self.metrics.focus_events + 1;
        outcome
    }

    /// Replaces the record at position `i` (whose id is `window_id`) by `nw`,
    /// which has the same id.
    fn replace_at(&mut self, i: usize, nw: WindowInfo<F>)
        requires
            old(self).wf(),
            i < old(self).cache@.len(),
            nw.id == old(self).cache@[i as int].id,
        ensures
            final(self).wf(),
            final(self).metrics == old(self).metrics,
            final(self).cache@ == old(self).cache@.update(i as int, nw),
            forall|j: int| 0 <= j < old(self).cache@.len() && j != i ==> (#[trigger] old(self).cache@[j]).id != nw.id,
    {
        let ghost s = self.cache@;
        self.cache.set(i, nw);
        proof {
            assert forall|j: int| 0 <= j < s.len() && j != i implies (#[trigger] s[j]).id != nw.id by {
                if j < i {
                    assert(s[j].key() < s[i as int].key());
                } else {
                    assert(s[i as int].key() < s[j].key());
                }
            }
            assert forall|a: int, b: int| 0 <= a < b < self.cache@.len() implies
                (#[trigger] self.cache@[a]).key() < (#[trigger] self.cache@[b]).key() by {
                assert(s[a].key() < s[b].key());
            }
        }
    }

    /// After the provider moved or resized a window: its cached frame is
    /// replaced and the move counted, with `Ok(true)`. When the window is not
    /// cached nothing changes and the result is `Ok(false)`: the caller then
    /// refreshes the cache and, if that succeeds, counts the move with
    /// `record_move`. A provider error leaves the cache alone and is counted.
    pub fn set_window_frame(&mut self, window_id: u32, frame: F, outcome: Result<(), TilleRSError>) -> (r: Result<bool, TilleRSError>)
        requires
            old(self).wf(),
            outcome is Err ==> old(self).metrics_view().error_count < u64::MAX,
            outcome is Ok && has_key(old(self).cached(), window_id) ==> old(self).metrics_view().move_events < u64::MAX,
        ensures
            final(self).wf(),
            match outcome {
                Err(e) => r == Err::<bool, TilleRSError>(e)
                    && final(self).cached() == old(self).cached()
                    && final(self).metrics_view() == one_more_error(old(self).metrics_view()),
                Ok(_) => if has_key(old(self).cached(), window_id) {
                    r == Ok::<bool, TilleRSError>(true)
                        && final(self).cached() == old(self).cached().map_values(
                            |w: WindowInfo<F>| if w.id == window_id { with_frame(w, frame) } else { w })
                        && final(self).metrics_view() == (WindowManagerMetrics {
                            move_events: (old(self).metrics_view().move_events + 1) as u64,
                            ..old(self).metrics_view()
                        })
                } else {
                    r == Ok::<bool, TilleRSError>(false)
                        && final(self).cached() == old(self).cached()
                        && final(self).metrics_view() == old(self).metrics_view()
                },
            },
    {
        match outcome {
            Err(e) => {
                self.count_error();
                Err(e)
            },
            Ok(_) => match position_of_key(&self.cache, window_id) {
                None => Ok(false),
                Some(i) => {
                    let ghost s = self.cache@;
                    let w = self.cache[i].duplicate();
                    let nw = WindowInfo {
                        id: w.id,
                        title: w.title,
                        application_name: w.application_name,
                        bundle_id: w.bundle_id,
                        frame: frame,
                        is_minimized: w.is_minimized,
                        is_fullscreen: w.is_fullscreen,
                        is_focused: w.is_focused,
                        monitor_id: w.monitor_id,
                        mode: w.mode,
                    };
                    self.replace_at(i, nw);
                    assert(self.cache@ =~= s.map_values(
                        |w: WindowInfo<F>| if w.id == window_id { with_frame(w, frame) } else { w }));
                    self.metrics.move_events = self.metrics.move_events + 1;
                    Ok(true)
                },
            },
        }
    }

    /// Counts a move applied to a window that was only cached after a refresh.
    pub fn record_move(&mut self)
        requires
            old(self).metrics_view().move_events < u64::MAX,
        ensures
            final(self).cached() == old(self).cached(),
            final(self).wf() == old(self).wf(),
            final(self).metrics_view() == (WindowManagerMetrics {
                move_events: (old(self).metrics_view().move_events + 1) as u64,
                ..old(self).metrics_view()
            }),
    {
        self.metrics.move_events = self.metrics.move_events + 1;
    }

    /// After the provider minimized or restored a window: its cached state is
    /// updated and counted, with `Ok(true)`. When the window is not cached
    /// nothing changes and the result is `Ok(false)`: the caller then
    /// refreshes the cache and, if that succeeds, counts the change with
    /// `record_minimize`. A provider error leaves the cache alone and is
    /// counted.
    pub fn set_window_minimized(&mut self, window_id: u32, minimized: bool, outcome: Result<(), TilleRSError>) -> (r: Result<bool, TilleRSError>)
        requires
            old(self).wf(),
            outcome is Err ==> old(self).metrics_view().error_count < u64::MAX,
            outcome is Ok && has_key(old(self).cached(), window_id) ==> old(self).metrics_view().minimize_events < u64::MAX,
        ensures
            final(self).wf(),
            match outcome {
                Err(e) => r == Err::<bool, TilleRSError>(e)
                    && final(self).cached() == old(self).cached()
                    && final(self).metrics_view() == one_more_error(old(self).metrics_view()),
                Ok(_) => if has_key(old(self).cached(), window_id) {
                    r == Ok::<bool, TilleRSError>(true)
                        && final(self).cached() == old(self).cached().map_values(
                            |w: WindowInfo<F>| if w.id == window_id { with_minimized(w, minimized) } else { w })
                        && final(self).metrics_view() == (WindowManagerMetrics {
                            minimize_events: (old(self).metrics_view().minimize_events + 1) as u64,
                            ..old(self).metrics_view()
                        })
                } else {
                    r == Ok::<bool, TilleRSError>(false)
                        && final(self).cached() == old(self).cached()
                        && final(self).metrics_view() == old(self).metrics_view()
                },
            },
    {
        match outcome {
            Err(e) => {
                self.count_error();
                Err(e)
            },
            Ok(_) => match position_of_key(&self.cache, window_id) {
                None => Ok(false),
                Some(i) => {
                    let ghost s = self.cache@;
                    let w = self.cache[i].duplicate();
                    let nw = WindowInfo {
                        id: w.id,
                        title: w.title,
                        application_name: w.application_name,
                        bundle_id: w.bundle_id,
                        frame: w.frame,
                        is_minimized: minimized,
                        is_fullscreen: w.is_fullscreen,
                        is_focused: w.is_focused,
                        monitor_id: w.monitor_id,
                        mode: w.mode,
                    };
                    self.replace_at(i, nw);
                    assert(self.cache@ =~= s.map_values(
                        |w: WindowInfo<F>| if w.id == window_id { with_minimized(w, minimized) } else { w }));
                    self.metrics.minimize_events = self.metrics.minimize_events + 1;
                    Ok(true)
                },
            },
        }
    }

    /// Counts a minimize or restore of a window that was only cached after a
    /// refresh.
    pub fn record_minimize(&mut self)
        requires
            old(self).metrics_view().minimize_events < u64::MAX,
        ensures
            final(self).cached() == old(self).cached(),
            final(self).wf() == old(self).wf(),
            final(self).metrics_view() == (WindowManagerMetrics {
                minimize_events: (old(self).metrics_view().minimize_events + 1) as u64,
                ..old(self).metrics_view()
            }),
    {
        self.metrics.minimize_events = self.metrics.minimize_events + 1;
    }

    /// Toggles a cached window between tiled and floating (a fullscreen
    /// window stays fullscreen) and gives its new mode. `None` when the
    /// window is not cached, with nothing changed: the caller then refreshes
    /// the cache and calls `toggle_floating_after_refresh`.
    pub fn toggle_floating(&mut self, window_id: u32) -> (r: Option<WindowMode>)
        requires
            old(self).wf(),
        ensures
            final(self).wf(),
            final(self).metrics_view() == old(self).metrics_view(),
            match find_key(old(self).cached(), window_id) {
                Some(w) => r == Some(toggled(w.mode))
                    && final(self).cached() == toggle_applied(old(self).cached(), window_id),
                None => r is None && final(self).cached() == old(self).cached(),
            },
    {
        match position_of_key(&self.cache, window_id) {
            None => None,
            Some(i) => {
                let ghost s = self.cache@;
                let w = self.cache[i].duplicate();
                let mode = match w.mode {
                    WindowMode::Tiled => WindowMode::Floating,
                    WindowMode::Floating => WindowMode::Tiled,
                    WindowMode::Fullscreen => WindowMode::Fullscreen,
                };
                let nw = WindowInfo {
                    id: w.id,
                    title: w.title,
                    application_name: w.application_name,
                    bundle_id: w.bundle_id,
                    frame: w.frame,
                    is_minimized: w.is_minimized,
                    is_fullscreen: w.is_fullscreen,
                    is_focused: w.is_focused,
                    monitor_id: w.monitor_id,
                    mode: mode,
                };
                self.replace_at(i, nw);
                assert(self.cache@ =~= s.map_values(
                    |x: WindowInfo<F>| if x.id == window_id { with_mode(x, toggled(x.mode)) } else { x }));
                Some(mode)
            },
        }
    }

    /// The toggle for a window looked for again after a refresh: a fullscreen
    /// window stays fullscreen, any other becomes floating; a window still
    /// not cached is an error, counted.
    pub fn toggle_floating_after_refresh(&mut self, window_id: u32) -> (r: Result<WindowMode, TilleRSError>)
        requires
            old(self).wf(),
            !has_key(old(self).cached(), window_id) ==> old(self).metrics_view().error_count < u64::MAX,
        ensures
            final(self).wf(),
            match find_key(old(self).cached(), window_id) {
                Some(w) => final(self).metrics_view() == old(self).metrics_view()
                    && if w.mode == WindowMode::Fullscreen {
                        r == Ok::<WindowMode, TilleRSError>(WindowMode::Fullscreen)
                            && final(self).cached() == old(self).cached()
                    } else {
                        r == Ok::<WindowMode, TilleRSError>(WindowMode::Floating)
                            && final(self).cached() == old(self).cached().map_values(
                                |x: WindowInfo<F>| if x.id == window_id { with_mode(x, WindowMode::Floating) } else { x })
                    },
                None => r == Err::<WindowMode, TilleRSError>(TilleRSError::WindowNotFound(window_id))
                    && final(self).cached() == old(self).cached()
                    && final(self).metrics_view() == one_more_error(old(self).metrics_view()),
            },
    {
        match position_of_key(&self.cache, window_id) {
            None => {
                self.count_error();
                Err(TilleRSError::WindowNotFound(window_id))
            },
            Some(i) => {
                if self.cache[i].mode == WindowMode::Fullscreen {
                    return Ok(WindowMode::Fullscreen);
                }
                let ghost s = self.cache@;
                let w = self.cache[i].duplicate();
                let nw = WindowInfo {
                    id: w.id,
                    title: w.title,
                    application_name: w.application_name,
                    bundle_id: w.bundle_id,
                    frame: w.frame,
                    is_minimized: w.is_minimized,
                    is_fullscreen: w.is_fullscreen,
                    is_focused: w.is_focused,
                    monitor_id: w.monitor_id,
                    mode: WindowMode::Floating,
                };
                self.replace_at(i, nw);
                assert(self.cache@ =~= s.map_values(
                    |x: WindowInfo<F>| if x.id == window_id { with_mode(x, WindowMode::Floating) } else { x }));
                Ok(WindowMode::Floating)
            },
        }
    }
}

/// Every window listed from a cache is a cached window that is listed, and
/// every such window is listed.
pub proof fn lemma_listing_members<F>(s: Seq<WindowInfo<F>>, include_minimized: bool, monitor: Option<Seq<char>>)
    ensures
        forall|w: WindowInfo<F>| #[trigger] listing(s, include_minimized, monitor).contains(w)
            <==> s.contains(w) && listed(w, include_minimized, monitor),
    decreases s.len(),
{
    if s.len() > 0 {
        let d = s.drop_last();
        lemma_listing_members(d, include_minimized, monitor);
        assert forall|w: WindowInfo<F>| #[trigger] s.contains(w) <==> d.contains(w) || w == s.last() by {
            if s.contains(w) {
                let i = choose|i: int| 0 <= i < s.len() && s[i] == w;
                if i < s.len() - 1 {
                    assert(d[i] == w);
                }
            }
            if d.contains(w) {
                let i = choose|i: int| 0 <= i < d.len() && d[i] == w;
                assert(s[i] == w);
            }
            if w == s.last() {
                assert(s[s.len() - 1] == w);
            }
        }
        let l = listing(d, include_minimized, monitor);
        if listed(s.last(), include_minimized, monitor) {
            assert forall|w: WindowInfo<F>| #[trigger] l.push(s.last()).contains(w) <==> l.contains(w) || w == s.last() by {
                if l.push(s.last()).contains(w) {
                    let i = choose|i: int| 0 <= i < l.len() + 1 && l.push(s.last())[i] == w;
                    if i < l.len() {
                        assert(l[i] == w);
                    }
                }
                if l.contains(w) {
                    let i = choose|i: int| 0 <= i < l.len() && l[i] == w;
                    assert(l.push(s.last())[i] == w);
                }
                if w == s.last() {
                    assert(l.push(s.last())[l.len() as int] == w);
                }
            }
        }
    }
}

/// Listing keeps the cache order: the listed windows come in strictly
/// increasing id order, each window at most once, and they are exactly the
/// cached windows that pass the filter.
pub proof fn law_listing_sorted<F>(s: Seq<WindowInfo<F>>, include_minimized: bool, monitor: Option<Seq<char>>)
    requires
        keys_increasing(s),
    ensures
        keys_increasing(listing(s, include_minimized, monitor)),
        forall|w: WindowInfo<F>| #[trigger] listing(s, include_minimized, monitor).contains(w)
            <==> s.contains(w) && listed(w, include_minimized, monitor),
    decreases s.len(),
{
    lemma_listing_members(s, include_minimized, monitor);
    if s.len() > 0 {
        let d = s.drop_last();
        assert(keys_increasing(d)) by {
            assert forall|a: int, b: int| 0 <= a < b < d.len() implies (#[trigger] d[a]).key() < (#[trigger] d[b]).key() by {
                assert(s[a].key() < s[b].key());
            }
        }
        law_listing_sorted(d, include_minimized, monitor);
        let l = listing(d, include_minimized, monitor);
        if listed(s.last(), include_minimized, monitor) {
            let n = l.push(s.last());
            assert forall|a: int, b: int| 0 <= a < b < n.len() implies (#[trigger] n[a]).key() < (#[trigger] n[b]).key() by {
                if b == l.len() {
                    assert(l.contains(l[a]));
                    assert(d.contains(l[a]));
                    let i = choose|i: int| 0 <= i < d.len() && d[i] == l[a];
                    assert(s[i] == d[i]);
                    assert(s[i].key() < s[s.len() - 1].key());
                }
            }
        }
    }
}

/// After a focus, the focused windows of the cache are exactly the window
/// that was focused: at most one window is focused.
pub proof fn law_focus_is_exclusive<F>(s: Seq<WindowInfo<F>>, id: u32)
    requires
        keys_increasing(s),
    ensures
        focus_applied(s, id).len() == s.len(),
        forall|i: int| 0 <= i < s.len() ==> (#[trigger] focus_applied(s, id)[i]).is_focused == (s[i].id == id),
        forall|i: int, j: int| 0 <= i < s.len() && 0 <= j < s.len()
            && (#[trigger] focus_applied(s, id)[i]).is_focused
            && (#[trigger] focus_applied(s, id)[j]).is_focused ==> i == j,
{
    let f = focus_applied(s, id);
    assert forall|i: int, j: int| 0 <= i < s.len() && 0 <= j < s.len()
        && (#[trigger] f[i]).is_focused && (#[trigger] f[j]).is_focused implies i == j by {
        if i < j {
            assert(s[i].key() < s[j].key());
        } else if j < i {
            assert(s[j].key() < s[i].key());
        }
    }
}

/// Toggling a cached window twice gives back the cache as it was.
pub proof fn law_toggle_twice<F>(s: Seq<WindowInfo<F>>, id: u32)
    ensures
        toggle_applied(toggle_applied(s, id), id) == s,
{
    let twice = toggle_applied(toggle_applied(s, id), id);
    assert forall|i: int| 0 <= i < s.len() implies #[trigger] twice[i] == s[i] by {
        assert(toggled(toggled(s[i].mode)) == s[i].mode);
    }
    assert(twice =~= s);
}

/// In a cache with one record per id, toggling a cached window and toggling
/// it again gives back the mode it had: the second toggle finds the window
/// with the toggled mode and answers its mode before the first toggle.
pub proof fn law_toggle_mode_twice<F>(s: Seq<WindowInfo<F>>, id: u32)
    requires
        keys_increasing(s),
        has_key(s, id),
    ensures
        keys_increasing(toggle_applied(s, id)),
        find_key(toggle_applied(s, id), id) matches Some(w2) && w2.mode == toggled(find_key(s, id).unwrap().mode)
            && toggled(w2.mode) == find_key(s, id).unwrap().mode,
{
    let t = toggle_applied(s, id);
    let i = choose|i: int| 0 <= i < s.len() && (#[trigger] s[i]).key() == id;
    lemma_find_at(s, i);
    assert forall|a: int, b: int| 0 <= a < b < t.len() implies (#[trigger] t[a]).key() < (#[trigger] t[b]).key() by {
        assert(t[a].key() == s[a].key());
        assert(t[b].key() == s[b].key());
    }
    assert(t[i].key() == id);
    lemma_find_at(t, i);
    assert(toggled(toggled(s[i].mode)) == s[i].mode);
}

} // verus!
