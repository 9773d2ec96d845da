//! The tiling engine's bookkeeping: a layout request needs at least one
//! window, pairs each window with the frame computed for it, and is counted
//! with the size and algorithm of the last request.
//!
//! The frames themselves are computed in display points, in floating point,
//! outside this library; they come in as an argument.

use vstd::prelude::*;
use crate::TilleRSError;
use crate::text;
use crate::models::tiling_pattern::{LayoutAlgorithm, TilingPattern};

verus! {

/// The frame assigned to a window.
#[derive(Debug, Clone, Copy, PartialEq, Eq)]
pub struct WindowLayout<F> {
    pub window_id: u32,
    pub frame: F,
}

/// Counters of the tiling engine.
#[derive(Debug, Clone, Copy, PartialEq, Eq, Structural)]
pub struct TilingEngineMetrics {
    pub layout_requests: u64,
    pub last_window_count: usize,
    pub last_algorithm: Option<LayoutAlgorithm>,
}

impl Default for TilingEngineMetrics {
    fn default() -> (m: Self)
        ensures
            m.layout_requests == 0,
            m.last_window_count == 0,
            m.last_algorithm is None,
    {
        TilingEngineMetrics { layout_requests: 0, last_window_count: 0, last_algorithm: None }
    }
}

/// Each window paired with the frame at the same position, as far as both
/// lists go.
pub open spec fn paired<F>(ids: Seq<u32>, frames: Seq<F>) -> Seq<WindowLayout<F>> {
    Seq::new(
        if ids.len() <= frames.len() { ids.len() } else { frames.len() },
        |i: int| WindowLayout { window_id: ids[i], frame: frames[i] },
    )
}

/// The message of a request without windows.
pub open spec fn no_window_message() -> Seq<char> {
    "At least one window is required for tiling"@
}

/// The tiling engine.
#[derive(Debug)]
pub struct TilingEngine {
    metrics: TilingEngineMetrics,
}

impl TilingEngine {
    /// The counters.
    pub closed spec fn metrics_view(&self) -> TilingEngineMetrics {
        self.metrics
    }

    /// An engine with its counters at zero.
    pub fn new() -> (e: Self)
        ensures
            e.metrics_view().layout_requests == 0,
            e.metrics_view().last_window_count == 0,
            e.metrics_view().last_algorithm is None,
    {
        TilingEngine { metrics: TilingEngineMetrics::default() }
    }

    /// The counters.
    pub fn metrics(&self) -> (m: TilingEngineMetrics)
        ensures
            m == self.metrics_view(),
    {
        self.metrics
    }

    /// Pairs the windows with the frames computed for them under `pattern`.
    /// No window is a validation error; an error computing the frames is
    /// passed on; either way nothing is counted. A layout is counted with its
    /// window count and algorithm.
    pub fn layout_windows<F: Copy>(
        &mut self,
        window_ids: &Vec<u32>,
        pattern: &TilingPattern,
        frames: Result<Vec<F>, TilleRSError>,
    ) -> (r: Result<Vec<WindowLayout<F>>, TilleRSError>)
        requires
            window_ids.len() > 0 && frames is Ok ==> old(self).metrics_view().layout_requests < u64::MAX,
        ensures
            window_ids.len() == 0 ==> (r matches Err(TilleRSError::ValidationError(m)) && m@ == no_window_message())
                && final(self).metrics_view() == old(self).metrics_view(),
            window_ids.len() > 0 ==> match frames {
                Err(e) => r == Err::<Vec<WindowLayout<F>>, TilleRSError>(e)
                    && final(self).metrics_view() == old(self).metrics_view(),
                Ok(fs) => (r matches Ok(v) && v@ == paired(window_ids@, fs@))
                    && final(self).metrics_view() == (TilingEngineMetrics {
                        layout_requests: (old(self).metrics_view().layout_requests + 1) as u64,
                        last_window_count: window_ids.len(),
                        last_algorithm: Some(pattern.layout_algorithm),
                    }),
            },
    {
        if window_ids.len() == 0 {
            return Err(TilleRSError::ValidationError(text::owned("At least one window is required for tiling")));
        }
        let fs = match frames {
            Err(e) => {
                return Err(e);
            },
            Ok(fs) => fs,
        };
        let n = if window_ids.len() <= fs.len() { window_ids.len() } else { fs.len() };
        let mut out: Vec<WindowLayout<F>> = Vec::new();
        let mut i: usize = 0;
        while i < n
            invariant
                n <= window_ids@.len(),
                n <= fs@.len(),
                n == paired(window_ids@, fs@).len(),
                i <= n,
                out@ == paired(window_ids@, fs@).take(i as int),
            decreases n - i,
        {
            out.push(WindowLayout { window_id: window_ids[i], frame: fs[i] });
            i = i + 1;
            assert(out@ =~= paired(window_ids@, fs@).take(i as int));
        }
        assert(out@ =~= paired(window_ids@, fs@));
        self.metrics = TilingEngineMetrics {
            layout_requests: self.metrics.layout_requests + 1,
            last_window_count: window_ids.len(),
            last_algorithm: Some(pattern.layout_algorithm),
        };
        Ok(out)
    }
}

impl Default for TilingEngine {
    fn default() -> (e: Self)
        ensures
            e.metrics_view().layout_requests == 0,
            e.metrics_view().last_window_count == 0,
            e.metrics_view().last_algorithm is None,
    {
        Self::new()
    }
}

} // verus!
