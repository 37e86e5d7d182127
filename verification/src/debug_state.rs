use std::collections::VecDeque;
use vstd::prelude::*;

verus! {

/// Number of frame- and render-time samples the debug window keeps.
pub const HISTORY_LIMIT: usize = 180;

/// Number of inspector selections remembered by the debug window.
pub const INSPECTOR_HISTORY_LIMIT: usize = 24;

/// A main-window frame interval is sampled only when it lies in
/// `[FRAME_DELTA_MIN_NS, FRAME_DELTA_MAX_NS]` (one millisecond to one second).
pub const FRAME_DELTA_MIN_NS: u64 = 1_000_000;

pub const FRAME_DELTA_MAX_NS: u64 = 1_000_000_000;

/// Per-window counters as the renderer reports them.
#[derive(Clone, Copy, Debug)]
pub struct WindowMetricsSnapshot {
    pub window_id: u64,
    pub request_redraw_count: usize,
    pub draw_count: usize,
    pub present_count: usize,
    pub skip_count: usize,
    pub skipped_frame_count: usize,
    pub gpu_surface_reconfigure_count: usize,
    pub gpu_surface_error_count: usize,
    pub layout_recompute_count: usize,
    pub upload_bytes: usize,
}

/// Per-window counters shown in the debug window.
#[derive(Clone, Copy, Debug, PartialEq, Eq, Structural)]
pub struct DebugWindowMetrics {
    pub window_id: u64,
    pub request_redraw_count: usize,
    pub draw_count: usize,
    pub present_count: usize,
    pub skip_count: usize,
    pub skipped_frame_count: usize,
    pub surface_reconfigure_count: usize,
    pub present_error_count: usize,
    pub layout_recompute_count: usize,
    pub upload_bytes: usize,
}

/// The field-by-field renaming from renderer counters to debug-window counters.
pub open spec fn window_metrics_of(m: WindowMetricsSnapshot) -> DebugWindowMetrics {
    DebugWindowMetrics {
        window_id: m.window_id,
        request_redraw_count: m.request_redraw_count,
        draw_count: m.draw_count,
        present_count: m.present_count,
        skip_count: m.skip_count,
        skipped_frame_count: m.skipped_frame_count,
        surface_reconfigure_count: m.gpu_surface_reconfigure_count,
        present_error_count: m.gpu_surface_error_count,
        layout_recompute_count: m.layout_recompute_count,
        upload_bytes: m.upload_bytes,
    }
}

impl From<WindowMetricsSnapshot> for DebugWindowMetrics {
    fn from(metrics: WindowMetricsSnapshot) -> (r: Self) {
        DebugWindowMetrics {
            window_id: metrics.window_id,
            request_redraw_count: metrics.request_redraw_count,
            draw_count: metrics.draw_count,
            present_count: metrics.present_count,
            skip_count: metrics.skip_count,
            skipped_frame_count: metrics.skipped_frame_count,
            surface_reconfigure_count: metrics.gpu_surface_reconfigure_count,
            present_error_count: metrics.gpu_surface_error_count,
            layout_recompute_count: metrics.layout_recompute_count,
            upload_bytes: metrics.upload_bytes,
        }
    }
}

impl vstd::std_specs::convert::FromSpecImpl<WindowMetricsSnapshot> for DebugWindowMetrics {
    open spec fn obeys_from_spec() -> bool {
        true
    }

    open spec fn from_spec(v: WindowMetricsSnapshot) -> Self {
        window_metrics_of(v)
    }
}

impl Default for DebugWindowMetrics {
    fn default() -> (r: Self)
        ensures
            r == (DebugWindowMetrics {
                window_id: 0,
                request_redraw_count: 0,
                draw_count: 0,
                present_count: 0,
                skip_count: 0,
                skipped_frame_count: 0,
                surface_reconfigure_count: 0,
                present_error_count: 0,
                layout_recompute_count: 0,
                upload_bytes: 0,
            }),
    {
        DebugWindowMetrics {
            window_id: 0,
            request_redraw_count: 0,
            draw_count: 0,
            present_count: 0,
            skip_count: 0,
            skipped_frame_count: 0,
            surface_reconfigure_count: 0,
            present_error_count: 0,
            layout_recompute_count: 0,
            upload_bytes: 0,
        }
    }
}

/// The newest `limit` elements of `s`, oldest first.
pub open spec fn keep_newest<T>(s: Seq<T>, limit: nat) -> Seq<T> {
    if s.len() > limit {
        s.subrange(s.len() - limit, s.len() as int)
    } else {
        s
    }
}

/// Appends a sample and drops the oldest ones until at most
/// [`HISTORY_LIMIT`] remain.
pub fn push_history<T>(history: &mut VecDeque<T>, value: T)
    ensures
        final(history)@ == keep_newest(old(history)@.push(value), HISTORY_LIMIT as nat),
{
    let ghost full = old(history)@.push(value);
    history.push_back(value);
    proof {
        assert(full.subrange(0, full.len() as int) =~= full);
    }
    while history.len() > HISTORY_LIMIT
        invariant
            history@.len() <= full.len(),
            history@.len() < full.len() ==> history@.len() >= HISTORY_LIMIT,
            history@ == full.subrange(full.len() - history@.len(), full.len() as int),
        decreases history@.len(),
    {
        proof {
            broadcast use vstd::std_specs::vecdeque::axiom_spec_len;
        }
        let ghost before = history@;
        let _ = history.pop_front();
        proof {
            assert(history@ =~= full.subrange(full.len() - history@.len(), full.len() as int));
        }
    }
    proof {
        broadcast use vstd::std_specs::vecdeque::axiom_spec_len;
    }
}

/// Frame and render timing kept for the debug window. Durations and instants
/// are nanoseconds; an instant counts from any fixed origin of the caller's.
pub struct RuntimeMetricsState {
    pub last_main_frame_at_ns: Option<u64>,
    pub main_frame_time_ns: u64,
    pub main_render_time_ns: u64,
    pub frame_time_history_ns: VecDeque<u64>,
    pub render_time_history_ns: VecDeque<u64>,
}

impl RuntimeMetricsState {
    /// Both histories stay within [`HISTORY_LIMIT`].
    pub open spec fn wf(&self) -> bool {
        &&& self.frame_time_history_ns@.len() <= HISTORY_LIMIT
        &&& self.render_time_history_ns@.len() <= HISTORY_LIMIT
    }

    /// The state before any frame was recorded.
    pub open spec fn is_initial(&self) -> bool {
        &&& self.last_main_frame_at_ns is None
        &&& self.main_frame_time_ns == 0
        &&& self.main_render_time_ns == 0
        &&& self.frame_time_history_ns@.len() == 0
        &&& self.render_time_history_ns@.len() == 0
    }

    pub fn new() -> (r: Self)
        ensures
            r.is_initial(),
            r.wf(),
    {
        RuntimeMetricsState {
            last_main_frame_at_ns: None,
            main_frame_time_ns: 0,
            main_render_time_ns: 0,
            frame_time_history_ns: VecDeque::new(),
            render_time_history_ns: VecDeque::new(),
        }
    }
}

impl Default for RuntimeMetricsState {
    fn default() -> (r: Self)
        ensures
            r.is_initial(),
    {
        RuntimeMetricsState::new()
    }
}

/// Whether an interval between two main-window frames is sampled.
pub open spec fn frame_delta_accepted(delta: u64) -> bool {
    FRAME_DELTA_MIN_NS <= delta <= FRAME_DELTA_MAX_NS
}

/// Interval from `earlier` to `now`, zero when `now` is not later.
pub open spec fn saturating_since(now: u64, earlier: u64) -> u64 {
    if now >= earlier {
        (now - earlier) as u64
    } else {
        0
    }
}

/// Records that the main window produced a frame at `now_ns`. Returns the
/// frame interval when it was sampled: there was an earlier frame and the
/// interval lies between one millisecond and one second.
pub fn record_main_window_frame(metrics: &mut RuntimeMetricsState, now_ns: u64) -> (sampled:
    Option<u64>)
    ensures
        old(metrics).wf() ==> final(metrics).wf(),
        final(metrics).last_main_frame_at_ns == Some(now_ns),
        final(metrics).main_render_time_ns == old(metrics).main_render_time_ns,
        final(metrics).render_time_history_ns@ == old(metrics).render_time_history_ns@,
        match old(metrics).last_main_frame_at_ns {
            Some(prev) if frame_delta_accepted(saturating_since(now_ns, prev)) => {
                &&& sampled == Some(saturating_since(now_ns, prev))
                &&& final(metrics).main_frame_time_ns == saturating_since(now_ns, prev)
                &&& final(metrics).frame_time_history_ns@ == keep_newest(
                    old(metrics).frame_time_history_ns@.push(saturating_since(now_ns, prev)),
                    HISTORY_LIMIT as nat,
                )
            },
            _ => {
                &&& sampled is None
                &&& final(metrics).main_frame_time_ns == old(metrics).main_frame_time_ns
                &&& final(metrics).frame_time_history_ns@ == old(
                    metrics,
                ).frame_time_history_ns@
            },
        },
{
    let previous = metrics.last_main_frame_at_ns;
    metrics.last_main_frame_at_ns = Some(now_ns);
    match previous {
        Some(prev) => {
            let delta = if now_ns >= prev {
                now_ns - prev
            } else {
                0
            };
            if delta >= FRAME_DELTA_MIN_NS && delta <= FRAME_DELTA_MAX_NS {
                metrics.main_frame_time_ns = delta;
                push_history(&mut metrics.frame_time_history_ns, delta);
                Some(delta)
            } else {
                None
            }
        },
        None => None,
    }
}

/// Records how long the main window took to render a frame.
pub fn record_main_window_render_finished(metrics: &mut RuntimeMetricsState, render_time_ns: u64)
    ensures
        old(metrics).wf() ==> final(metrics).wf(),
        final(metrics).main_render_time_ns == render_time_ns,
        final(metrics).render_time_history_ns@ == keep_newest(
            old(metrics).render_time_history_ns@.push(render_time_ns),
            HISTORY_LIMIT as nat,
        ),
        final(metrics).last_main_frame_at_ns == old(metrics).last_main_frame_at_ns,
        final(metrics).main_frame_time_ns == old(metrics).main_frame_time_ns,
        final(metrics).frame_time_history_ns@ == old(metrics).frame_time_history_ns@,
{
    metrics.main_render_time_ns = render_time_ns;
    push_history(&mut metrics.render_time_history_ns, render_time_ns);
}

/// Forgets every recorded frame and render sample.
pub fn reset_runtime_metrics(metrics: &mut RuntimeMetricsState)
    ensures
        final(metrics).is_initial(),
        final(metrics).wf(),
{
    *metrics = RuntimeMetricsState::new();
}

/// Pushing into a bounded history never lets it exceed its bound, keeps the
/// new sample as the newest one, and keeps the surviving older samples in the
/// order they had (the result is a suffix of the old samples followed by the
/// new one).
pub proof fn law_history_push_bounded<T>(old_history: Seq<T>, value: T)
    ensures
        keep_newest(old_history.push(value), HISTORY_LIMIT as nat).len() <= HISTORY_LIMIT,
        keep_newest(old_history.push(value), HISTORY_LIMIT as nat).last() == value,
        ({
            let kept = keep_newest(old_history.push(value), HISTORY_LIMIT as nat);
            let k = kept.len() - 1;
            kept.subrange(0, k) == old_history.subrange(old_history.len() - k, old_history.len() as int)
        }),
{
    let full = old_history.push(value);
    let kept = keep_newest(full, HISTORY_LIMIT as nat);
    let k = kept.len() - 1;
    assert(kept.subrange(0, k) =~= old_history.subrange(old_history.len() - k, old_history.len() as int));
}


/// What the element inspector shows about the selected element. The opacity
/// is carried as the bit pattern of the renderer's `f32` value.
pub struct DebugInspectorSnapshot {
    pub enabled: bool,
    pub picking: bool,
    pub selected_label: String,
    pub source_location: String,
    pub bounds_label: String,
    pub content_size_label: String,
    pub background_hex: String,
    pub border_hex: String,
    pub opacity_bits: Option<u32>,
}

impl DebugInspectorSnapshot {
    /// Nothing selected, inspector off.
    pub open spec fn is_empty_snapshot(&self) -> bool {
        &&& !self.enabled
        &&& !self.picking
        &&& self.selected_label@.len() == 0
        &&& self.source_location@.len() == 0
        &&& self.bounds_label@.len() == 0
        &&& self.content_size_label@.len() == 0
        &&& self.background_hex@.len() == 0
        &&& self.border_hex@.len() == 0
        &&& self.opacity_bits is None
    }

    pub fn empty() -> (r: Self)
        ensures
            r.is_empty_snapshot(),
    {
        DebugInspectorSnapshot {
            enabled: false,
            picking: false,
            selected_label: String::new(),
            source_location: String::new(),
            bounds_label: String::new(),
            content_size_label: String::new(),
            background_hex: String::new(),
            border_hex: String::new(),
            opacity_bits: None,
        }
    }

    /// A field-for-field copy.
    pub fn duplicate(&self) -> (r: Self)
        ensures
            r == *self,
    {
        DebugInspectorSnapshot {
            enabled: self.enabled,
            picking: self.picking,
            selected_label: self.selected_label.clone(),
            source_location: self.source_location.clone(),
            bounds_label: self.bounds_label.clone(),
            content_size_label: self.content_size_label.clone(),
            background_hex: self.background_hex.clone(),
            border_hex: self.border_hex.clone(),
            opacity_bits: self.opacity_bits,
        }
    }
}

impl Default for DebugInspectorSnapshot {
    fn default() -> (r: Self)
        ensures
            r.is_empty_snapshot(),
    {
        DebugInspectorSnapshot::empty()
    }
}

/// Whether a newly synchronised inspector selection is added to the history:
/// it names an element, and it differs from the newest entry in label or in
/// source location (or the history is empty).
pub open spec fn should_record_selection(history: Seq<DebugInspectorSnapshot>, inspector: DebugInspectorSnapshot) -> bool {
    &&& inspector.selected_label@.len() > 0
    &&& (history.len() == 0 || history[0].selected_label@ != inspector.selected_label@
        || history[0].source_location@ != inspector.source_location@)
}

/// The oldest entries are dropped from the back until at most `limit` remain.
pub open spec fn keep_front<T>(s: Seq<T>, limit: nat) -> Seq<T> {
    if s.len() > limit {
        s.subrange(0, limit as int)
    } else {
        s
    }
}

/// Debug-window state shared across windows.
pub struct DebugState {
    pub enabled: bool,
    pub main_window_id: Option<u64>,
    pub debug_window_id: Option<u64>,
    pub exe_path: String,
    pub exe_size_bytes: u64,
    pub inspector: DebugInspectorSnapshot,
    pub inspector_history: VecDeque<DebugInspectorSnapshot>,
}

impl Default for DebugState {
    fn default() -> (r: Self)
        ensures
            !r.enabled,
            r.main_window_id is None,
            r.debug_window_id is None,
            r.exe_path@.len() == 0,
            r.exe_size_bytes == 0,
            r.inspector.is_empty_snapshot(),
            r.inspector_history@.len() == 0,
    {
        DebugState {
            enabled: false,
            main_window_id: None,
            debug_window_id: None,
            exe_path: String::new(),
            exe_size_bytes: 0,
            inspector: DebugInspectorSnapshot::empty(),
            inspector_history: VecDeque::new(),
        }
    }
}

impl DebugState {
    /// Clears runtime samples, the current inspector selection and its history.
    pub fn reset_runtime_state(&mut self, metrics: &mut RuntimeMetricsState)
        ensures
            final(metrics).is_initial(),
            final(self).inspector.is_empty_snapshot(),
            final(self).inspector_history@.len() == 0,
            final(self).enabled == old(self).enabled,
            final(self).main_window_id == old(self).main_window_id,
            final(self).debug_window_id == old(self).debug_window_id,
            final(self).exe_path == old(self).exe_path,
            final(self).exe_size_bytes == old(self).exe_size_bytes,
    {
        reset_runtime_metrics(metrics);
        self.inspector = DebugInspectorSnapshot::empty();
        self.inspector_history.clear();
    }

    pub fn clear_inspector_history(&mut self)
        ensures
            final(self).inspector_history@.len() == 0,
            final(self).inspector == old(self).inspector,
            final(self).enabled == old(self).enabled,
            final(self).main_window_id == old(self).main_window_id,
            final(self).debug_window_id == old(self).debug_window_id,
            final(self).exe_path == old(self).exe_path,
            final(self).exe_size_bytes == old(self).exe_size_bytes,
    {
        self.inspector_history.clear();
    }

    /// Makes `inspector` the current selection and, when it names a new
    /// element, remembers it at the front of the history, which keeps at most
    /// [`INSPECTOR_HISTORY_LIMIT`] entries.
    pub fn sync_inspector(&mut self, inspector: DebugInspectorSnapshot)
        ensures
            final(self).inspector == inspector,
            final(self).inspector_history@ == (if should_record_selection(
                old(self).inspector_history@,
                inspector,
            ) {
                keep_front(seq![inspector] + old(self).inspector_history@, INSPECTOR_HISTORY_LIMIT as nat)
            } else {
                old(self).inspector_history@
            }),
            final(self).enabled == old(self).enabled,
            final(self).main_window_id == old(self).main_window_id,
            final(self).debug_window_id == old(self).debug_window_id,
            final(self).exe_path == old(self).exe_path,
            final(self).exe_size_bytes == old(self).exe_size_bytes,
    {
        proof {
            broadcast use vstd::std_specs::vecdeque::axiom_spec_len;
        }
        let differs_from_newest = if self.inspector_history.len() == 0 {
            true
        } else {
            let newest = &self.inspector_history[0];
            !(newest.selected_label == inspector.selected_label)
                || !(newest.source_location == inspector.source_location)
        };
        let should_record = !inspector.selected_label.as_str().is_empty() && differs_from_newest;
        if should_record {
            let ghost full = seq![inspector] + self.inspector_history@;
            self.inspector_history.push_front(inspector.duplicate());
            proof {
                assert(full.subrange(0, full.len() as int) =~= full);
            }
            while self.inspector_history.len() > INSPECTOR_HISTORY_LIMIT
                invariant
                    self.inspector_history@.len() <= full.len(),
                    self.inspector_history@.len() < full.len() ==> self.inspector_history@.len()
                        >= INSPECTOR_HISTORY_LIMIT,
                    self.inspector_history@ == full.subrange(0, self.inspector_history@.len() as int),
                    self.enabled == old(self).enabled,
                    self.main_window_id == old(self).main_window_id,
                    self.debug_window_id == old(self).debug_window_id,
                    self.exe_path == old(self).exe_path,
                    self.exe_size_bytes == old(self).exe_size_bytes,
                decreases self.inspector_history@.len(),
            {
                let _ = self.inspector_history.pop_back();
                proof {
                    assert(self.inspector_history@ =~= full.subrange(0, self.inspector_history@.len() as int));
                }
            }
        }
        self.inspector = inspector;
    }
}

/// Applies the result of re-reading a log tail: a new text replaces the shown
/// one and stamps the time, a successful read clears a shown error, and a
/// failed read shows `"<context>: <error>"` unless that message is already
/// shown. Returns whether anything shown changed.
pub fn apply_log_tail_refresh(
    text: &mut String,
    last_updated: &mut Option<u64>,
    error: &mut Option<String>,
    result: Result<String, String>,
    now_ns: u64,
    error_context: &str,
) -> (changed: bool)
    ensures
        match result {
            Ok(tail) => {
                &&& final(text)@ == tail@
                &&& *final(last_updated) == (if old(text)@ != tail@ {
                    Some(now_ns)
                } else {
                    *old(last_updated)
                })
                &&& *final(error) is None
                &&& changed == (old(text)@ != tail@ || *old(error) is Some)
            },
            Err(read_error) => {
                let message = error_context@ + ": "@ + read_error@;
                &&& *final(text) == *old(text)
                &&& *final(last_updated) == *old(last_updated)
                &&& changed == (*old(error) is None || old(error).unwrap()@ != message)
                &&& *final(error) is Some
                &&& final(error).unwrap()@ == (if changed {
                    message
                } else {
                    old(error).unwrap()@
                })
            },
        },
{
    let mut changed = false;
    match result {
        Ok(tail) => {
            let same = *text == tail;
            if !same {
                *text = tail;
                *last_updated = Some(now_ns);
                changed = true;
            } else {
                *text = tail;
            }
            if error.is_some() {
                *error = None;
                changed = true;
            }
        },
        Err(read_error) => {
            let mut message = String::from_str(error_context);
            message.append(": ");
            message.append(read_error.as_str());
            let differs = match error {
                None => true,
                Some(current) => !(*current == message),
            };
            if differs {
                *error = Some(message);
                changed = true;
            }
        },
    }
    changed
}

} // verus!