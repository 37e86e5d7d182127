//! The decisions of the exact 3D preview loader: starting a load for the
//! selection, taking the chunks it streams back, and its completion. Each
//! load has a generation; events of an older load are ignored.

use crate::text::{append_decimal, spec_decimal};
use vstd::prelude::*;

verus! {

/// The exact preview's loading state and the status line it writes.
pub struct ExactPreviewLoad {
    /// Whether the preview shows the map selection (rather than another
    /// source).
    pub source_is_selection: bool,
    pub generation: u64,
    /// The phase and detail shown while a load runs; `None` when idle.
    pub loading: Option<(String, String)>,
    /// Whether a (partial) mesh is shown.
    pub has_mesh: bool,
    pub render_in_flight: bool,
    /// Whether a cancel handle is held for the running load.
    pub cancel_held: bool,
    pub status: String,
}

/// What the selection offers to load: nothing selected, a selection the
/// renderer refused as an exact selection, or this many chunks.
#[derive(Clone, Copy, Debug, PartialEq, Eq, Structural)]
pub enum ExactSelectionInput {
    NoSelection,
    Refused,
    Chunks(usize),
}

/// What a request to load the exact preview leads to.
#[derive(Clone, Copy, Debug, PartialEq, Eq, Structural)]
pub enum ExactPreviewStart {
    NoSelection,
    NoLoadableChunks,
    /// A load with this generation starts; the load running before it, if
    /// any, is to be cancelled.
    Started { generation: u64, cancel_previous: bool },
}

pub open spec fn loading_view(l: Option<(String, String)>) -> Option<(Seq<char>, Seq<char>)> {
    match l {
        Some((p, d)) => Some((p@, d@)),
        None => None,
    }
}

pub open spec fn sat_inc(g: u64) -> u64 {
    if g == u64::MAX {
        g
    } else {
        (g + 1) as u64
    }
}

impl ExactPreviewLoad {
    /// Starts loading the exact preview of the selection, which becomes the
    /// preview's source whatever follows. Without a loadable
    /// selection the preview drops its mesh and the status says why.
    /// Otherwise a new generation starts, the previous load is cancelled,
    /// the mesh is dropped, and the preview shows that it prepares the
    /// selection's chunks.
    pub fn begin_exact_preview(&mut self, selection: ExactSelectionInput) -> (r: ExactPreviewStart)
        ensures
            final(self).source_is_selection,
            match selection {
                ExactSelectionInput::NoSelection => r == ExactPreviewStart::NoSelection
                    && !final(self).has_mesh && final(self).generation == old(self).generation
                    && final(self).status@ == "请先选择 chunk 范围"@,
                ExactSelectionInput::Refused => r == ExactPreviewStart::NoLoadableChunks
                    && !final(self).has_mesh && final(self).generation == old(self).generation
                    && final(self).status@ == "当前选区没有可加载的 chunk"@,
                ExactSelectionInput::Chunks(n) => {
                    &&& r == ExactPreviewStart::Started {
                        generation: sat_inc(old(self).generation),
                        cancel_previous: old(self).cancel_held,
                    }
                    &&& final(self).generation == sat_inc(old(self).generation)
                    &&& loading_view(final(self).loading) == Some(
                        ("准备精确选区"@, spec_decimal(n as nat) + " chunks"@),
                    )
                    &&& !final(self).has_mesh
                    &&& final(self).render_in_flight
                    &&& final(self).cancel_held
                    &&& final(self).status@ == "正在加载精确 3D 预览 · "@ + spec_decimal(n as nat)
                        + " chunks..."@
                },
            },
    {
        self.source_is_selection = true;
        match selection {
            ExactSelectionInput::NoSelection => {
                self.has_mesh = false;
                self.status = String::from_str("请先选择 chunk 范围");
                ExactPreviewStart::NoSelection
            },
            ExactSelectionInput::Refused => {
                self.has_mesh = false;
                self.status = String::from_str("当前选区没有可加载的 chunk");
                ExactPreviewStart::NoLoadableChunks
            },
            ExactSelectionInput::Chunks(n) => {
                self.generation = if self.generation == u64::MAX {
                    self.generation
                } else {
                    self.generation + 1
                };
                let cancel_previous = self.cancel_held;
                let mut detail = String::new();
                append_decimal(&mut detail, n as u64);
                detail.append(" chunks");
                self.loading = Some((String::from_str("准备精确选区"), detail));
                self.has_mesh = false;
                self.render_in_flight = true;
                self.cancel_held = true;
                let mut status = String::from_str("正在加载精确 3D 预览 · ");
                append_decimal(&mut status, n as u64);
                status.append(" chunks...");
                self.status = status;
                ExactPreviewStart::Started { generation: self.generation, cancel_previous }
            },
        }
    }

    /// Takes a partial mesh streamed by the load of `generation` with its
    /// build phase and detail. Events of another generation change nothing.
    /// Returns whether the event was taken.
    pub fn apply_exact_preview_chunk(&mut self, generation: u64, phase: &str, detail: &str) -> (taken: bool)
        ensures
            taken == (generation == old(self).generation),
            !taken ==> *final(self) == *old(self),
            taken ==> {
                &&& final(self).generation == old(self).generation
                &&& final(self).has_mesh
                &&& loading_view(final(self).loading) == Some((phase@, detail@))
                &&& final(self).render_in_flight == old(self).render_in_flight
                &&& final(self).cancel_held == old(self).cancel_held
                &&& final(self).status@ == "正在拼接精确 3D 预览: "@ + phase@ + " "@ + detail@
            },
    {
        if generation != self.generation {
            return false;
        }
        self.has_mesh = true;
        self.loading = Some((String::from_str(phase), String::from_str(detail)));
        let mut status = String::from_str("正在拼接精确 3D 预览: ");
        status.append(phase);
        status.append(" ");
        status.append(detail);
        self.status = status;
        true
    }

    /// The load of `generation` completed: the cancel handle is released.
    /// Returns whether the completion belongs to the current load (only then
    /// is its result shown).
    pub fn complete_exact_preview(&mut self, generation: u64) -> (current: bool)
        ensures
            current == (generation == old(self).generation),
            !current ==> *final(self) == *old(self),
            current ==> !final(self).cancel_held && final(self).generation == old(self).generation
                && final(self).has_mesh == old(self).has_mesh && final(self).status == old(self).status,
    {
        if generation != self.generation {
            return false;
        }
        self.cancel_held = false;
        true
    }
}

} // verus!
