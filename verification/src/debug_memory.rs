//! Memory attribution shown by the debug window: the estimated components
//! ordered from largest to smallest, ties broken by their label.

use vstd::prelude::*;

verus! {

/// One line of the memory attribution summary.
#[derive(Clone, Copy, Debug, PartialEq, Eq, Structural)]
pub enum MemoryComponent {
    AllocatorReserved,
    GpuRetained,
    ImageAssetRetained,
    GlobalImageAssets,
    AtlasRetained,
    UnifiedEstimate,
    MapViewerEstimate,
    PluginsEstimate,
}

pub open spec fn spec_memory_component_label(c: MemoryComponent) -> Seq<char> {
    match c {
        MemoryComponent::AllocatorReserved => "GPUI allocator reserved"@,
        MemoryComponent::GpuRetained => "GPUI GPU retained"@,
        MemoryComponent::ImageAssetRetained => "GPUI image asset retained"@,
        MemoryComponent::GlobalImageAssets => "GPUI global image assets"@,
        MemoryComponent::AtlasRetained => "GPUI atlas retained"@,
        MemoryComponent::UnifiedEstimate => "GPUI unified estimate"@,
        MemoryComponent::MapViewerEstimate => "BMCBL map viewer estimate"@,
        MemoryComponent::PluginsEstimate => "Plugins estimate"@,
    }
}

pub fn memory_component_label(c: MemoryComponent) -> (r: &'static str)
    ensures
        r@ == spec_memory_component_label(c),
{
    match c {
        MemoryComponent::AllocatorReserved => "GPUI allocator reserved",
        MemoryComponent::GpuRetained => "GPUI GPU retained",
        MemoryComponent::ImageAssetRetained => "GPUI image asset retained",
        MemoryComponent::GlobalImageAssets => "GPUI global image assets",
        MemoryComponent::AtlasRetained => "GPUI atlas retained",
        MemoryComponent::UnifiedEstimate => "GPUI unified estimate",
        MemoryComponent::MapViewerEstimate => "BMCBL map viewer estimate",
        MemoryComponent::PluginsEstimate => "Plugins estimate",
    }
}

/// Position of a component's label in the lexicographic order of all labels.
pub open spec fn spec_label_rank(c: MemoryComponent) -> int {
    match c {
        MemoryComponent::MapViewerEstimate => 0,
        MemoryComponent::GpuRetained => 1,
        MemoryComponent::AllocatorReserved => 2,
        MemoryComponent::AtlasRetained => 3,
        MemoryComponent::GlobalImageAssets => 4,
        MemoryComponent::ImageAssetRetained => 5,
        MemoryComponent::UnifiedEstimate => 6,
        MemoryComponent::PluginsEstimate => 7,
    }
}

fn label_rank(c: MemoryComponent) -> (r: u8)
    ensures
        r == spec_label_rank(c),
{
    match c {
        MemoryComponent::MapViewerEstimate => 0,
        MemoryComponent::GpuRetained => 1,
        MemoryComponent::AllocatorReserved => 2,
        MemoryComponent::AtlasRetained => 3,
        MemoryComponent::GlobalImageAssets => 4,
        MemoryComponent::ImageAssetRetained => 5,
        MemoryComponent::UnifiedEstimate => 6,
        MemoryComponent::PluginsEstimate => 7,
    }
}

/// Byte-wise (code point) lexicographic order on text, as `str` compares.
pub open spec fn text_lt(a: Seq<char>, b: Seq<char>) -> bool
    decreases a.len(),
{
    if b.len() == 0 {
        false
    } else if a.len() == 0 {
        true
    } else if a[0] != b[0] {
        (a[0] as u32) < (b[0] as u32)
    } else {
        text_lt(a.drop_first(), b.drop_first())
    }
}

/// The counters that the summary attributes memory to.
#[derive(Clone, Copy, Debug)]
pub struct MemoryAttributionInputs {
    pub gpui_allocator_reserved_bytes: usize,
    pub gpui_gpu_retained_bytes: usize,
    pub gpui_image_asset_total_retained_decoded_bytes: usize,
    pub gpui_global_image_resource_decoded_bytes: usize,
    pub gpui_global_image_inline_decoded_bytes: usize,
    pub gpui_global_image_compressed_bytes: usize,
    pub gpui_global_image_target_decoded_bytes: usize,
    pub gpui_atlas_retained_bytes: usize,
    pub gpui_gpu_estimated_total_retained_bytes: usize,
    pub map_viewer_estimated_bytes: usize,
    pub plugin_estimated_bytes: usize,
}

pub open spec fn sat_usize(v: int) -> usize {
    if v > usize::MAX {
        usize::MAX
    } else {
        v as usize
    }
}

/// The global image assets line adds its four counters, saturating.
pub open spec fn global_image_bytes(m: MemoryAttributionInputs) -> usize {
    sat_usize(
        sat_usize(
            sat_usize(
                m.gpui_global_image_resource_decoded_bytes
                    + m.gpui_global_image_inline_decoded_bytes,
            ) + m.gpui_global_image_compressed_bytes,
        ) + m.gpui_global_image_target_decoded_bytes,
    )
}

/// The components in the order the summary lists them before sorting.
pub open spec fn memory_components(m: MemoryAttributionInputs) -> Seq<(MemoryComponent, usize)> {
    seq![
        (MemoryComponent::AllocatorReserved, m.gpui_allocator_reserved_bytes),
        (MemoryComponent::GpuRetained, m.gpui_gpu_retained_bytes),
        (MemoryComponent::ImageAssetRetained, m.gpui_image_asset_total_retained_decoded_bytes),
        (MemoryComponent::GlobalImageAssets, global_image_bytes(m)),
        (MemoryComponent::AtlasRetained, m.gpui_atlas_retained_bytes),
        (MemoryComponent::UnifiedEstimate, m.gpui_gpu_estimated_total_retained_bytes),
        (MemoryComponent::MapViewerEstimate, m.map_viewer_estimated_bytes),
        (MemoryComponent::PluginsEstimate, m.plugin_estimated_bytes),
    ]
}

/// Larger byte counts come first; equal counts follow their labels' order.
pub open spec fn listed_before(a: (MemoryComponent, usize), b: (MemoryComponent, usize)) -> bool {
    a.1 > b.1 || (a.1 == b.1 && spec_label_rank(a.0) <= spec_label_rank(b.0))
}

pub open spec fn listed_in_order(s: Seq<(MemoryComponent, usize)>) -> bool {
    forall|i: int, j: int| 0 <= i < j < s.len() ==> listed_before(s[i], s[j])
}

fn goes_before(a: (MemoryComponent, usize), b: (MemoryComponent, usize)) -> (r: bool)
    ensures
        r == listed_before(a, b),
{
    a.1 > b.1 || (a.1 == b.1 && label_rank(a.0) <= label_rank(b.0))
}

fn memory_component_list(m: &MemoryAttributionInputs) -> (r: Vec<(MemoryComponent, usize)>)
    ensures
        r@ == memory_components(*m),
{
    let global = m.gpui_global_image_resource_decoded_bytes.saturating_add(
        m.gpui_global_image_inline_decoded_bytes,
    ).saturating_add(m.gpui_global_image_compressed_bytes).saturating_add(
        m.gpui_global_image_target_decoded_bytes,
    );
    let r = vec![
        (MemoryComponent::AllocatorReserved, m.gpui_allocator_reserved_bytes),
        (MemoryComponent::GpuRetained, m.gpui_gpu_retained_bytes),
        (MemoryComponent::ImageAssetRetained, m.gpui_image_asset_total_retained_decoded_bytes),
        (MemoryComponent::GlobalImageAssets, global),
        (MemoryComponent::AtlasRetained, m.gpui_atlas_retained_bytes),
        (MemoryComponent::UnifiedEstimate, m.gpui_gpu_estimated_total_retained_bytes),
        (MemoryComponent::MapViewerEstimate, m.map_viewer_estimated_bytes),
        (MemoryComponent::PluginsEstimate, m.plugin_estimated_bytes),
    ];
    proof {
        assert(r@ =~= memory_components(*m));
    }
    r
}

/// Inserts `item` into an ordered list, after every entry listed before it.
fn insert_in_order(out: &mut Vec<(MemoryComponent, usize)>, item: (MemoryComponent, usize))
    requires
        listed_in_order(old(out)@),
        old(out)@.len() < usize::MAX,
    ensures
        listed_in_order(final(out)@),
        final(out)@.len() == old(out)@.len() + 1,
        final(out)@.to_multiset() == old(out)@.to_multiset().insert(item),
{
    let mut pos: usize = 0;
    while pos < out.len() && goes_before(out[pos], item)
        invariant
            pos <= out@.len(),
            forall|k: int| 0 <= k < pos ==> listed_before(#[trigger] out@[k], item),
        decreases out@.len() - pos,
    {
        pos = pos + 1;
    }
    let ghost before = out@;
    proof {
        assert forall|k: int| pos <= k < before.len() implies listed_before(
            item,
            #[trigger] before[k],
        ) by {
            if k > pos {
                assert(listed_before(before[pos as int], before[k]));
            }
        }
        vstd::seq_lib::to_multiset_insert(before, pos as int, item);
    }
    out.insert(pos, item);
    proof {
        let s = out@;
        assert(s =~= before.insert(pos as int, item));
        assert forall|i: int, j: int| 0 <= i < j < s.len() implies listed_before(s[i], s[j]) by {
            if j < pos {
                assert(s[i] == before[i] && s[j] == before[j]);
            } else if j == pos {
                assert(s[i] == before[i]);
            } else if i == pos {
                assert(s[j] == before[j - 1]);
            } else if i < pos {
                assert(s[i] == before[i] && s[j] == before[j - 1]);
                assert(listed_before(before[i], item));
                assert(listed_before(item, before[j - 1]));
            } else {
                assert(s[i] == before[i - 1] && s[j] == before[j - 1]);
            }
        }
    }
}

/// The memory attribution entries, largest first; entries of equal size
/// follow their labels' lexicographic order.
pub fn memory_attribution_entries(m: &MemoryAttributionInputs) -> (r: Vec<(MemoryComponent, usize)>)
    ensures
        listed_in_order(r@),
        r@.to_multiset() == memory_components(*m).to_multiset(),
        forall|i: int| 0 <= i < r@.len() ==> #[trigger] r@[i].1 == counter_of(*m, r@[i].0),
        forall|c: MemoryComponent| #[trigger] lists_component(r@, c),
{
    let items = memory_component_list(m);
    let mut out: Vec<(MemoryComponent, usize)> = Vec::new();
    let mut i: usize = 0;
    proof {
        assert(items@.take(0) =~= out@);
    }
    while i < items.len()
        invariant
            i <= items@.len(),
            items@.len() == 8,
            items@ == memory_components(*m),
            out@.len() == i,
            listed_in_order(out@),
            out@.to_multiset() == items@.take(i as int).to_multiset(),
        decreases items@.len() - i,
    {
        proof {
            assert(items@.take(i + 1) =~= items@.take(i as int).push(items@[i as int]));
            vstd::seq_lib::to_multiset_build(items@.take(i as int), items@[i as int]);
        }
        insert_in_order(&mut out, items[i]);
        i = i + 1;
    }
    proof {
        assert(items@.take(i as int) =~= items@);
        law_each_entry_carries_its_counter(*m, out@);
    }
    out
}

proof fn lemma_text_lt_irreflexive(a: Seq<char>)
    ensures
        !text_lt(a, a),
    decreases a.len(),
{
    if a.len() > 0 {
        lemma_text_lt_irreflexive(a.drop_first());
    }
}

/// Lines joined by newlines.
pub open spec fn join_lines(lines: Seq<Seq<char>>) -> Seq<char>
    decreases lines.len(),
{
    if lines.len() == 0 {
        Seq::empty()
    } else if lines.len() == 1 {
        lines[0]
    } else {
        join_lines(lines.drop_last()) + "\n"@ + lines.last()
    }
}

pub open spec fn string_views(lines: Seq<String>) -> Seq<Seq<char>> {
    lines.map_values(|l: String| l@)
}

/// The plugin section lists at most this many plugins.
pub const PLUGIN_SUMMARY_LIMIT: usize = 8;

pub open spec fn spec_plugin_memory_summary(lines: Seq<String>) -> Seq<char> {
    if lines.len() == 0 {
        "No plugins loaded"@
    } else {
        join_lines(string_views(lines.take(if lines.len() < 8 { lines.len() as int } else { 8 })))
    }
}

/// The plugin section of the memory panel, from one line per loaded plugin
/// in report order: the first eight lines, or a notice when none is loaded.
pub fn plugin_memory_summary(lines: &Vec<String>) -> (r: String)
    ensures
        r@ == spec_plugin_memory_summary(lines@),
{
    if lines.len() == 0 {
        return "No plugins loaded".to_string();
    }
    let n: usize = if lines.len() < PLUGIN_SUMMARY_LIMIT { lines.len() } else { PLUGIN_SUMMARY_LIMIT };
    let ghost shown = string_views(lines@.take(n as int));
    let mut out = String::new();
    let mut i: usize = 0;
    while i < n
        invariant
            i <= n,
            n <= lines@.len(),
            shown == string_views(lines@.take(n as int)),
            out@ == join_lines(shown.take(i as int)),
        decreases n - i,
    {
        proof {
            assert(shown.take(i + 1).drop_last() =~= shown.take(i as int));
            assert(shown.take(i + 1).last() == lines@[i as int]@);
        }
        if i > 0 {
            out.append("\n");
        } else {
            proof {
                assert(shown.take(1).len() == 1);
            }
        }
        out.append(lines[i].as_str());
        i = i + 1;
    }
    proof {
        assert(shown.take(n as int) =~= shown);
    }
    out
}

/// Ranks follow the labels' lexicographic order, so the tie-break by rank
/// is the tie-break by label.
pub proof fn law_rank_orders_labels(a: MemoryComponent, b: MemoryComponent)
    ensures
        spec_label_rank(a) < spec_label_rank(b) <==> text_lt(
            spec_memory_component_label(a),
            spec_memory_component_label(b),
        ),
{
    reveal_strlit("GPUI allocator reserved");
    reveal_strlit("GPUI GPU retained");
    reveal_strlit("GPUI image asset retained");
    reveal_strlit("GPUI global image assets");
    reveal_strlit("GPUI atlas retained");
    reveal_strlit("GPUI unified estimate");
    reveal_strlit("BMCBL map viewer estimate");
    reveal_strlit("Plugins estimate");
    lemma_text_lt_irreflexive(spec_memory_component_label(a));
    reveal_with_fuel(text_lt, 10);
    match a {
        MemoryComponent::AllocatorReserved => {},
        MemoryComponent::GpuRetained => {},
        MemoryComponent::ImageAssetRetained => {},
        MemoryComponent::GlobalImageAssets => {},
        MemoryComponent::AtlasRetained => {},
        MemoryComponent::UnifiedEstimate => {},
        MemoryComponent::MapViewerEstimate => {},
        MemoryComponent::PluginsEstimate => {},
    }
}

/// The counter each component reports: its own field, and for the global
/// image assets the total of their four counters, capped at `usize::MAX`.
pub open spec fn counter_of(m: MemoryAttributionInputs, c: MemoryComponent) -> int {
    match c {
        MemoryComponent::AllocatorReserved => m.gpui_allocator_reserved_bytes as int,
        MemoryComponent::GpuRetained => m.gpui_gpu_retained_bytes as int,
        MemoryComponent::ImageAssetRetained => m.gpui_image_asset_total_retained_decoded_bytes as int,
        MemoryComponent::GlobalImageAssets => {
            let total = m.gpui_global_image_resource_decoded_bytes + m.gpui_global_image_inline_decoded_bytes
                + m.gpui_global_image_compressed_bytes + m.gpui_global_image_target_decoded_bytes;
            if total > usize::MAX { usize::MAX as int } else { total }
        },
        MemoryComponent::AtlasRetained => m.gpui_atlas_retained_bytes as int,
        MemoryComponent::UnifiedEstimate => m.gpui_gpu_estimated_total_retained_bytes as int,
        MemoryComponent::MapViewerEstimate => m.map_viewer_estimated_bytes as int,
        MemoryComponent::PluginsEstimate => m.plugin_estimated_bytes as int,
    }
}

/// Whether some entry is for component `c`.
pub open spec fn lists_component(entries: Seq<(MemoryComponent, usize)>, c: MemoryComponent) -> bool {
    exists|i: int| 0 <= i < entries.len() && #[trigger] entries[i].0 == c
}

/// Whatever the counters, the attribution entries (as
/// `memory_attribution_entries` returns them, in any order) list every
/// component, and each entry carries its own component's counter: the atlas
/// entry the atlas bytes, the plugins entry the plugins estimate, and so on.
pub proof fn law_each_entry_carries_its_counter(m: MemoryAttributionInputs, entries: Seq<(MemoryComponent, usize)>)
    requires
        entries.to_multiset() == memory_components(m).to_multiset(),
    ensures
        forall|i: int| 0 <= i < entries.len() ==> #[trigger] entries[i].1 == counter_of(m, entries[i].0),
        forall|c: MemoryComponent| #[trigger] lists_component(entries, c),
{
    broadcast use vstd::seq_lib::group_to_multiset_ensures;

    let comps = memory_components(m);
    let r = m.gpui_global_image_resource_decoded_bytes as int;
    let n = m.gpui_global_image_inline_decoded_bytes as int;
    let c2 = m.gpui_global_image_compressed_bytes as int;
    let t = m.gpui_global_image_target_decoded_bytes as int;
    assert(global_image_bytes(m) as int == counter_of(m, MemoryComponent::GlobalImageAssets));
    assert forall|i: int| 0 <= i < entries.len() implies #[trigger] entries[i].1 == counter_of(m, entries[i].0) by {
        assert(entries.contains(entries[i]));
        assert(entries.to_multiset().count(entries[i]) > 0);
        assert(comps.contains(entries[i]));
        let j = choose|j: int| 0 <= j < comps.len() && comps[j] == entries[i];
        assert(0 <= j < 8);
    }
    assert forall|c: MemoryComponent| #[trigger] lists_component(entries, c) by {
        let j: int = match c {
            MemoryComponent::AllocatorReserved => 0,
            MemoryComponent::GpuRetained => 1,
            MemoryComponent::ImageAssetRetained => 2,
            MemoryComponent::GlobalImageAssets => 3,
            MemoryComponent::AtlasRetained => 4,
            MemoryComponent::UnifiedEstimate => 5,
            MemoryComponent::MapViewerEstimate => 6,
            MemoryComponent::PluginsEstimate => 7,
        };
        assert(comps[j].0 == c);
        assert(comps.contains(comps[j]));
        assert(comps.to_multiset().count(comps[j]) > 0);
        assert(entries.contains(comps[j]));
        let i = choose|i: int| 0 <= i < entries.len() && entries[i] == comps[j];
        assert(entries[i].0 == c);
    }
}

} // verus!
