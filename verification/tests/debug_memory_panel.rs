use bmcbl_windows::debug_memory::{
    memory_attribution_entries, memory_component_label, plugin_memory_summary, MemoryAttributionInputs,
    MemoryComponent,
};

fn inputs() -> MemoryAttributionInputs {
    MemoryAttributionInputs {
        gpui_allocator_reserved_bytes: 500,
        gpui_gpu_retained_bytes: 100,
        gpui_image_asset_total_retained_decoded_bytes: 100,
        gpui_global_image_resource_decoded_bytes: 10,
        gpui_global_image_inline_decoded_bytes: 20,
        gpui_global_image_compressed_bytes: 30,
        gpui_global_image_target_decoded_bytes: 40,
        gpui_atlas_retained_bytes: 0,
        gpui_gpu_estimated_total_retained_bytes: 900,
        map_viewer_estimated_bytes: 100,
        plugin_estimated_bytes: 0,
    }
}

#[test]
fn memory_attribution_lists_largest_first_then_by_label() {
    let entries = memory_attribution_entries(&inputs());
    let kinds: Vec<MemoryComponent> = entries.iter().map(|e| e.0).collect();
    assert_eq!(
        kinds,
        vec![
            MemoryComponent::UnifiedEstimate,
            MemoryComponent::AllocatorReserved,
            MemoryComponent::MapViewerEstimate,
            MemoryComponent::GpuRetained,
            MemoryComponent::GlobalImageAssets,
            MemoryComponent::ImageAssetRetained,
            MemoryComponent::AtlasRetained,
            MemoryComponent::PluginsEstimate,
        ]
    );
    assert_eq!(entries[5].1, 100);
    assert_eq!(entries[0].1, 900);
}

#[test]
fn global_image_assets_saturate() {
    let mut m = inputs();
    m.gpui_global_image_resource_decoded_bytes = usize::MAX;
    let entries = memory_attribution_entries(&m);
    assert_eq!(entries[0], (MemoryComponent::GlobalImageAssets, usize::MAX));
}

#[test]
fn equal_sizes_follow_label_text_order() {
    let all = [
        MemoryComponent::AllocatorReserved,
        MemoryComponent::GpuRetained,
        MemoryComponent::ImageAssetRetained,
        MemoryComponent::GlobalImageAssets,
        MemoryComponent::AtlasRetained,
        MemoryComponent::UnifiedEstimate,
        MemoryComponent::MapViewerEstimate,
        MemoryComponent::PluginsEstimate,
    ];
    let m = MemoryAttributionInputs {
        gpui_allocator_reserved_bytes: 7,
        gpui_gpu_retained_bytes: 7,
        gpui_image_asset_total_retained_decoded_bytes: 7,
        gpui_global_image_resource_decoded_bytes: 7,
        gpui_global_image_inline_decoded_bytes: 0,
        gpui_global_image_compressed_bytes: 0,
        gpui_global_image_target_decoded_bytes: 0,
        gpui_atlas_retained_bytes: 7,
        gpui_gpu_estimated_total_retained_bytes: 7,
        map_viewer_estimated_bytes: 7,
        plugin_estimated_bytes: 7,
    };
    let entries = memory_attribution_entries(&m);
    let labels: Vec<&str> = entries.iter().map(|e| memory_component_label(e.0)).collect();
    let mut sorted: Vec<&str> = all.iter().map(|c| memory_component_label(*c)).collect();
    sorted.sort();
    assert_eq!(labels, sorted);
    assert_eq!(labels[0], "BMCBL map viewer estimate");
}

#[test]
fn plugin_summary_without_plugins() {
    assert_eq!(plugin_memory_summary(&Vec::new()), "No plugins loaded");
}

#[test]
fn plugin_summary_keeps_first_eight_lines() {
    let lines: Vec<String> = (0..10).map(|i| format!("plugin {i}")).collect();
    let summary = plugin_memory_summary(&lines);
    assert_eq!(summary.lines().count(), 8);
    assert!(summary.starts_with("plugin 0\nplugin 1\n"));
    assert!(summary.ends_with("plugin 7"));
    assert_eq!(plugin_memory_summary(&vec!["only".to_string()]), "only");
}
