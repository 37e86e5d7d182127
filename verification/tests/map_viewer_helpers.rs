use bmcbl_windows::map_viewer::helpers::{
    compact_gpu_name, context_menu_chunk, default_interactive_render_backend, default_interactive_render_gpu_backend,
    gpu_status_text, localize_gpu_reason, manifest_probe_worker_count, nbt_i32, parse_i32_input,
    render_backend_label, render_cpu_chunk_batch_size, render_gpu_backend_label_zh, render_gpu_backend_status_zh,
    render_memory_budget_bytes, render_staging_pool_bytes, resolved_backend_label_zh, tile_cache_memory_limit,
    tile_count_for_viewport, ui_tile_memory_budget_bytes, viewer_mode_from_render_mode, visible_render_batch_size,
    SystemMemoryCache, SYSTEM_MEMORY_CACHE_TTL_MS,
};
use bmcbl_windows::map_viewer::helpers_stable;
use bmcbl_windows::map_viewer::model::{
    ChunkPos, ContextMenuState, Dimension, NbtNumber, RenderBackend, RenderCpuBudget, RenderGpuBackend, RenderMode,
    RenderPipelineStats, RenderTuning, ResolvedRenderBackend, ViewerMode,
};

fn tuning() -> RenderTuning {
    RenderTuning {
        default_tile_size: 256,
        retain_radius: 2,
        chunks_per_tile: 16,
        tile_manifest_probe_max_workers: 4,
        min_ui_tile_memory_budget_bytes: 1_000,
        overview_visible_tile_threshold: 100,
        overview_visible_batch_limit: 24,
        drag_visible_batch_limit: 6,
        overview_first_visible_batch_limit: 48,
        first_visible_batch_limit: 12,
        min_render_memory_budget_bytes: 1 << 20,
        max_render_memory_budget_bytes: 1 << 30,
        min_render_staging_pool_bytes: 1 << 16,
        max_render_staging_pool_bytes: 1 << 24,
    }
}

fn budget(threads: usize, tile_batch: usize) -> RenderCpuBudget {
    RenderCpuBudget { threads, tile_batch }
}

#[test]
fn backend_labels() {
    assert_eq!(render_backend_label(RenderBackend::Cpu, RenderGpuBackend::Vulkan), "CPU");
    assert_eq!(render_backend_label(RenderBackend::Auto, RenderGpuBackend::Dx12), "Auto GPU");
    assert_eq!(render_backend_label(RenderBackend::Wgpu, RenderGpuBackend::Auto), "Nova Auto");
    assert_eq!(render_backend_label(RenderBackend::Wgpu, RenderGpuBackend::Vulkan), "Vulkan");
    assert_eq!(default_interactive_render_backend(), RenderBackend::Auto);
    assert_eq!(default_interactive_render_gpu_backend(), RenderGpuBackend::Auto);
    assert_eq!(render_gpu_backend_label_zh(RenderGpuBackend::Auto), "自动");
    assert_eq!(resolved_backend_label_zh(ResolvedRenderBackend::Mixed), "混合");
    assert_eq!(resolved_backend_label_zh(ResolvedRenderBackend::WgpuDx12), "DX12");
}

#[test]
fn worker_and_cache_sizes_are_clamped() {
    assert_eq!(render_cpu_chunk_batch_size(0), 4);
    assert_eq!(render_cpu_chunk_batch_size(3), 12);
    assert_eq!(render_cpu_chunk_batch_size(100), 32);
    assert_eq!(render_cpu_chunk_batch_size(usize::MAX), 32);
    let t = tuning();
    assert_eq!(manifest_probe_worker_count(budget(0, 1), &t), 1);
    assert_eq!(manifest_probe_worker_count(budget(3, 1), &t), 3);
    assert_eq!(manifest_probe_worker_count(budget(10, 1), &t), 4);
    assert_eq!(tile_cache_memory_limit(budget(0, 1)), 64);
    assert_eq!(tile_cache_memory_limit(budget(3, 1)), 192);
    assert_eq!(tile_cache_memory_limit(budget(100, 1)), 512);
}

#[test]
fn viewport_tile_counts_include_the_margin() {
    assert_eq!(tile_count_for_viewport(4, 3, 2), Some(56));
    assert_eq!(tile_count_for_viewport(4, 3, -1), Some(12));
    assert_eq!(tile_count_for_viewport(usize::MAX, 2, 1), Some(usize::MAX));
}

#[test]
fn ui_tile_memory_budget_takes_the_largest() {
    let t = tuning();
    assert_eq!(ui_tile_memory_budget_bytes(Some(10), 3_200, &t), 10 * 256 * 256 * 4);
    assert_eq!(ui_tile_memory_budget_bytes(None, 0, &t), 16 * 256 * 256 * 4);
    assert_eq!(ui_tile_memory_budget_bytes(Some(0), 3_200_000_000, &t), 100_000_000);
    let mut tiny = t;
    tiny.default_tile_size = 0;
    assert_eq!(ui_tile_memory_budget_bytes(Some(3), 64, &tiny), 1_000);
}

#[test]
fn visible_batch_size_rules() {
    let t = tuning();
    assert_eq!(visible_render_batch_size(0, 10, false, false, &t), 1);
    assert_eq!(visible_render_batch_size(8, 150, false, false, &t), 24);
    assert_eq!(visible_render_batch_size(8, 150, true, false, &t), 6);
    assert_eq!(visible_render_batch_size(8, 150, true, true, &t), 48);
    assert_eq!(visible_render_batch_size(8, 10, false, true, &t), 12);
    assert_eq!(visible_render_batch_size(30, 10, false, true, &t), 30);
}

#[test]
fn render_memory_budget_rules() {
    let t = tuning();
    let per_tile: u64 = 256 * 256 * 8;
    assert_eq!(render_memory_budget_bytes(10, budget(4, 8), 0, &t), per_tile * 8);
    assert_eq!(render_memory_budget_bytes(0, budget(2, 8), 0, &t), per_tile * 2);
    assert_eq!(render_memory_budget_bytes(0, budget(0, 0), 0, &t), 1 << 20);
    assert_eq!(render_memory_budget_bytes(0, budget(1, 1), 8 << 30, &t), 1 << 30);
    assert_eq!(render_memory_budget_bytes(0, budget(1, 1), 80 << 20, &t), 10 << 20);
}

#[test]
fn staging_pool_rules() {
    let t = tuning();
    let per_tile = 256 * 256 * 4;
    assert_eq!(render_staging_pool_bytes(1, budget(4, 1), &t), per_tile * 4);
    assert_eq!(render_staging_pool_bytes(100, budget(4, 1), &t), per_tile * 8);
    assert_eq!(render_staging_pool_bytes(0, budget(0, 1), &t), 1 << 16);
    assert_eq!(render_staging_pool_bytes(1000, budget(1000, 1), &t), 1 << 24);
}

fn stats() -> RenderPipelineStats {
    RenderPipelineStats {
        gpu_tiles: 0,
        gpu_fallback_reason: None,
        resolved_backend: ResolvedRenderBackend::Cpu,
        gpu_dispatch_ms: 0,
        gpu_readback_ms: 0,
        gpu_adapter_name: None,
        gpu_device_name: None,
        gpu_requested_backend: RenderGpuBackend::Auto,
        gpu_actual_backend: RenderGpuBackend::Auto,
    }
}

#[test]
fn gpu_reasons_are_classified() {
    assert_eq!(localize_gpu_reason("Adapter not found"), "GPU 适配器不可用（Adapter not found）");
    assert_eq!(localize_gpu_reason("feature NOT ENABLED"), "GPU 后端未编译（feature NOT ENABLED）");
    assert_eq!(localize_gpu_reason("backend unavailable on device"), "GPU 后端不可用（backend unavailable on device）");
    assert_eq!(localize_gpu_reason("lost device"), "GPU 设备不可用（lost device）");
    assert_eq!(localize_gpu_reason("Vulkan init"), "Vulkan 不可用（Vulkan init）");
    assert_eq!(localize_gpu_reason("boom"), "GPU 错误（boom）");
}

#[test]
fn gpu_names_are_trimmed_and_shortened() {
    assert_eq!(compact_gpu_name("  NVIDIA RTX  "), "NVIDIA RTX");
    let long = "a".repeat(60);
    let short = compact_gpu_name(&long);
    assert_eq!(short.chars().count(), 48);
    assert!(short.ends_with('…'));
    assert_eq!(compact_gpu_name(&"b".repeat(48)), "b".repeat(48));
}

#[test]
fn gpu_status_lines() {
    let mut s = stats();
    assert_eq!(render_gpu_backend_status_zh(&s), "GPU 未启用");
    assert_eq!(gpu_status_text(&s), "GPU 未启用或未使用 · 交互默认 CPU；手动切换 GPU 可查看 DX11/Vulkan 诊断");
    s.resolved_backend = ResolvedRenderBackend::Dx11;
    s.gpu_readback_ms = 3;
    assert_eq!(gpu_status_text(&s), "GPU 合成已启用，等待可提交批次 · 后端 DX11 · 回读 3ms");
    s.gpu_fallback_reason = Some("no adapter".to_string());
    assert_eq!(gpu_status_text(&s), "GPU 已回退 CPU：GPU 适配器不可用（no adapter）");
    s.gpu_requested_backend = RenderGpuBackend::Vulkan;
    s.gpu_actual_backend = RenderGpuBackend::Dx12;
    assert_eq!(render_gpu_backend_status_zh(&s), "请求 Vulkan · 实际 DX12");
    s.gpu_tiles = 12;
    s.gpu_dispatch_ms = 4;
    s.resolved_backend = ResolvedRenderBackend::WgpuVulkan;
    s.gpu_adapter_name = Some(" Radeon ".to_string());
    assert_eq!(gpu_status_text(&s), "GPU 合成已启用 · 后端 Vulkan · Radeon · 未知设备 · 12 瓦片 · 派发 4ms · 回读 3ms");
}

#[test]
fn nbt_numbers_as_i32() {
    assert_eq!(nbt_i32(&NbtNumber::Byte(-3)), Some(-3));
    assert_eq!(nbt_i32(&NbtNumber::Short(300)), Some(300));
    assert_eq!(nbt_i32(&NbtNumber::Long(1 << 40)), None);
    assert_eq!(nbt_i32(&NbtNumber::Long(-5)), Some(-5));
    assert_eq!(nbt_i32(&NbtNumber::Other), None);
}

#[test]
fn viewer_modes() {
    assert_eq!(viewer_mode_from_render_mode(RenderMode::RawBiomeLayer), ViewerMode::Biome);
    assert_eq!(viewer_mode_from_render_mode(RenderMode::RawHeightMap), ViewerMode::Height);
    assert_eq!(viewer_mode_from_render_mode(RenderMode::CaveSlice), ViewerMode::Cave);
}

#[test]
fn coordinate_inputs() {
    assert_eq!(parse_i32_input("", "X"), Err("X 不能为空".to_string()));
    assert_eq!(parse_i32_input("1.5", "X"), Err("X 必须是整数".to_string()));
    assert_eq!(parse_i32_input(" 5", "Z"), Err("Z 必须是整数".to_string()));
    assert_eq!(parse_i32_input("-5", "X"), Ok(-5));
    assert_eq!(parse_i32_input("+12", "X"), Ok(12));
}

#[test]
fn context_menu_chunk_rounds_down() {
    let c = context_menu_chunk(ContextMenuState { block_x: -1, block_z: 17 }, Dimension::Nether);
    assert_eq!(c, ChunkPos { x: -1, z: 1, dimension: Dimension::Nether });
    let c = context_menu_chunk(ContextMenuState { block_x: -16, block_z: 15 }, Dimension::Overworld);
    assert_eq!(c, ChunkPos { x: -1, z: 0, dimension: Dimension::Overworld });
}

#[test]
fn system_memory_sample_is_reused_within_the_ttl() {
    let mut cache = SystemMemoryCache::new();
    let first = cache.available_bytes(1_000);
    assert_eq!(cache.last_refresh_ms, Some(1_000));
    assert_eq!(cache.available_bytes, first);
    cache.available_bytes = 12_345;
    assert_eq!(cache.available_bytes(1_000 + SYSTEM_MEMORY_CACHE_TTL_MS - 1), 12_345);
    assert_eq!(cache.last_refresh_ms, Some(1_000));
    let _ = cache.available_bytes(1_000 + SYSTEM_MEMORY_CACHE_TTL_MS);
    assert_eq!(cache.last_refresh_ms, Some(1_000 + SYSTEM_MEMORY_CACHE_TTL_MS));
}

#[test]
fn stable_build_limits() {
    assert_eq!(helpers_stable::tile_cache_memory_limit(budget(4, 1)), 131_072);
    assert_eq!(helpers_stable::tile_cache_memory_limit(budget(12, 1)), 196_608);
    assert_eq!(helpers_stable::tile_cache_memory_limit(budget(64, 1)), 262_144);
    assert_eq!(helpers_stable::visible_tile_count(3, 2, 1), 20);
    assert_eq!(helpers_stable::ui_tile_memory_budget_bytes(10, Some(256), 0), 96 * 1024 * 1024);
    assert_eq!(helpers_stable::ui_tile_memory_budget_bytes(10, None, 24 * 200 * 1024 * 1024), 200 * 1024 * 1024);
    assert_eq!(helpers_stable::ui_tile_memory_budget_bytes(100_000, Some(512), 0), 384 * 1024 * 1024);
}

#[test]
fn a_recorded_memory_sample_is_kept_and_reused() {
    let mut cache = SystemMemoryCache::new();
    assert_eq!(cache.record_memory_sample(100, 4096), 4096);
    assert_eq!(cache.last_refresh_ms, Some(100));
    assert_eq!(cache.available_bytes(100 + SYSTEM_MEMORY_CACHE_TTL_MS - 1), 4096);
}
