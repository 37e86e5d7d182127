use crate::arith::{clamp_int, div_euclid_i32, sat_add_i32, sat_mul_u64, sat_mul_usize};
use crate::map_viewer::model::{
    ChunkPos, ContextMenuState, Dimension, NbtNumber, RenderBackend, RenderPipelineStats, RenderCpuBudget, RenderGpuBackend, RenderMode,
    RenderTuning, ResolvedRenderBackend, ViewerMode,
};
use crate::text::{
    chars_of, lower_chars, lower_seq, parse_i32, seq_contains, spec_decimal, spec_parse_i32,
    spec_trim, trim_text, u64_to_text, vec_contains, append_decimal,
};
use vstd::prelude::*;

verus! {

pub open spec fn spec_render_backend_label(backend: RenderBackend, gpu: RenderGpuBackend) -> Seq<
    char,
> {
    match backend {
        RenderBackend::Cpu => "CPU"@,
        RenderBackend::Auto => "Auto GPU"@,
        RenderBackend::Wgpu => match gpu {
            RenderGpuBackend::Auto => "Nova Auto"@,
            RenderGpuBackend::Dx11 => "DX11"@,
            RenderGpuBackend::Dx12 => "DX12"@,
            RenderGpuBackend::Vulkan => "Vulkan"@,
        },
    }
}

/// The label of the selected render backend; the GPU API is named only for
/// the explicit GPU backend.
pub fn render_backend_label(backend: RenderBackend, gpu_backend: RenderGpuBackend) -> (r:
    &'static str)
    ensures
        r@ == spec_render_backend_label(backend, gpu_backend),
{
    match backend {
        RenderBackend::Cpu => "CPU",
        RenderBackend::Auto => "Auto GPU",
        RenderBackend::Wgpu => match gpu_backend {
            RenderGpuBackend::Auto => "Nova Auto",
            RenderGpuBackend::Dx11 => "DX11",
            RenderGpuBackend::Dx12 => "DX12",
            RenderGpuBackend::Vulkan => "Vulkan",
        },
    }
}

pub fn default_interactive_render_backend() -> (r: RenderBackend)
    ensures
        r == RenderBackend::Auto,
{
    RenderBackend::Auto
}

pub fn default_interactive_render_gpu_backend() -> (r: RenderGpuBackend)
    ensures
        r == RenderGpuBackend::Auto,
{
    RenderGpuBackend::Auto
}

/// How long a sampled amount of available memory is reused: five seconds.
pub const SYSTEM_MEMORY_CACHE_TTL_MS: u64 = 5_000;

#[verifier::external_type_specification]
#[verifier::external_body]
pub struct ExSystem(sysinfo::System);

/// `sysinfo::System::new`: a system handle with nothing refreshed yet.
#[verifier::external_body]
fn new_system() -> sysinfo::System {
    sysinfo::System::new()
}

/// `sysinfo::System::refresh_memory`: reads the memory figures again. What
/// it reads depends on the machine and the moment; nothing is stated.
#[verifier::external_body]
fn refresh_memory(system: &mut sysinfo::System) {
    system.refresh_memory()
}

/// `sysinfo::System::available_memory`: the memory, in bytes, that the last
/// refresh found available. It depends on the machine and the moment;
/// nothing is stated of it.
#[verifier::external_body]
fn available_memory(system: &sysinfo::System) -> u64 {
    system.available_memory()
}

/// Samples the memory the operating system reports as available.
fn refresh_available_system_memory_bytes() -> u64 {
    let mut system = new_system();
    refresh_memory(&mut system);
    available_memory(&system)
}

/// The last sample of available system memory and when it was taken
/// (milliseconds from the caller's fixed origin).
#[derive(Clone, Copy, Debug)]
pub struct SystemMemoryCache {
    pub last_refresh_ms: Option<u64>,
    pub available_bytes: u64,
}

/// A sample is stale when there is none or it is at least the TTL old.
pub open spec fn memory_sample_stale(last: Option<u64>, now_ms: u64) -> bool {
    match last {
        None => true,
        Some(t) => now_ms >= t && now_ms - t >= SYSTEM_MEMORY_CACHE_TTL_MS,
    }
}

impl SystemMemoryCache {
    pub fn new() -> (r: Self)
        ensures
            r.last_refresh_ms is None,
            r.available_bytes == 0,
    {
        SystemMemoryCache { last_refresh_ms: None, available_bytes: 0 }
    }

    /// Keeps `sample`, taken at `now_ms`, as the current sample and returns it.
    pub fn record_memory_sample(&mut self, now_ms: u64, sample: u64) -> (r: u64)
        ensures
            final(self).last_refresh_ms == Some(now_ms),
            final(self).available_bytes == sample,
            r == sample,
    {
        self.last_refresh_ms = Some(now_ms);
        self.available_bytes = sample;
        sample
    }

    /// Available memory, sampled again when the kept sample is stale; the
    /// fresh sample is whatever the system reports and is kept as it came.
    pub fn available_bytes(&mut self, now_ms: u64) -> (r: u64)
        ensures
            r == final(self).available_bytes,
            memory_sample_stale(old(self).last_refresh_ms, now_ms)
                ==> final(self).last_refresh_ms == Some(now_ms),
            !memory_sample_stale(old(self).last_refresh_ms, now_ms)
                ==> *final(self) == *old(self),
    {
        let stale = match self.last_refresh_ms {
            None => true,
            Some(t) => now_ms >= t && now_ms - t >= SYSTEM_MEMORY_CACHE_TTL_MS,
        };
        if stale {
            let sample = refresh_available_system_memory_bytes();
            return self.record_memory_sample(now_ms, sample);
        }
        self.available_bytes
    }
}

/// Chunks rendered per CPU batch: four per worker, between 4 and 32.
pub fn render_cpu_chunk_batch_size(worker_count: usize) -> (r: usize)
    ensures
        r == clamp_int(clamp_int(worker_count * 4, 0, usize::MAX as int), 4, 32),
{
    let n = sat_mul_usize(worker_count, 4);
    if n < 4 {
        4
    } else if n > 32 {
        32
    } else {
        n
    }
}

/// Manifest probe workers: one per render thread, at least one and at most
/// the configured maximum.
pub fn manifest_probe_worker_count(cpu_budget: RenderCpuBudget, tuning: &RenderTuning) -> (r:
    usize)
    requires
        tuning.wf(),
    ensures
        r == clamp_int(cpu_budget.threads as int, 1, tuning.tile_manifest_probe_max_workers as int),
{
    let t = cpu_budget.thread_count();
    if t < 1 {
        1
    } else if t > tuning.tile_manifest_probe_max_workers {
        tuning.tile_manifest_probe_max_workers
    } else {
        t
    }
}

/// Tile cache entries: 64 per render thread, between 64 and 512.
pub fn tile_cache_memory_limit(cpu_budget: RenderCpuBudget) -> (r: usize)
    ensures
        r == clamp_int(clamp_int(cpu_budget.threads * 64, 0, usize::MAX as int), 64, 512),
{
    let n = sat_mul_usize(cpu_budget.thread_count(), 64);
    if n < 64 {
        64
    } else if n > 512 {
        512
    } else {
        n
    }
}

pub open spec fn max_int(a: int, b: int) -> int {
    if a >= b {
        a
    } else {
        b
    }
}

pub open spec fn sat_usize(v: int) -> int {
    clamp_int(v, 0, usize::MAX as int)
}

/// Tiles covered by a view `width_tiles` by `height_tiles` tiles wide,
/// widened by `radius` tiles on every side (a negative radius counts as 0).
pub open spec fn spec_tile_count_with_margin(width_tiles: int, height_tiles: int, radius: int) -> int {
    let r = if radius > 0 { radius } else { 0 };
    sat_usize(sat_usize(width_tiles + sat_usize(r * 2)) * sat_usize(height_tiles + sat_usize(r * 2)))
}

/// Tiles to keep around a viewport that spans `width_tiles` by
/// `height_tiles` tiles, with `radius` extra tiles on every side.
pub fn tile_count_for_viewport(width_tiles: usize, height_tiles: usize, radius: i32) -> (r: Option<
    usize,
>)
    ensures
        r == Some(spec_tile_count_with_margin(width_tiles as int, height_tiles as int, radius as int) as usize),
{
    let radius_tiles: usize = if radius > 0 {
        radius as usize
    } else {
        0
    };
    let margin = sat_mul_usize(radius_tiles, 2);
    let w = width_tiles.saturating_add(margin);
    let h = height_tiles.saturating_add(margin);
    Some(sat_mul_usize(w, h))
}

/// Bytes of tile images the UI keeps: four bytes per pixel of every tile
/// around the view, a 32nd of the available system memory, or the configured
/// minimum, whichever is largest.
pub fn ui_tile_memory_budget_bytes(
    visible_tiles: Option<usize>,
    available_system_memory: u64,
    tuning: &RenderTuning,
) -> (r: usize)
    ensures
        ({
            let tiles = match visible_tiles {
                Some(t) => t as int,
                None => 16,
            };
            let size = tuning.default_tile_size as int;
            let visible_budget = sat_usize(sat_usize(sat_usize(tiles * size) * size) * 4);
            let quarter = available_system_memory as int / 32;
            let available_budget = if quarter <= usize::MAX {
                quarter
            } else {
                tuning.min_ui_tile_memory_budget_bytes as int
            };
            r == max_int(
                max_int(visible_budget, available_budget),
                tuning.min_ui_tile_memory_budget_bytes as int,
            )
        }),
{
    let tiles = match visible_tiles {
        Some(t) => t,
        None => 16,
    };
    let visible_budget = sat_mul_usize(
        sat_mul_usize(sat_mul_usize(tiles, tuning.default_tile_size), tuning.default_tile_size),
        4,
    );
    let quarter = available_system_memory / 32;
    let available_budget: usize = if quarter <= usize::MAX as u64 {
        quarter as usize
    } else {
        tuning.min_ui_tile_memory_budget_bytes
    };
    let a = if visible_budget >= available_budget {
        visible_budget
    } else {
        available_budget
    };
    if a >= tuning.min_ui_tile_memory_budget_bytes {
        a
    } else {
        tuning.min_ui_tile_memory_budget_bytes
    }
}

/// Tiles rendered per batch for the visible area: at least one, widened for
/// an overview, capped while dragging and raised to the first-batch floor on
/// the initial load.
pub open spec fn spec_visible_render_batch_size(
    base: int,
    visible: int,
    dragging: bool,
    initial: bool,
    t: RenderTuning,
) -> int {
    let overview = visible >= t.overview_visible_tile_threshold;
    let b1 = max_int(base, 1);
    let b2 = if overview { max_int(b1, t.overview_visible_batch_limit as int) } else { b1 };
    let drag_cap = max_int(t.drag_visible_batch_limit as int, 1);
    let b3 = if dragging { if b2 <= drag_cap { b2 } else { drag_cap } } else { b2 };
    let first = if overview {
        t.overview_first_visible_batch_limit as int
    } else {
        t.first_visible_batch_limit as int
    };
    if initial { max_int(b3, max_int(first, 1)) } else { b3 }
}

pub fn visible_render_batch_size(
    base_batch_size: usize,
    visible_tile_count: usize,
    is_dragging: bool,
    is_initial_load: bool,
    tuning: &RenderTuning,
) -> (r: usize)
    ensures
        r == spec_visible_render_batch_size(
            base_batch_size as int,
            visible_tile_count as int,
            is_dragging,
            is_initial_load,
            *tuning,
        ),
{
    let overview = visible_tile_count >= tuning.overview_visible_tile_threshold;
    let mut batch_size = if base_batch_size >= 1 {
        base_batch_size
    } else {
        1
    };
    if overview && batch_size < tuning.overview_visible_batch_limit {
        batch_size = tuning.overview_visible_batch_limit;
    }
    if is_dragging {
        let cap = if tuning.drag_visible_batch_limit >= 1 {
            tuning.drag_visible_batch_limit
        } else {
            1
        };
        if batch_size > cap {
            batch_size = cap;
        }
    }
    if is_initial_load {
        let first_floor = if overview {
            tuning.overview_first_visible_batch_limit
        } else {
            tuning.first_visible_batch_limit
        };
        let floor = if first_floor >= 1 {
            first_floor
        } else {
            1
        };
        if batch_size < floor {
            batch_size = floor;
        }
    }
    batch_size
}

pub open spec fn sat_u64(v: int) -> int {
    clamp_int(v, 0, u64::MAX as int)
}

/// Render memory budget: eight bytes per pixel of every tile that can be in
/// flight, or an eighth of the available memory (up to the maximum),
/// whichever is larger, kept within the configured bounds.
pub open spec fn spec_render_memory_budget_bytes(
    work_items: int,
    threads: int,
    tile_batch: int,
    available: int,
    t: RenderTuning,
) -> int {
    let size = t.default_tile_size as int;
    let per_tile = sat_u64(sat_u64(size * size) * 8);
    let wanted = max_int(work_items, threads);
    let cap = max_int(tile_batch, 1);
    let active = if wanted <= cap { wanted } else { cap };
    let work_budget = sat_u64(per_tile * active);
    let eighth = available / 8;
    let avail_budget = if eighth <= t.max_render_memory_budget_bytes {
        eighth
    } else {
        t.max_render_memory_budget_bytes as int
    };
    clamp_int(
        max_int(work_budget, avail_budget),
        t.min_render_memory_budget_bytes as int,
        t.max_render_memory_budget_bytes as int,
    )
}

pub fn render_memory_budget_bytes(
    work_items: usize,
    cpu_budget: RenderCpuBudget,
    available_system_memory: u64,
    tuning: &RenderTuning,
) -> (r: u64)
    requires
        tuning.wf(),
    ensures
        r == spec_render_memory_budget_bytes(
            work_items as int,
            cpu_budget.threads as int,
            cpu_budget.tile_batch as int,
            available_system_memory as int,
            *tuning,
        ),
{
    let size = tuning.default_tile_size as u64;
    let per_tile_budget = sat_mul_u64(sat_mul_u64(size, size), 8);
    let threads = cpu_budget.thread_count();
    let wanted = if work_items >= threads {
        work_items
    } else {
        threads
    };
    let batch = cpu_budget.tile_batch_size();
    let cap = if batch >= 1 {
        batch
    } else {
        1
    };
    let active = if wanted <= cap {
        wanted
    } else {
        cap
    };
    let work_budget = sat_mul_u64(per_tile_budget, active as u64);
    let eighth = available_system_memory / 8;
    let available_budget = if eighth <= tuning.max_render_memory_budget_bytes {
        eighth
    } else {
        tuning.max_render_memory_budget_bytes
    };
    let m = if work_budget >= available_budget {
        work_budget
    } else {
        available_budget
    };
    if m < tuning.min_render_memory_budget_bytes {
        tuning.min_render_memory_budget_bytes
    } else if m > tuning.max_render_memory_budget_bytes {
        tuning.max_render_memory_budget_bytes
    } else {
        m
    }
}

/// Staging pool: four bytes per pixel of one tile per active worker (at most
/// two per thread), kept within the configured bounds.
pub open spec fn spec_render_staging_pool_bytes(work_items: int, threads: int, t: RenderTuning) -> int {
    let size = t.default_tile_size as int;
    let per_tile = sat_usize(sat_usize(size * size) * 4);
    let wanted = max_int(work_items, threads);
    let cap = max_int(sat_usize(threads * 2), 1);
    let active = if wanted <= cap { wanted } else { cap };
    clamp_int(
        sat_usize(per_tile * active),
        t.min_render_staging_pool_bytes as int,
        t.max_render_staging_pool_bytes as int,
    )
}

pub fn render_staging_pool_bytes(
    work_items: usize,
    cpu_budget: RenderCpuBudget,
    tuning: &RenderTuning,
) -> (r: usize)
    requires
        tuning.wf(),
    ensures
        r == spec_render_staging_pool_bytes(work_items as int, cpu_budget.threads as int, *tuning),
{
    let size = tuning.default_tile_size;
    let per_tile_budget = sat_mul_usize(sat_mul_usize(size, size), 4);
    let threads = cpu_budget.thread_count();
    let wanted = if work_items >= threads {
        work_items
    } else {
        threads
    };
    let doubled = sat_mul_usize(threads, 2);
    let cap = if doubled >= 1 {
        doubled
    } else {
        1
    };
    let active = if wanted <= cap {
        wanted
    } else {
        cap
    };
    let total = sat_mul_usize(per_tile_budget, active);
    if total < tuning.min_render_staging_pool_bytes {
        tuning.min_render_staging_pool_bytes
    } else if total > tuning.max_render_staging_pool_bytes {
        tuning.max_render_staging_pool_bytes
    } else {
        total
    }
}

pub open spec fn spec_gpu_backend_label_zh(backend: RenderGpuBackend) -> Seq<char> {
    match backend {
        RenderGpuBackend::Auto => "自动"@,
        RenderGpuBackend::Dx11 => "DX11"@,
        RenderGpuBackend::Dx12 => "DX12"@,
        RenderGpuBackend::Vulkan => "Vulkan"@,
    }
}

pub fn render_gpu_backend_label_zh(backend: RenderGpuBackend) -> (r: &'static str)
    ensures
        r@ == spec_gpu_backend_label_zh(backend),
{
    match backend {
        RenderGpuBackend::Auto => "自动",
        RenderGpuBackend::Dx11 => "DX11",
        RenderGpuBackend::Dx12 => "DX12",
        RenderGpuBackend::Vulkan => "Vulkan",
    }
}

pub open spec fn spec_resolved_backend_label_zh(backend: ResolvedRenderBackend) -> Seq<char> {
    match backend {
        ResolvedRenderBackend::Cpu => "CPU"@,
        ResolvedRenderBackend::Dx11 => "DX11"@,
        ResolvedRenderBackend::WgpuDx12 => "DX12"@,
        ResolvedRenderBackend::WgpuVulkan => "Vulkan"@,
        ResolvedRenderBackend::Mixed => "混合"@,
    }
}

pub fn resolved_backend_label_zh(backend: ResolvedRenderBackend) -> (r: &'static str)
    ensures
        r@ == spec_resolved_backend_label_zh(backend),
{
    match backend {
        ResolvedRenderBackend::Cpu => "CPU",
        ResolvedRenderBackend::Dx11 => "DX11",
        ResolvedRenderBackend::WgpuDx12 => "DX12",
        ResolvedRenderBackend::WgpuVulkan => "Vulkan",
        ResolvedRenderBackend::Mixed => "混合",
    }
}

/// `"GPU 未启用"` when the GPU neither rendered nor fell back, otherwise the
/// requested and the actual GPU API.
pub fn render_gpu_backend_status_zh(stats: &RenderPipelineStats) -> (r: String)
    ensures
        r@ == (if stats.gpu_tiles == 0 && stats.gpu_fallback_reason is None {
            "GPU 未启用"@
        } else {
            "请求 "@ + spec_gpu_backend_label_zh(stats.gpu_requested_backend) + " · 实际 "@
                + spec_gpu_backend_label_zh(stats.gpu_actual_backend)
        }),
{
    if stats.gpu_tiles == 0 && stats.gpu_fallback_reason.is_none() {
        return String::from_str("GPU 未启用");
    }
    let mut text = String::from_str("请求 ");
    text.append(render_gpu_backend_label_zh(stats.gpu_requested_backend));
    text.append(" · 实际 ");
    text.append(render_gpu_backend_label_zh(stats.gpu_actual_backend));
    text
}

/// The kind of GPU failure a fallback reason names, judged on its
/// lowercased text.
pub open spec fn spec_gpu_reason_prefix(lower: Seq<char>) -> Seq<char> {
    if seq_contains(lower, "not compiled"@) || seq_contains(lower, "not enabled"@) {
        "GPU 后端未编译"@
    } else if seq_contains(lower, "unavailable"@) {
        "GPU 后端不可用"@
    } else if seq_contains(lower, "device"@) {
        "GPU 设备不可用"@
    } else if seq_contains(lower, "adapter"@) {
        "GPU 适配器不可用"@
    } else if seq_contains(lower, "dx12"@) {
        "DX12 不可用"@
    } else if seq_contains(lower, "vulkan"@) {
        "Vulkan 不可用"@
    } else {
        "GPU 错误"@
    }
}

fn lower_has(lower: &Vec<char>, pattern: &str) -> (r: bool)
    ensures
        r == seq_contains(lower@, pattern@),
{
    let p = chars_of(pattern);
    vec_contains(lower, &p)
}

/// A fallback reason shown as `"<kind>（<reason>）"`.
pub fn localize_gpu_reason(reason: &str) -> (r: String)
    ensures
        r@ == spec_gpu_reason_prefix(lower_seq(reason@)) + "（"@ + reason@ + "）"@,
{
    let lower = lower_chars(reason);
    let prefix = if lower_has(&lower, "not compiled") || lower_has(&lower, "not enabled") {
        "GPU 后端未编译"
    } else if lower_has(&lower, "unavailable") {
        "GPU 后端不可用"
    } else if lower_has(&lower, "device") {
        "GPU 设备不可用"
    } else if lower_has(&lower, "adapter") {
        "GPU 适配器不可用"
    } else if lower_has(&lower, "dx12") {
        "DX12 不可用"
    } else if lower_has(&lower, "vulkan") {
        "Vulkan 不可用"
    } else {
        "GPU 错误"
    };
    let mut text = String::from_str(prefix);
    text.append("（");
    text.append(reason);
    text.append("）");
    text
}

/// Longest GPU name shown in full, in characters.
pub const GPU_NAME_MAX_LEN: usize = 48;

/// A GPU name without surrounding white space; a name longer than
/// [`GPU_NAME_MAX_LEN`] characters keeps its first 47 followed by `…`.
pub open spec fn spec_compact_gpu_name(name: Seq<char>) -> Seq<char> {
    let t = spec_trim(name);
    if t.len() <= GPU_NAME_MAX_LEN {
        t
    } else {
        t.subrange(0, GPU_NAME_MAX_LEN - 1) + "…"@
    }
}

pub fn compact_gpu_name(name: &str) -> (r: String)
    ensures
        r@ == spec_compact_gpu_name(name@),
{
    let trimmed = trim_text(name);
    let t = trimmed.as_str();
    let len = t.unicode_len();
    if len <= GPU_NAME_MAX_LEN {
        return trimmed;
    }
    let mut value = String::from_str(t.substring_char(0, GPU_NAME_MAX_LEN - 1));
    value.append("…");
    value
}

/// The GPU diagnostics line of the status bar.
pub open spec fn spec_gpu_status_text(stats: RenderPipelineStats) -> Seq<char> {
    if stats.gpu_tiles == 0 {
        match stats.gpu_fallback_reason {
            Some(reason) => "GPU 已回退 CPU："@ + spec_gpu_reason_prefix(lower_seq(reason@)) + "（"@
                + reason@ + "）"@,
            None => if stats.resolved_backend == ResolvedRenderBackend::WgpuDx12
                || stats.resolved_backend == ResolvedRenderBackend::WgpuVulkan
                || stats.resolved_backend == ResolvedRenderBackend::Dx11 {
                "GPU 合成已启用，等待可提交批次 · 后端 "@ + spec_resolved_backend_label_zh(
                    stats.resolved_backend,
                ) + " · 回读 "@ + spec_decimal(stats.gpu_readback_ms as nat) + "ms"@
            } else {
                "GPU 未启用或未使用 · 交互默认 CPU；手动切换 GPU 可查看 DX11/Vulkan 诊断"@
            },
        }
    } else {
        let adapter = match stats.gpu_adapter_name {
            Some(a) => a@,
            None => "未知适配器"@,
        };
        let device = match stats.gpu_device_name {
            Some(d) => d@,
            None => "未知设备"@,
        };
        "GPU 合成已启用 · 后端 "@ + spec_resolved_backend_label_zh(stats.resolved_backend) + " · "@
            + spec_compact_gpu_name(adapter) + " · "@ + spec_compact_gpu_name(device) + " · "@
            + spec_decimal(stats.gpu_tiles as nat) + " 瓦片 · 派发 "@ + spec_decimal(
            stats.gpu_dispatch_ms as nat,
        ) + "ms · 回读 "@ + spec_decimal(stats.gpu_readback_ms as nat) + "ms"@
    }
}

pub fn gpu_status_text(stats: &RenderPipelineStats) -> (r: String)
    ensures
        r@ == spec_gpu_status_text(*stats),
{
    if stats.gpu_tiles == 0 {
        if let Some(reason) = &stats.gpu_fallback_reason {
            let mut text = String::from_str("GPU 已回退 CPU：");
            let localized = localize_gpu_reason(reason.as_str());
            text.append(localized.as_str());
            return text;
        }
        match stats.resolved_backend {
            ResolvedRenderBackend::WgpuDx12
            | ResolvedRenderBackend::WgpuVulkan
            | ResolvedRenderBackend::Dx11 => {
                let mut text = String::from_str("GPU 合成已启用，等待可提交批次 · 后端 ");
                text.append(resolved_backend_label_zh(stats.resolved_backend));
                text.append(" · 回读 ");
                append_decimal(&mut text, stats.gpu_readback_ms);
                text.append("ms");
                return text;
            },
            _ => {},
        }
        return String::from_str(
            "GPU 未启用或未使用 · 交互默认 CPU；手动切换 GPU 可查看 DX11/Vulkan 诊断",
        );
    }
    let adapter = match &stats.gpu_adapter_name {
        Some(a) => compact_gpu_name(a.as_str()),
        None => compact_gpu_name("未知适配器"),
    };
    let device = match &stats.gpu_device_name {
        Some(d) => compact_gpu_name(d.as_str()),
        None => compact_gpu_name("未知设备"),
    };
    let mut text = String::from_str("GPU 合成已启用 · 后端 ");
    text.append(resolved_backend_label_zh(stats.resolved_backend));
    text.append(" · ");
    text.append(adapter.as_str());
    text.append(" · ");
    text.append(device.as_str());
    text.append(" · ");
    append_decimal(&mut text, stats.gpu_tiles as u64);
    text.append(" 瓦片 · 派发 ");
    append_decimal(&mut text, stats.gpu_dispatch_ms);
    text.append("ms · 回读 ");
    append_decimal(&mut text, stats.gpu_readback_ms);
    text.append("ms");
    text
}

/// The value of a numeric tag as an `i32`; a long outside the range of `i32`
/// and any non-numeric tag give nothing.
pub fn nbt_i32(tag: &NbtNumber) -> (r: Option<i32>)
    ensures
        r == (match *tag {
            NbtNumber::Byte(v) => Some(v as i32),
            NbtNumber::Short(v) => Some(v as i32),
            NbtNumber::Int(v) => Some(v),
            NbtNumber::Long(v) => if i32::MIN <= v <= i32::MAX {
                Some(v as i32)
            } else {
                None
            },
            NbtNumber::Other => None,
        }),
{
    match *tag {
        NbtNumber::Byte(value) => Some(value as i32),
        NbtNumber::Short(value) => Some(value as i32),
        NbtNumber::Int(value) => Some(value),
        NbtNumber::Long(value) => if i32::MIN as i64 <= value && value <= i32::MAX as i64 {
            Some(value as i32)
        } else {
            None
        },
        NbtNumber::Other => None,
    }
}

pub open spec fn spec_viewer_mode(mode: RenderMode) -> ViewerMode {
    match mode {
        RenderMode::SurfaceBlocks => ViewerMode::Surface,
        RenderMode::Biome | RenderMode::RawBiomeLayer => ViewerMode::Biome,
        RenderMode::HeightMap | RenderMode::RawHeightMap => ViewerMode::Height,
        RenderMode::LayerBlocks => ViewerMode::Layer,
        RenderMode::CaveSlice => ViewerMode::Cave,
    }
}

/// The viewer mode button that a render mode belongs to.
pub fn viewer_mode_from_render_mode(mode: RenderMode) -> (r: ViewerMode)
    ensures
        r == spec_viewer_mode(mode),
{
    match mode {
        RenderMode::SurfaceBlocks => ViewerMode::Surface,
        RenderMode::Biome | RenderMode::RawBiomeLayer => ViewerMode::Biome,
        RenderMode::HeightMap | RenderMode::RawHeightMap => ViewerMode::Height,
        RenderMode::LayerBlocks => ViewerMode::Layer,
        RenderMode::CaveSlice => ViewerMode::Cave,
    }
}

/// Parses a coordinate field: empty input and non-integers are refused with
/// a message that names the field.
pub fn parse_i32_input(value: &str, label: &str) -> (r: Result<i32, String>)
    ensures
        value@.len() == 0 ==> (r matches Err(e) && e@ == label@ + " 不能为空"@),
        value@.len() > 0 ==> match spec_parse_i32(value@) {
            Some(v) => r == Ok::<i32, String>(v),
            None => (r matches Err(e) && e@ == label@ + " 必须是整数"@),
        },
{
    if value.is_empty() {
        let mut message = String::from_str(label);
        message.append(" 不能为空");
        return Err(message);
    }
    match parse_i32(value) {
        Some(v) => Ok(v),
        None => {
            let mut message = String::from_str(label);
            message.append(" 必须是整数");
            Err(message)
        },
    }
}

/// The chunk that holds a block column: block coordinates divided by 16,
/// rounding down.
pub open spec fn spec_chunk_from_block(block_x: int, block_z: int, dimension: Dimension) -> ChunkPos {
    ChunkPos { x: (block_x / 16) as i32, z: (block_z / 16) as i32, dimension }
}

/// The chunk under the block where the context menu was opened.
pub fn context_menu_chunk(menu: ContextMenuState, dimension: Dimension) -> (r: ChunkPos)
    ensures
        r == spec_chunk_from_block(menu.block_x as int, menu.block_z as int, dimension),
{
    ChunkPos {
        x: div_euclid_i32(menu.block_x, 16),
        z: div_euclid_i32(menu.block_z, 16),
        dimension,
    }
}

} // verus!
