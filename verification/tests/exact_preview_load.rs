use bmcbl_windows::map_viewer::exact_preview::{ExactPreviewLoad, ExactPreviewStart, ExactSelectionInput};

fn idle() -> ExactPreviewLoad {
    ExactPreviewLoad {
        source_is_selection: false,
        generation: 3,
        loading: None,
        has_mesh: true,
        render_in_flight: false,
        cancel_held: false,
        status: String::new(),
    }
}

#[test]
fn exact_preview_needs_a_selection() {
    let mut p = idle();
    assert_eq!(p.begin_exact_preview(ExactSelectionInput::NoSelection), ExactPreviewStart::NoSelection);
    assert_eq!(p.status, "请先选择 chunk 范围");
    assert!(p.source_is_selection);
    assert!(!p.has_mesh);
    assert_eq!(p.generation, 3);
    let mut p = idle();
    assert_eq!(p.begin_exact_preview(ExactSelectionInput::Refused), ExactPreviewStart::NoLoadableChunks);
    assert_eq!(p.status, "当前选区没有可加载的 chunk");
}

#[test]
fn exact_preview_loads_by_generation() {
    let mut p = idle();
    assert_eq!(
        p.begin_exact_preview(ExactSelectionInput::Chunks(12)),
        ExactPreviewStart::Started { generation: 4, cancel_previous: false }
    );
    assert_eq!(p.status, "正在加载精确 3D 预览 · 12 chunks...");
    assert_eq!(p.loading, Some(("准备精确选区".to_string(), "12 chunks".to_string())));
    assert!(p.cancel_held && p.render_in_flight && !p.has_mesh);
    assert_eq!(
        p.begin_exact_preview(ExactSelectionInput::Chunks(2)),
        ExactPreviewStart::Started { generation: 5, cancel_previous: true }
    );
    assert!(!p.apply_exact_preview_chunk(4, "网格", "1/12"));
    assert!(!p.has_mesh);
    assert!(p.apply_exact_preview_chunk(5, "网格", "1/2"));
    assert!(p.has_mesh);
    assert_eq!(p.status, "正在拼接精确 3D 预览: 网格 1/2");
    assert!(!p.complete_exact_preview(4));
    assert!(p.cancel_held);
    assert!(p.complete_exact_preview(5));
    assert!(!p.cancel_held);
}
