use bmcbl_windows::level_dat::{
    level_dat_save_path, save_task_error, text_line_count, validation_message, LevelDatSaveStart, LevelDatSession,
    LevelDatStatusKind,
};

#[test]
fn line_counts_match_str_lines() {
    for text in ["", "a", "a\n", "a\nb", "\n", "\n\n", "a\r\nb\r\n", "x\n\ny"] {
        assert_eq!(text_line_count(text), text.lines().count().max(1), "text {text:?}");
    }
}

#[test]
fn saving_flow() {
    let mut s = LevelDatSession::new("{}".to_string(), true);
    assert!(!s.is_dirty("{}"));
    assert!(s.is_dirty("{ }"));
    assert_eq!(s.begin_save(Err("line 1: expected value".into())), LevelDatSaveStart::Invalid);
    assert_eq!(s.status, Some((LevelDatStatusKind::Error, "line 1: expected value".to_string())));
    assert!(!s.saving && !s.valid);
    s.revalidate(true);
    assert_eq!(s.status, None);
    assert_eq!(s.begin_save(Ok(())), LevelDatSaveStart::Started);
    assert!(s.saving);
    assert_eq!(s.begin_save(Ok(())), LevelDatSaveStart::Busy);
    assert!(s.valid);
    assert_eq!(s.begin_save(Err("broken".into())), LevelDatSaveStart::Busy);
    assert!(s.valid && s.saving && s.status.is_none());
    s.finish_save(Ok(()), "{\"a\":1}".to_string());
    assert!(!s.saving);
    assert_eq!(s.saved_text, "{\"a\":1}");
    assert_eq!(s.status, Some((LevelDatStatusKind::Success, "level.dat 已保存。".to_string())));
    s.revalidate(true);
    assert!(s.status.is_some());
    s.begin_save(Ok(()));
    s.finish_save(Err("denied".into()), "x".to_string());
    assert_eq!(s.saved_text, "{\"a\":1}");
    assert_eq!(s.status, Some((LevelDatStatusKind::Error, "denied".to_string())));
}

#[test]
fn status_lines() {
    let mut s = LevelDatSession::new(String::new(), true);
    assert_eq!(s.status_line(None, false), "当前内容已与磁盘保存版本一致。");
    assert_eq!(s.status_line(None, true), "当前窗口有未保存修改。");
    assert_eq!(s.status_line(Some("bad tag"), true), "bad tag");
    s.finish_save(Err("boom".into()), String::new());
    assert_eq!(s.status_line(Some("bad tag"), true), "boom");
}

#[test]
fn small_texts() {
    assert_eq!(validation_message(Some("detail".into()), "summary".into()), "detail");
    assert_eq!(validation_message(None, "summary".into()), "summary");
    assert_eq!(level_dat_save_path("C:\\worlds\\w1"), "C:\\worlds\\w1\\level.dat");
    assert_eq!(save_task_error("cancelled"), "写入 level.dat 任务失败: cancelled");
}
