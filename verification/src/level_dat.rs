use crate::text::str_eq;
use vstd::prelude::*;

verus! {

/// How the last action of the level.dat window ended.
#[derive(Clone, Copy, Debug, PartialEq, Eq, Structural)]
pub enum LevelDatStatusKind {
    Error,
    Success,
}

/// The state of the level.dat code window between actions.
pub struct LevelDatSession {
    /// The text last written to disk.
    pub saved_text: String,
    /// Whether the editor's text currently validates.
    pub valid: bool,
    pub saving: bool,
    pub status: Option<(LevelDatStatusKind, String)>,
}

/// What a save request leads to.
#[derive(Clone, Copy, Debug, PartialEq, Eq, Structural)]
pub enum LevelDatSaveStart {
    /// A save is running; nothing changes.
    Busy,
    /// The text does not parse; the status holds why.
    Invalid,
    /// The document is being written.
    Started,
}

/// The message of a failed validation: its detail, else its summary.
pub fn validation_message(detail: Option<String>, summary: String) -> (r: String)
    ensures
        r@ == (match detail {
            Some(d) => d@,
            None => summary@,
        }),
{
    match detail {
        Some(d) => d,
        None => summary,
    }
}

impl LevelDatSession {
    pub fn new(saved_text: String, valid: bool) -> (r: Self)
        ensures
            r.saved_text == saved_text,
            r.valid == valid,
            !r.saving,
            r.status is None,
    {
        LevelDatSession { saved_text, valid, saving: false, status: None }
    }

    /// Takes the validation of edited text; an error status goes away once
    /// the text validates.
    pub fn revalidate(&mut self, valid: bool)
        ensures
            final(self).valid == valid,
            final(self).saving == old(self).saving,
            final(self).saved_text == old(self).saved_text,
            final(self).status == (if valid && old(self).status matches Some((LevelDatStatusKind::Error, _)) {
                None
            } else {
                old(self).status
            }),
    {
        self.valid = valid;
        let is_error = match &self.status {
            Some((LevelDatStatusKind::Error, _)) => true,
            _ => false,
        };
        if is_error && valid {
            self.status = None;
        }
    }

    /// A save request: ignored while a save runs; refused with the
    /// validation message when the text does not parse; otherwise the write
    /// starts and the status is cleared.
    pub fn begin_save(&mut self, parsed: Result<(), String>) -> (r: LevelDatSaveStart)
        ensures
            old(self).saving ==> r == LevelDatSaveStart::Busy && final(self).status == old(self).status
                && final(self).saving && final(self).valid == old(self).valid,
            !old(self).saving ==> match parsed {
                Err(message) => r == LevelDatSaveStart::Invalid && !final(self).saving && !final(self).valid
                    && final(self).status == Some((LevelDatStatusKind::Error, message)),
                Ok(_) => r == LevelDatSaveStart::Started && final(self).saving && final(self).valid
                    && final(self).status is None,
            },
            final(self).saved_text == old(self).saved_text,
    {
        if self.saving {
            return LevelDatSaveStart::Busy;
        }
        match parsed {
            Err(message) => {
                self.valid = false;
                self.status = Some((LevelDatStatusKind::Error, message));
                LevelDatSaveStart::Invalid
            },
            Ok(_) => {
                self.saving = true;
                self.status = None;
                self.valid = true;
                LevelDatSaveStart::Started
            },
        }
    }

    /// Records the end of a write of `written_text`.
    pub fn finish_save(&mut self, result: Result<(), String>, written_text: String)
        ensures
            !final(self).saving,
            match result {
                Ok(_) => final(self).saved_text == written_text && final(self).valid && status_text_of(
                    final(self).status,
                ) == Some((LevelDatStatusKind::Success, "level.dat 已保存。"@)),
                Err(e) => final(self).saved_text == old(self).saved_text && final(self).status == Some(
                    (LevelDatStatusKind::Error, e),
                ) && final(self).valid == old(self).valid,
            },
    {
        self.saving = false;
        match result {
            Ok(_) => {
                self.saved_text = written_text;
                self.valid = true;
                self.status = Some((LevelDatStatusKind::Success, String::from_str("level.dat 已保存。")));
            },
            Err(e) => {
                self.status = Some((LevelDatStatusKind::Error, e));
            },
        }
    }

    /// Whether the editor's text differs from the saved text.
    pub fn is_dirty(&self, editor_text: &str) -> (r: bool)
        ensures
            r == (editor_text@ != self.saved_text@),
    {
        !str_eq(editor_text, self.saved_text.as_str())
    }

    /// The status line: the last status, else the validation detail, else
    /// whether there are unsaved changes.
    pub fn status_line(&self, validation_detail: Option<&str>, dirty: bool) -> (r: String)
        ensures
            r@ == (match self.status {
                Some((_, m)) => m@,
                None => match validation_detail {
                    Some(d) => d@,
                    None => if dirty {
                        "当前窗口有未保存修改。"@
                    } else {
                        "当前内容已与磁盘保存版本一致。"@
                    },
                },
            }),
    {
        match &self.status {
            Some((_, m)) => m.clone(),
            None => match validation_detail {
                Some(d) => String::from_str(d),
                None => if dirty {
                    String::from_str("当前窗口有未保存修改。")
                } else {
                    String::from_str("当前内容已与磁盘保存版本一致。")
                },
            },
        }
    }
}

pub open spec fn status_text_of(status: Option<(LevelDatStatusKind, String)>) -> Option<(LevelDatStatusKind, Seq<char>)> {
    match status {
        Some((k, t)) => Some((k, t@)),
        None => None,
    }
}

/// Number of '\n' in a text.
pub open spec fn newline_count(s: Seq<char>) -> nat
    decreases s.len(),
{
    if s.len() == 0 {
        0
    } else {
        newline_count(s.drop_last()) + if s.last() == '\n' { 1nat } else { 0nat }
    }
}

proof fn lemma_newline_count_bound(s: Seq<char>)
    ensures
        newline_count(s) <= s.len(),
    decreases s.len(),
{
    if s.len() > 0 {
        lemma_newline_count_bound(s.drop_last());
    }
}

/// What `str::lines().count()` counts: one line per '\n', plus a last line
/// that does not end with one.
pub open spec fn spec_line_count(s: Seq<char>) -> nat {
    newline_count(s) + if s.len() > 0 && s.last() != '\n' { 1nat } else { 0nat }
}

/// Lines of the editor's text, at least one.
pub fn text_line_count(text: &str) -> (r: usize)
    ensures
        r == (if spec_line_count(text@) == 0 { 1 } else { spec_line_count(text@) }),
{
    let n = text.unicode_len();
    let mut count: usize = 0;
    let mut i: usize = 0;
    while i < n
        invariant
            n == text@.len(),
            i <= n,
            count == newline_count(text@.subrange(0, i as int)),
            count <= i,
        decreases n - i,
    {
        let ghost pre = text@.subrange(0, i as int);
        proof {
            assert(text@.subrange(0, i + 1).drop_last() =~= pre);
        }
        if text.get_char(i) == '\n' {
            count += 1;
        }
        i += 1;
    }
    proof {
        assert(text@.subrange(0, n as int) =~= text@);
    }
    if n > 0 && text.get_char(n - 1) != '\n' {
        proof {
            lemma_newline_count_bound(text@.drop_last());
        }
        count += 1;
    }
    if count == 0 {
        1
    } else {
        count
    }
}

/// Where the document is written: `level.dat` in the world folder.
pub fn level_dat_save_path(folder: &str) -> (r: String)
    ensures
        r@ == folder@ + "\\level.dat"@,
{
    let mut path = String::from_str(folder);
    path.append("\\level.dat");
    path
}

/// The error of a write task that did not complete.
pub fn save_task_error(error: &str) -> (r: String)
    ensures
        r@ == "写入 level.dat 任务失败: "@ + error@,
{
    let mut text = String::from_str("写入 level.dat 任务失败: ");
    text.append(error);
    text
}

} // verus!
