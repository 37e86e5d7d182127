use vstd::prelude::*;

verus! {

/// What `serde_json` makes of a text that the editor asks to reformat:
/// nothing when `serde_json::from_str::<serde_json::Value>` rejects it;
/// otherwise what `serde_json::to_string_pretty` gives for the parsed value,
/// its text or its error's message. The parsed value keeps its objects'
/// keys ordered, so the outcome depends on the text alone. The name covers
/// both calls because the parsed value between them is an outside value of
/// which nothing can be stated, so no name could take it as an argument.
pub uninterp spec fn json_pretty_outcome(text: Seq<char>) -> Option<Result<Seq<char>, Seq<char>>>;

pub open spec fn outcome_view(r: Option<Result<String, String>>) -> Option<Result<Seq<char>, Seq<char>>> {
    match r {
        None => None,
        Some(Ok(t)) => Some(Ok(t@)),
        Some(Err(e)) => Some(Err(e@)),
    }
}

/// `serde_json::from_str::<serde_json::Value>` of the text, then
/// `serde_json::to_string_pretty` of the value it gives, each error taken
/// as its message; the outcome is the name above applied to the text. The
/// parsed value cannot leave this item with anything stated of it, so both
/// calls stand here.
#[verifier::external_body]
fn pretty_json_text(text: &str) -> (r: Option<Result<String, String>>)
    ensures
        outcome_view(r) == json_pretty_outcome(text@),
{
    match serde_json::from_str::<serde_json::Value>(text) {
        Err(_) => None,
        Ok(value) => Some(serde_json::to_string_pretty(&value).map_err(|error| error.to_string())),
    }
}

/// The text shown in place of pretty-printed JSON when printing fails.
pub open spec fn spec_pretty_error_text(error: Seq<char>) -> Seq<char> {
    "{\"error\":\""@ + error + "\"}"@
}

pub open spec fn spec_pretty_json(printed: Result<Seq<char>, Seq<char>>) -> Seq<char> {
    match printed {
        Ok(t) => t,
        Err(e) => spec_pretty_error_text(e),
    }
}

/// Pretty-printed JSON text, or a small JSON object naming the error when
/// printing failed.
pub fn pretty_json(printed: Result<String, String>) -> (r: String)
    ensures
        r@ == spec_pretty_json(match printed {
            Ok(t) => Ok(t@),
            Err(e) => Err(e@),
        }),
{
    match printed {
        Ok(text) => text,
        Err(error) => {
            let mut text = String::from_str("{\"error\":\"");
            text.append(error.as_str());
            text.append("\"}");
            text
        },
    }
}

/// The JSON text of the record open in the map editor.
pub struct EditorDocument {
    pub text: String,
    pub dirty: bool,
}

pub open spec fn format_failed_status() -> Seq<char> {
    "JSON 格式化失败：当前文本不是有效 JSON"@
}

pub open spec fn format_done_status() -> Seq<char> {
    "JSON 已格式化；第一版不会从文本回写任意 NBT"@
}

/// Reformats the editor's text as pretty-printed JSON. Text that is not
/// JSON leaves the document as it is; otherwise the document takes the
/// pretty-printed text (or the printing error as a JSON object) and is
/// marked dirty. Returns the status to show.
pub fn format_editor_document(doc: &mut EditorDocument, editor_text: &str) -> (status: &'static str)
    ensures
        match json_pretty_outcome(editor_text@) {
            None => *final(doc) == *old(doc) && status@ == format_failed_status(),
            Some(printed) => final(doc).dirty && final(doc).text@ == spec_pretty_json(printed)
                && status@ == format_done_status(),
        },
{
    match pretty_json_text(editor_text) {
        None => "JSON 格式化失败：当前文本不是有效 JSON",
        Some(printed) => {
            doc.text = pretty_json(printed);
            doc.dirty = true;
            "JSON 已格式化；第一版不会从文本回写任意 NBT"
        },
    }
}

} // verus!
