use vstd::prelude::*;

use crate::text::{decimal, join, lemma_join_lists_every_row, push_decimal, push_joined, separated};

verus! {

/// The `ocr` tool: recognizes the text of one window and answers with each
/// line and its center in the window's screenshot pixels.
pub struct OcrTool;

/// What a tool advertises to its callers.
pub struct ToolDef {
    /// The tool's name.
    pub name: String,
    /// What the tool does, for the caller.
    pub description: String,
    /// The JSON Schema of the tool's arguments, as JSON text.
    pub input_schema: String,
    /// The tool does not change its environment.
    pub read_only: bool,
    /// The tool may destroy data.
    pub destructive: bool,
    /// Calling the tool again with the same arguments has no further effect.
    pub idempotent: bool,
    /// The tool reaches outside the local machine.
    pub open_world: bool,
}

/// The name under which the tool is advertised.
pub const OCR_NAME: &'static str = "ocr";

/// The description the tool advertises.
pub const OCR_DESCRIPTION: &'static str = "Recognize on-screen text in one window with Apple Vision, on-device. \
     Returns each text line with a center in window-local screenshot pixels \u{2014} the same \
     frame `get_window_state` returns and `click` consumes, so a recognized line is \
     directly clickable. Detects the script automatically, including CJK, so leave \
     `languages` unset unless you need to restrict recognition.\n\n\
     Use it when a surface has no usable Accessibility coverage: canvas, custom-drawn \
     views, games, or an image of text. The AX tree in `get_window_state` stays the \
     first choice \u{2014} it carries roles, values, and actions that OCR cannot see.";

/// The JSON Schema of the tool's arguments, as JSON text: an object with a
/// required integer `window_id`, an optional integer `pid` and an optional
/// array of string `languages`, and nothing else.
pub const OCR_INPUT_SCHEMA: &'static str = "{\"type\":\"object\",\"required\":[\"window_id\"],\"properties\":{\
     \"window_id\":{\"type\":\"integer\",\"description\":\"CGWindowID from list_windows.\"},\
     \"pid\":{\"type\":\"integer\",\"description\":\"Target pid \u{2014} pass it back to click along with a returned center.\"},\
     \"languages\":{\"type\":\"array\",\"items\":{\"type\":\"string\"},\"description\":\"Optional BCP-47 hints, e.g. [\\\"ja\\\"]. Omit this to let Vision detect the script, which is the better default: a hint list restricts recognition to those languages and silently drops text in any other script.\"}},\
     \"additionalProperties\":false}";

impl OcrTool {
    /// The tool's definition: named `ocr`, read-only, not destructive,
    /// idempotent and confined to the local machine.
    pub fn def(&self) -> (d: ToolDef)
        ensures
            d.name@ == OCR_NAME@,
            d.description@ == OCR_DESCRIPTION@,
            d.input_schema@ == OCR_INPUT_SCHEMA@,
            d.read_only,
            !d.destructive,
            d.idempotent,
            !d.open_world,
    {
        ToolDef {
            name: String::from_str(OCR_NAME),
            description: String::from_str(OCR_DESCRIPTION),
            input_schema: String::from_str(OCR_INPUT_SCHEMA),
            read_only: true,
            destructive: false,
            idempotent: true,
            open_world: false,
        }
    }
}


/// How a recognition of a window ended.
pub enum OcrOutcome {
    /// The window was captured and recognized. `rows` holds one rendered row
    /// per recognized line (its center, its text and its confidence), in the
    /// recognizer's order; `width` and `height` are the screenshot's size in
    /// pixels.
    Recognized { rows: Vec<String>, width: u32, height: u32 },
    /// The capture or the recognition failed with this message.
    Failed(String),
    /// The task that ran the capture and the recognition did not finish; this
    /// is its error.
    Interrupted(String),
}

/// The tool's answer to one call.
pub struct OcrReply {
    /// The text shown to the caller.
    pub text: String,
    /// Whether the call failed.
    pub is_error: bool,
}

/// The window and the screenshot's size, as the summary states them.
pub open spec fn window_clause(window_id: u32, width: u32, height: u32) -> Seq<char> {
    " in window "@ + decimal(window_id as nat) + " ("@ + decimal(width as nat) + "\u{d7}"@
        + decimal(height as nat) + " px)"@
}

/// The summary of a successful recognition: it says that no text was found
/// when there are no rows, and otherwise gives the number of lines, says in
/// which frame their centers are, and lists the rows one per line.
pub open spec fn summary(window_id: u32, width: u32, height: u32, rows: Seq<Seq<char>>) -> Seq<
    char,
> {
    if rows.len() == 0 {
        "OCR found no text"@ + window_clause(window_id, width, height) + "."@
    } else {
        "OCR found "@ + decimal(rows.len()) + " line(s)"@ + window_clause(window_id, width, height)
            + ". Centers are window-local screenshot pixels \u{2014} pass one to click(pid, window_id, x, y).\n"@
            + join(rows, "\n"@)
    }
}

/// The text of the reply to a call on `window_id` that ended in `outcome`.
pub open spec fn reply_text(window_id: u32, outcome: OcrOutcome) -> Seq<char> {
    match outcome {
        OcrOutcome::Recognized { rows, width, height } => summary(
            window_id,
            width,
            height,
            rows.deep_view(),
        ),
        OcrOutcome::Failed(e) => "OCR failed: "@ + e@,
        OcrOutcome::Interrupted(e) => "Task error: "@ + e@,
    }
}

fn push_window_clause(out: &mut String, window_id: u32, width: u32, height: u32)
    ensures
        final(out)@ == old(out)@ + window_clause(window_id, width, height),
{
    let ghost start = out@;
    out.append(" in window ");
    push_decimal(out, window_id as u64);
    out.append(" (");
    push_decimal(out, width as u64);
    out.append("\u{d7}");
    push_decimal(out, height as u64);
    out.append(" px)");
    assert(out@ =~= start + window_clause(window_id, width, height));
}

impl OcrTool {
    /// The reply to a call on `window_id` that ended in `outcome`: the summary
    /// of the lines for a recognition, which is no error, and the message of
    /// the failure, marked as an error, otherwise.
    ///
    /// Said directly of the outcome: a recognition with no rows answers that
    /// no text was found; one with rows answers with the decimal count of the
    /// rows, the window and the screenshot's size, and then lists every row in
    /// order, each after a line break; a failure answers with its message.
    pub fn reply(&self, window_id: u32, outcome: OcrOutcome) -> (r: OcrReply)
        ensures
            r.text@ == reply_text(window_id, outcome),
            r.is_error == !(outcome is Recognized),
            outcome matches OcrOutcome::Recognized { rows, width, height } ==> {
                if rows@.len() == 0 {
                    r.text@ == "OCR found no text"@ + " in window "@ + decimal(window_id as nat)
                        + " ("@ + decimal(width as nat) + "\u{d7}"@ + decimal(height as nat)
                        + " px)"@ + "."@
                } else {
                    r.text@ == "OCR found "@ + decimal(rows@.len()) + " line(s)"@ + " in window "@
                        + decimal(window_id as nat) + " ("@ + decimal(width as nat) + "\u{d7}"@
                        + decimal(height as nat) + " px)"@
                        + ". Centers are window-local screenshot pixels \u{2014} pass one to click(pid, window_id, x, y).\n"@
                        + separated(rows.deep_view(), "\n"@).flatten()
                }
            },
            outcome matches OcrOutcome::Failed(e) ==> r.text@ == "OCR failed: "@ + e@,
            outcome matches OcrOutcome::Interrupted(e) ==> r.text@ == "Task error: "@ + e@,
    {
        match outcome {
            OcrOutcome::Recognized { rows, width, height } => {
                let mut text = String::new();
                if rows.len() == 0 {
                    text.append("OCR found no text");
                    push_window_clause(&mut text, window_id, width, height);
                    text.append(".");
                } else {
                    text.append("OCR found ");
                    push_decimal(&mut text, rows.len() as u64);
                    text.append(" line(s)");
                    push_window_clause(&mut text, window_id, width, height);
                    text.append(
                        ". Centers are window-local screenshot pixels \u{2014} pass one to click(pid, window_id, x, y).\n",
                    );
                    push_joined(&mut text, &rows, "\n");
                }
                proof {
                    assert(text@ =~= summary(window_id, width, height, rows.deep_view()));
                    lemma_join_lists_every_row(rows.deep_view(), "\n"@);
                    if rows@.len() == 0 {
                        assert(text@ =~= "OCR found no text"@ + " in window "@ + decimal(
                            window_id as nat,
                        ) + " ("@ + decimal(width as nat) + "\u{d7}"@ + decimal(height as nat)
                            + " px)"@ + "."@);
                    } else {
                        assert(text@ =~= "OCR found "@ + decimal(rows@.len()) + " line(s)"@
                            + " in window "@ + decimal(window_id as nat) + " ("@ + decimal(
                            width as nat,
                        ) + "\u{d7}"@ + decimal(height as nat) + " px)"@
                            + ". Centers are window-local screenshot pixels \u{2014} pass one to click(pid, window_id, x, y).\n"@
                            + separated(rows.deep_view(), "\n"@).flatten());
                    }
                }
                OcrReply { text, is_error: false }
            },
            OcrOutcome::Failed(e) => {
                let text = String::from_str("OCR failed: ").concat(e.as_str());
                OcrReply { text, is_error: true }
            },
            OcrOutcome::Interrupted(e) => {
                let text = String::from_str("Task error: ").concat(e.as_str());
                OcrReply { text, is_error: true }
            },
        }
    }
}

} // verus!
