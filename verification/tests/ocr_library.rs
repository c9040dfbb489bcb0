use cua_driver_ocr::languages::{language_hints, language_mode, LanguageMode};
use cua_driver_ocr::lines::select_lines;
use cua_driver_ocr::text::{is_blank, push_decimal, push_joined};
use cua_driver_ocr::tool::{OcrOutcome, OcrTool, OCR_DESCRIPTION, OCR_INPUT_SCHEMA, OCR_NAME};

fn decimal(n: u64) -> String {
    let mut s = String::new();
    push_decimal(&mut s, n);
    s
}

fn strings(v: &[&str]) -> Vec<String> {
    v.iter().map(|s| s.to_string()).collect()
}

#[test]
fn decimal_of_small_and_large_numbers() {
    assert_eq!(decimal(0), "0");
    assert_eq!(decimal(7), "7");
    assert_eq!(decimal(10), "10");
    assert_eq!(decimal(1000), "1000");
    assert_eq!(decimal(4294967295), "4294967295");
    assert_eq!(decimal(u64::MAX), "18446744073709551615");
}

#[test]
fn decimal_appends_to_what_is_there() {
    let mut s = String::from("id=");
    push_decimal(&mut s, 42);
    assert_eq!(s, "id=42");
}

#[test]
fn joined_rows_have_one_separator_between_each_two() {
    let mut s = String::from(">");
    push_joined(&mut s, &strings(&["a", "b", "c"]), "\n");
    assert_eq!(s, ">a\nb\nc");

    let mut one = String::new();
    push_joined(&mut one, &strings(&["only"]), ", ");
    assert_eq!(one, "only");

    let mut none = String::from("x");
    push_joined(&mut none, &Vec::new(), ", ");
    assert_eq!(none, "x");
}

#[test]
fn blank_means_nothing_but_white_space() {
    assert!(is_blank(""));
    assert!(is_blank(" "));
    assert!(is_blank(" \t\r\n "));
    assert!(is_blank("\u{3000}\u{a0}\u{2028}"));
    assert!(!is_blank("a"));
    assert!(!is_blank("  x  "));
    assert!(!is_blank("設定"));
}

#[test]
fn white_space_is_the_unicode_white_space_set() {
    assert!(is_blank("\u{9}\u{a}\u{b}\u{c}\u{d}\u{20}\u{85}\u{a0}\u{1680}"));
    assert!(is_blank("\u{2000}\u{2005}\u{200a}\u{2028}\u{2029}\u{202f}\u{205f}\u{3000}"));
    assert!(!is_blank("\u{200b}"));
    assert!(!is_blank("\u{180e}"));
    assert!(!is_blank("\u{feff}"));
    assert!(!is_blank("\u{8}"));
}

#[test]
fn select_lines_drops_missing_and_blank_candidates_in_order() {
    let tops = vec![
        None,
        Some(" ".to_string()),
        Some("TOPLINE ALPHA".to_string()),
        Some(String::new()),
        Some("\t\n".to_string()),
        Some(" BOTTOMLINE OMEGA ".to_string()),
        None,
    ];
    assert_eq!(select_lines(&tops), vec![2, 5]);
}

#[test]
fn select_lines_keeps_every_non_blank_candidate() {
    let tops = vec![
        Some("設定を開く".to_string()),
        Some("Hello World".to_string()),
        Some("한국어 테스트".to_string()),
    ];
    assert_eq!(select_lines(&tops), vec![0, 1, 2]);
    assert_eq!(select_lines(&Vec::new()), Vec::<usize>::new());
}

#[test]
fn language_hints_keep_only_the_strings_in_order() {
    assert_eq!(language_hints(None), Vec::<String>::new());
    assert_eq!(language_hints(Some(Vec::new())), Vec::<String>::new());
    let items = vec![Some("ja".to_string()), None, Some("en-US".to_string()), None];
    assert_eq!(language_hints(Some(items)), strings(&["ja", "en-US"]));
}

#[test]
fn no_hints_mean_automatic_detection() {
    assert!(matches!(language_mode(&[]), LanguageMode::AutoDetect));
}

#[test]
fn hints_restrict_recognition_to_exactly_them() {
    match language_mode(&["zh-Hans", "en-US"]) {
        LanguageMode::Restrict(v) => assert_eq!(v, strings(&["zh-Hans", "en-US"])),
        LanguageMode::AutoDetect => panic!("hints were ignored"),
    }
}

#[test]
fn definition_is_a_read_only_local_tool() {
    let d = OcrTool.def();
    assert_eq!(d.name, "ocr");
    assert_eq!(d.name, OCR_NAME);
    assert!(d.read_only);
    assert!(!d.destructive);
    assert!(d.idempotent);
    assert!(!d.open_world);
    assert_eq!(d.description, OCR_DESCRIPTION);
    assert!(d.description.starts_with(
        "Recognize on-screen text in one window with Apple Vision, on-device. Returns each text line"
    ));
    assert!(d.description.contains("restrict recognition.\n\nUse it when a surface"));
    assert!(d.description.ends_with("actions that OCR cannot see."));
}

#[test]
fn input_schema_requires_a_window_id_and_nothing_unknown() {
    let d = OcrTool.def();
    assert_eq!(d.input_schema, OCR_INPUT_SCHEMA);
    let schema: serde_json::Value = serde_json::from_str(&d.input_schema).unwrap();
    assert_eq!(schema["type"], "object");
    assert_eq!(schema["required"].as_array().unwrap().len(), 1);
    assert_eq!(schema["required"][0], "window_id");
    assert_eq!(schema["properties"]["window_id"]["type"], "integer");
    assert_eq!(schema["properties"]["pid"]["type"], "integer");
    assert_eq!(schema["properties"]["languages"]["type"], "array");
    assert_eq!(schema["properties"]["languages"]["items"]["type"], "string");
    assert_eq!(schema["additionalProperties"], false);
    assert!(schema["properties"]["languages"]["description"]
        .as_str()
        .unwrap()
        .starts_with("Optional BCP-47 hints, e.g. [\"ja\"]."));
}

#[test]
fn reply_to_an_empty_recognition_says_no_text() {
    let r = OcrTool.reply(
        7,
        OcrOutcome::Recognized { rows: Vec::new(), width: 800, height: 600 },
    );
    assert_eq!(r.text, "OCR found no text in window 7 (800×600 px).");
    assert!(!r.is_error);
}

#[test]
fn reply_to_a_recognition_counts_and_lists_the_lines() {
    let rows = strings(&["(250,450) \"TOPLINE\"  conf=0.50", "(400,300) \"BOTTOM\"  conf=1.00"]);
    let r = OcrTool.reply(
        4242,
        OcrOutcome::Recognized { rows, width: 1000, height: 500 },
    );
    assert_eq!(
        r.text,
        "OCR found 2 line(s) in window 4242 (1000×500 px). Centers are window-local screenshot \
         pixels — pass one to click(pid, window_id, x, y).\n\
         (250,450) \"TOPLINE\"  conf=0.50\n(400,300) \"BOTTOM\"  conf=1.00"
    );
    assert!(!r.is_error);
}

#[test]
fn reply_to_a_single_line() {
    let r = OcrTool.reply(
        0,
        OcrOutcome::Recognized { rows: strings(&["row"]), width: 1, height: 2 },
    );
    assert_eq!(
        r.text,
        "OCR found 1 line(s) in window 0 (1×2 px). Centers are window-local screenshot \
         pixels — pass one to click(pid, window_id, x, y).\nrow"
    );
}

#[test]
fn reply_to_a_failure_is_an_error_with_its_message() {
    let r = OcrTool.reply(1, OcrOutcome::Failed("OCR is not supported on this platform".to_string()));
    assert_eq!(r.text, "OCR failed: OCR is not supported on this platform");
    assert!(r.is_error);
}

#[test]
fn reply_to_an_interrupted_task_is_an_error() {
    let r = OcrTool.reply(1, OcrOutcome::Interrupted("task 3 panicked".to_string()));
    assert_eq!(r.text, "Task error: task 3 panicked");
    assert!(r.is_error);
}
