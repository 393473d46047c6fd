use nullptr_injector::platform::{Architecture, PointerWidth};
use nullptr_injector::process::ProcessRecord;
use nullptr_injector::resolver::{
    names_match, parse_process_id, resolve, SelectionMethod, TargetError,
};

fn record(process_id: u32, name: &str) -> ProcessRecord {
    ProcessRecord::new(process_id, name, Architecture::X64, PointerWidth::Bits64)
}

fn by_name(name: &str) -> SelectionMethod {
    SelectionMethod::ByProcessName(name.to_string())
}

fn by_text(text: &str) -> SelectionMethod {
    SelectionMethod::ByPIDInput(text.to_string())
}

#[test]
fn parse_plain_numbers() {
    assert_eq!(parse_process_id("0"), Some(0));
    assert_eq!(parse_process_id("7"), Some(7));
    assert_eq!(parse_process_id("42"), Some(42));
    assert_eq!(parse_process_id("1234567890"), Some(1234567890));
}

#[test]
fn parse_accepts_a_leading_plus() {
    assert_eq!(parse_process_id("+7"), Some(7));
    assert_eq!(parse_process_id("+0"), Some(0));
}

#[test]
fn parse_accepts_leading_zeros() {
    assert_eq!(parse_process_id("007"), Some(7));
    assert_eq!(parse_process_id("0000000000000000000001"), Some(1));
}

#[test]
fn parse_largest_id() {
    assert_eq!(parse_process_id("4294967295"), Some(u32::MAX));
}

#[test]
fn parse_rejects_what_does_not_fit() {
    assert_eq!(parse_process_id("4294967296"), None);
    assert_eq!(parse_process_id("4294967300"), None);
    assert_eq!(parse_process_id("42949672950"), None);
    assert_eq!(parse_process_id("99999999999999999999999999"), None);
}

#[test]
fn parse_rejects_empty_text_and_bare_sign() {
    assert_eq!(parse_process_id(""), None);
    assert_eq!(parse_process_id("+"), None);
    assert_eq!(parse_process_id("-"), None);
}

#[test]
fn parse_rejects_negative_numbers() {
    assert_eq!(parse_process_id("-1"), None);
    assert_eq!(parse_process_id("-0"), None);
}

#[test]
fn parse_rejects_blanks() {
    assert_eq!(parse_process_id(" 42"), None);
    assert_eq!(parse_process_id("42 "), None);
    assert_eq!(parse_process_id("4 2"), None);
    assert_eq!(parse_process_id("42\n"), None);
}

#[test]
fn parse_rejects_other_characters() {
    assert_eq!(parse_process_id("12a"), None);
    assert_eq!(parse_process_id("a12"), None);
    assert_eq!(parse_process_id("0x10"), None);
    assert_eq!(parse_process_id("1_000"), None);
    assert_eq!(parse_process_id("1.0"), None);
    assert_eq!(parse_process_id("++1"), None);
    assert_eq!(parse_process_id("1+"), None);
    assert_eq!(parse_process_id("notepad"), None);
}

#[test]
fn parse_rejects_digits_of_other_scripts() {
    assert_eq!(parse_process_id("\u{ff11}\u{ff12}"), None);
    assert_eq!(parse_process_id("\u{0661}"), None);
}

#[test]
fn parse_agrees_with_std_on_samples() {
    let samples = [
        "", "0", "1", "+1", "-1", "10", "010", "4294967295", "4294967296", "18446744073709551616",
        "12ab", "+", "++", " 1", "1 ", "65535", "+4294967295", "+4294967296",
    ];
    for text in samples {
        assert_eq!(parse_process_id(text), text.parse::<u32>().ok(), "text {:?}", text);
    }
}

#[test]
fn names_match_ignores_latin_letter_case() {
    assert!(names_match("notepad.exe", "notepad.exe"));
    assert!(names_match("Notepad.EXE", "notepad.exe"));
    assert!(names_match("NOTEPAD", "notepad"));
    assert!(names_match("", ""));
}

#[test]
fn names_match_is_exact_otherwise() {
    assert!(!names_match("notepad", "notepad.exe"));
    assert!(!names_match("notepad.exe", "notepad"));
    assert!(!names_match("notepad", "notepod"));
    assert!(!names_match("notepad", ""));
    assert!(!names_match("note pad", "notepad"));
    assert!(!names_match("[", "{"));
    assert!(!names_match("@", "`"));
}

#[test]
fn names_match_leaves_other_alphabets_alone() {
    assert!(names_match("\u{e9}", "\u{e9}"));
    assert!(!names_match("\u{c9}", "\u{e9}"));
}

#[test]
fn names_match_agrees_with_std_on_samples() {
    let samples = ["", "a", "A", "z", "Z", "[", "{", "@", "`", "aB", "Ab", "ab ", "\u{e9}", "\u{c9}"];
    for a in samples {
        for b in samples {
            assert_eq!(names_match(a, b), a.eq_ignore_ascii_case(b), "{:?} and {:?}", a, b);
        }
    }
}

#[test]
fn by_id_finds_the_process() {
    let snapshot = vec![record(4, "System"), record(100, "notepad"), record(200, "calc")];
    assert_eq!(resolve(&SelectionMethod::ByPID(100), &snapshot), Ok(record(100, "notepad")));
    assert_eq!(resolve(&SelectionMethod::ByPID(4), &snapshot), Ok(record(4, "System")));
    assert_eq!(resolve(&SelectionMethod::ByPID(200), &snapshot), Ok(record(200, "calc")));
}

#[test]
fn by_id_of_no_live_process_is_not_found() {
    let snapshot = vec![record(4, "System"), record(100, "notepad")];
    for id in [0, 1, 5, 99, 101, u32::MAX] {
        assert_eq!(resolve(&SelectionMethod::ByPID(id), &snapshot), Err(TargetError::NotFound));
    }
}

#[test]
fn nothing_resolves_in_an_empty_snapshot() {
    assert_eq!(resolve(&SelectionMethod::ByPID(1), &[]), Err(TargetError::NotFound));
    assert_eq!(resolve(&by_text("1"), &[]), Err(TargetError::NotFound));
    assert_eq!(resolve(&by_name("notepad"), &[]), Err(TargetError::NotFound));
}

#[test]
fn by_id_takes_the_first_of_equal_ids() {
    let snapshot = vec![record(9, "other"), record(7, "earlier"), record(7, "later")];
    assert_eq!(resolve(&SelectionMethod::ByPID(7), &snapshot), Ok(record(7, "earlier")));
}

#[test]
fn by_text_resolves_as_the_id_it_spells() {
    let snapshot = vec![record(100, "notepad"), record(200, "calc")];
    assert_eq!(resolve(&by_text("200"), &snapshot), Ok(record(200, "calc")));
    assert_eq!(resolve(&by_text("+100"), &snapshot), Ok(record(100, "notepad")));
    assert_eq!(resolve(&by_text("0200"), &snapshot), Ok(record(200, "calc")));
    assert_eq!(resolve(&by_text("300"), &snapshot), Err(TargetError::NotFound));
}

#[test]
fn by_text_that_is_no_number_is_invalid_input() {
    let snapshot = vec![record(100, "notepad"), record(200, "calc")];
    for text in ["", "abc", "-1", "1.5", " 100", "100 ", "4294967296", "0x64"] {
        assert_eq!(resolve(&by_text(text), &snapshot), Err(TargetError::InvalidInput));
    }
}

#[test]
fn by_text_never_falls_back_to_the_name() {
    // A process bears the very text as its name: the text is still refused.
    let snapshot = vec![record(100, "notepad"), record(200, "12a")];
    assert_eq!(resolve(&by_text("notepad"), &snapshot), Err(TargetError::InvalidInput));
    assert_eq!(resolve(&by_text("12a"), &snapshot), Err(TargetError::InvalidInput));
    // And a name made of digits is looked up as an id only.
    let snapshot = vec![record(100, "200")];
    assert_eq!(resolve(&by_text("200"), &snapshot), Err(TargetError::NotFound));
}

#[test]
fn by_name_finds_the_process() {
    let snapshot = vec![record(4, "System"), record(100, "notepad"), record(200, "calc")];
    assert_eq!(resolve(&by_name("calc"), &snapshot), Ok(record(200, "calc")));
    assert_eq!(resolve(&by_name("system"), &snapshot), Ok(record(4, "System")));
    assert_eq!(resolve(&by_name("NOTEPAD"), &snapshot), Ok(record(100, "notepad")));
}

#[test]
fn by_name_without_a_match_is_not_found() {
    let snapshot = vec![record(4, "System"), record(100, "notepad.exe")];
    assert_eq!(resolve(&by_name("notepad"), &snapshot), Err(TargetError::NotFound));
    assert_eq!(resolve(&by_name("note"), &snapshot), Err(TargetError::NotFound));
    assert_eq!(resolve(&by_name(""), &snapshot), Err(TargetError::NotFound));
    assert_eq!(resolve(&by_name("100"), &snapshot), Err(TargetError::NotFound));
}

#[test]
fn by_name_of_two_notepads_takes_the_lower_id() {
    let snapshot = vec![record(100, "notepad"), record(200, "notepad")];
    assert_eq!(resolve(&by_name("notepad"), &snapshot), Ok(record(100, "notepad")));
}

#[test]
fn by_name_takes_the_lower_id_whatever_the_order() {
    let snapshot = vec![record(200, "notepad"), record(100, "notepad")];
    assert_eq!(resolve(&by_name("notepad"), &snapshot), Ok(record(100, "notepad")));
    let snapshot = vec![
        record(500, "Notepad"),
        record(3, "calc"),
        record(300, "NOTEPAD"),
        record(400, "notepad"),
        record(1, "cmd"),
    ];
    assert_eq!(resolve(&by_name("notepad"), &snapshot), Ok(record(300, "NOTEPAD")));
}

#[test]
fn by_name_is_the_same_on_every_call() {
    let snapshot = vec![record(200, "notepad"), record(100, "notepad"), record(150, "notepad")];
    let first = resolve(&by_name("notepad"), &snapshot);
    for _ in 0..5 {
        assert_eq!(resolve(&by_name("notepad"), &snapshot), first);
    }
    assert_eq!(first, Ok(record(100, "notepad")));
}

#[test]
fn by_name_takes_the_first_of_equal_lowest_ids() {
    let snapshot = vec![record(9, "app"), record(5, "App"), record(5, "APP")];
    assert_eq!(resolve(&by_name("app"), &snapshot), Ok(record(5, "App")));
}

#[test]
fn by_name_never_reports_an_ambiguous_match() {
    let snapshot = vec![record(1, "a"), record(2, "a"), record(3, "a")];
    assert_ne!(resolve(&by_name("a"), &snapshot), Err(TargetError::AmbiguousMatch));
    assert_eq!(resolve(&by_name("a"), &snapshot), Ok(record(1, "a")));
}

#[test]
fn resolved_record_keeps_its_platform() {
    let snapshot = vec![
        ProcessRecord::new(8, "old", Architecture::X86, PointerWidth::Bits32),
        ProcessRecord::new(9, "new", Architecture::Arm64, PointerWidth::Bits64),
    ];
    let found = resolve(&SelectionMethod::ByPID(8), &snapshot).unwrap();
    assert_eq!(found.architecture, Architecture::X86);
    assert_eq!(found.pointer_width, PointerWidth::Bits32);
    let found = resolve(&by_name("NEW"), &snapshot).unwrap();
    assert_eq!(found.architecture, Architecture::Arm64);
    assert_eq!(found.pointer_width, PointerWidth::Bits64);
}

#[test]
fn resolution_does_not_depend_on_the_order() {
    let records = [record(30, "calc"), record(10, "Notepad"), record(20, "notepad"), record(40, "cmd")];
    let orders: [[usize; 4]; 6] =
        [[0, 1, 2, 3], [3, 2, 1, 0], [1, 0, 3, 2], [2, 3, 0, 1], [1, 2, 3, 0], [3, 0, 2, 1]];
    let methods = [
        SelectionMethod::ByPID(20),
        SelectionMethod::ByPID(50),
        by_text("40"),
        by_text("forty"),
        by_name("notepad"),
        by_name("CALC"),
        by_name("explorer"),
    ];
    for method in &methods {
        let expected = resolve(method, &records);
        for order in orders {
            let snapshot: Vec<ProcessRecord> = order.iter().map(|&i| records[i].clone()).collect();
            assert_eq!(resolve(method, &snapshot), expected, "{:?} in order {:?}", method, order);
        }
    }
    assert_eq!(resolve(&by_name("notepad"), &records), Ok(record(10, "Notepad")));
}
