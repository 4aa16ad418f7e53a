use tsc_explainer::diagnostic::Diagnostic;
use tsc_explainer::extract::{parse_tsc_errors, Extractor, LINE_PATTERN};

fn diagnostic(file_path: &str, line: &str, column: &str, code: &str, message: &str) -> Diagnostic {
    Diagnostic {
        file_path: file_path.to_string(),
        line: line.to_string(),
        column: column.to_string(),
        code: code.to_string(),
        message: message.to_string(),
    }
}

fn extract(raw: &str) -> Vec<Diagnostic> {
    parse_tsc_errors(raw).expect("the line pattern is accepted")
}

#[test]
fn the_line_pattern_is_accepted() {
    assert!(Extractor::new().is_some());
    assert!(parse_tsc_errors("").is_some());
    assert!(regex::Regex::new(LINE_PATTERN).is_ok());
}

#[test]
fn single_error_line() {
    let raw = "src/a.ts(10,5): error TS2322: Type 'string' is not assignable to type 'number'.\n";
    assert_eq!(
        extract(raw),
        vec![diagnostic(
            "src/a.ts",
            "10",
            "5",
            "2322",
            "TS2322: Type 'string' is not assignable to type 'number'.",
        )]
    );
}

#[test]
fn single_error_line_without_line_feed() {
    let raw = "src/a.ts(10,5): error TS2322: Type 'string' is not assignable to type 'number'.";
    let found = extract(raw);
    assert_eq!(found.len(), 1);
    assert_eq!(found[0].file_path, "src/a.ts");
    assert_eq!(
        found[0].message,
        "TS2322: Type 'string' is not assignable to type 'number'."
    );
}

#[test]
fn two_error_lines_and_a_banner() {
    let raw = "src/a.ts(1,2): error TS1005: ';' expected.\n\
               lib/b.tsx(30,41): error TS2304: Cannot find name 'foo'.\n\
               Found 2 errors in 2 files.\n";
    assert_eq!(
        extract(raw),
        vec![
            diagnostic("src/a.ts", "1", "2", "1005", "TS1005: ';' expected."),
            diagnostic("lib/b.tsx", "30", "41", "2304", "TS2304: Cannot find name 'foo'."),
        ]
    );
}

#[test]
fn empty_input_gives_nothing() {
    assert_eq!(extract(""), Vec::<Diagnostic>::new());
}

#[test]
fn only_line_feeds_give_nothing() {
    assert_eq!(extract("\n\n\r\n\n"), Vec::<Diagnostic>::new());
}

#[test]
fn path_and_description_are_kept_as_written() {
    let raw = "C:\\work dir\\\u{e9}t\u{e9}.ts(7,12): error TS2345:   Argument of type '\"a\"'  \t is odd \n";
    assert_eq!(
        extract(raw),
        vec![diagnostic(
            "C:\\work dir\\\u{e9}t\u{e9}.ts",
            "7",
            "12",
            "2345",
            "TS2345:   Argument of type '\"a\"'  \t is odd ",
        )]
    );
}

#[test]
fn an_empty_path_and_an_empty_description_match() {
    assert_eq!(
        extract("(1,1): error TS1: "),
        vec![diagnostic("", "1", "1", "1", "TS1: ")]
    );
}

#[test]
fn long_numbers_are_kept_as_written() {
    let raw = "a.ts(00012345678901234567890123456789,0): error TS007: odd\n";
    assert_eq!(
        extract(raw),
        vec![diagnostic(
            "a.ts",
            "00012345678901234567890123456789",
            "0",
            "007",
            "TS007: odd",
        )]
    );
}

#[test]
fn lines_that_are_no_diagnostics_are_skipped() {
    let banner = "Version 5.4.5\n";
    let blank = "\n";
    let warning = "src/a.ts(1,2): warning TS6133: 'x' is declared but never used.\n";
    let no_code = "src/a.ts(1,2): error: something\n";
    let no_column = "src/a.ts(1): error TS1005: ';' expected.\n";
    let letters = "src/a.ts(one,2): error TS1005: ';' expected.\n";
    let no_space = "src/a.ts(1,2):error TS1005: ';' expected.\n";
    let lower_case = "src/a.ts(1,2): error ts1005: ';' expected.\n";
    for line in [banner, blank, warning, no_code, no_column, letters, no_space, lower_case] {
        assert_eq!(extract(line), Vec::<Diagnostic>::new(), "{}", line);
    }
}

#[test]
fn skipped_lines_do_not_move_the_others() {
    let first = "src/a.ts(1,2): error TS1005: ';' expected.\n";
    let second = "src/b.ts(3,4): error TS2304: Cannot find name 'y'.\n";
    let third = "src/c.ts(5,6): error TS2322: Type mismatch.\n";
    let plain = format!("{}{}{}", first, second, third);
    let noisy = format!(
        "Version 5.4.5\n\n{}    continuation of the first\n{}\nsrc/w.ts(1,1): warning TS1: w\n{}\nFound 3 errors.\n",
        first, second, third
    );
    let expected = vec![
        diagnostic("src/a.ts", "1", "2", "1005", "TS1005: ';' expected."),
        diagnostic("src/b.ts", "3", "4", "2304", "TS2304: Cannot find name 'y'."),
        diagnostic("src/c.ts", "5", "6", "2322", "TS2322: Type mismatch."),
    ];
    assert_eq!(extract(&plain), expected);
    assert_eq!(extract(&noisy), expected);
}

#[test]
fn diagnostics_come_in_the_order_of_their_lines() {
    let mut raw = String::new();
    for index in 0..40 {
        raw.push_str(&format!("f{}.ts({},{}): error TS{}: m{}\n", 39 - index, index, index, index, index));
        if index % 3 == 0 {
            raw.push_str("noise\n");
        }
    }
    let found = extract(&raw);
    assert_eq!(found.len(), 40);
    for (index, one) in found.iter().enumerate() {
        assert_eq!(one.file_path, format!("f{}.ts", 39 - index));
        assert_eq!(one.message, format!("TS{}: m{}", index, index));
    }
}

#[test]
fn equal_lines_are_not_merged() {
    let raw = "a.ts(1,1): error TS1: x\na.ts(1,1): error TS1: x\n";
    let one = diagnostic("a.ts", "1", "1", "1", "TS1: x");
    assert_eq!(extract(raw), vec![one.clone(), one]);
}

#[test]
fn the_parts_extract_as_the_whole() {
    let head = "a.ts(1,1): error TS1: x\nnoise\n";
    let tail = "b.ts(2,2): error TS2: y\nc.ts(3,3): error TS3: z";
    let mut expected = extract(head);
    expected.extend(extract(tail));
    assert_eq!(extract(&format!("{}{}", head, tail)), expected);
}

#[test]
fn extraction_repeats() {
    let raw = "a.ts(1,1): error TS1: x\nnoise\nb.ts(2,2): error TS2: y\n";
    let extractor = Extractor::new().unwrap();
    let first = extractor.extract(raw);
    let second = extractor.extract(raw);
    assert_eq!(first, second);
    assert_eq!(first, extract(raw));
    assert_eq!(first.len(), 2);
}

#[test]
fn carriage_returns_before_line_feeds_are_dropped() {
    let raw = "a.ts(1,1): error TS1: x\r\nb.ts(2,2): error TS2: y\r\n";
    assert_eq!(
        extract(raw),
        vec![
            diagnostic("a.ts", "1", "1", "1", "TS1: x"),
            diagnostic("b.ts", "2", "2", "2", "TS2: y"),
        ]
    );
}

#[test]
fn a_carriage_return_at_the_end_of_the_text_is_kept() {
    assert_eq!(
        extract("a.ts(1,1): error TS1: x\r"),
        vec![diagnostic("a.ts", "1", "1", "1", "TS1: x\r")]
    );
}

#[test]
fn text_before_the_path_belongs_to_the_path() {
    assert_eq!(
        extract("  > src/a.ts(1,2): error TS1005: ';' expected.\n"),
        vec![diagnostic("  > src/a.ts", "1", "2", "1005", "TS1005: ';' expected.")]
    );
}

#[test]
fn the_path_ends_at_the_first_place_where_the_rest_matches() {
    assert_eq!(
        extract("a(1,2): error TS1: b(3,4): error TS2: c\n"),
        vec![diagnostic("a", "1", "2", "1", "TS1: b(3,4): error TS2: c")]
    );
    assert_eq!(
        extract("src/(group)/page.ts(10,5): error TS2322: bad\n"),
        vec![diagnostic("src/(group)/page.ts", "10", "5", "2322", "TS2322: bad")]
    );
}

#[test]
fn one_line_at_a_time() {
    let extractor = Extractor::new().unwrap();
    assert_eq!(
        extractor.extract_line("a.ts(1,2): error TS3: four"),
        Some(diagnostic("a.ts", "1", "2", "3", "TS3: four"))
    );
    assert_eq!(extractor.extract_line("a.ts(1,2): error TS: four"), None);
    assert_eq!(extractor.extract_line(""), None);
}

#[test]
fn groups_make_a_diagnostic_only_when_all_are_there() {
    let text = |s: &str| Some(s.to_string());
    let all = vec![text("p(1,2): error TS3: d"), text("p"), text("1"), text("2"), text("3"), text("d")];
    assert_eq!(
        Diagnostic::from_groups(&all),
        Some(diagnostic("p", "1", "2", "3", "TS3: d"))
    );
    for missing in 1..6 {
        let mut groups = all.clone();
        groups[missing] = None;
        assert_eq!(Diagnostic::from_groups(&groups), None);
    }
    let mut without_whole = all.clone();
    without_whole[0] = None;
    assert_eq!(
        Diagnostic::from_groups(&without_whole),
        Some(diagnostic("p", "1", "2", "3", "TS3: d"))
    );
    assert_eq!(Diagnostic::from_groups(&all[..5].to_vec()), None);
    assert_eq!(Diagnostic::from_groups(&Vec::new()), None);
}

#[test]
fn a_copy_is_equal() {
    let one = diagnostic("p", "1", "2", "3", "TS3: d");
    assert_eq!(one.duplicate(), one);
}
