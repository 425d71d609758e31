use siet::arguments::{Arguments, Source};
use siet::io::{is_whitespace, load, File};

fn lines(content: &str) -> Vec<String> {
    File::read_lines(content)
}

fn arguments(password: Option<&str>, passwords: Option<&str>) -> Arguments {
    Arguments {
        host: String::from("10.0.0.5"),
        port: 22,
        username: String::from("svc"),
        password: password.map(String::from),
        passwords: passwords.map(String::from),
        verbose: false,
        output: String::from("output"),
    }
}

#[test]
fn lines_of_an_empty_text() {
    assert!(lines("").is_empty());
}

#[test]
fn lines_without_a_final_line_feed() {
    assert_eq!(lines("a\nb"), vec!["a", "b"]);
    assert_eq!(lines("single"), vec!["single"]);
}

#[test]
fn lines_with_a_final_line_feed() {
    assert_eq!(lines("a\nb\n"), vec!["a", "b"]);
    assert_eq!(lines("\n"), vec![""]);
}

#[test]
fn empty_lines_are_kept() {
    assert_eq!(lines("a\n\nb\n\n"), vec!["a", "", "b", ""]);
}

#[test]
fn white_space_at_the_end_of_a_line_is_trimmed() {
    assert_eq!(lines("a  \nb\t\r\nc \t "), vec!["a", "b", "c"]);
    assert_eq!(lines("  \n"), vec![""]);
    assert_eq!(lines("a\n  "), vec!["a", ""]);
    assert_eq!(lines("pass\u{3000}\u{a0}\n"), vec!["pass"]);
}

#[test]
fn white_space_inside_and_before_a_line_is_kept() {
    assert_eq!(lines("  a b  c \n\td\n"), vec!["  a b  c", "\td"]);
}

#[test]
fn lines_agree_with_the_standard_library() {
    let texts = [
        "",
        "\n",
        "\r\n",
        "a",
        "a\r\nb\r\n",
        "p@ss word \n\n  x\u{2003}\n\u{1680}",
        "naïve\u{85}\nπ \u{200a}\n\u{200b}\n",
        "a\rb\r\n",
    ];
    for text in texts {
        let expected: Vec<String> = text.lines().map(|l| l.trim_end().to_string()).collect();
        assert_eq!(lines(text), expected);
    }
}

#[test]
fn white_space_characters() {
    for c in [' ', '\t', '\n', '\u{b}', '\u{c}', '\r', '\u{85}', '\u{a0}', '\u{1680}', '\u{2000}',
        '\u{2005}', '\u{200a}', '\u{2028}', '\u{2029}', '\u{202f}', '\u{205f}', '\u{3000}']
    {
        assert!(is_whitespace(c));
    }
    for c in ['a', '0', '\u{8}', '\u{e}', '\u{84}', '\u{86}', '\u{1fff}', '\u{200b}', '\u{feff}',
        '\u{3001}', '\0']
    {
        assert!(!is_whitespace(c));
    }
}

#[test]
fn white_space_agrees_with_the_standard_library() {
    for code in 0..0x3100u32 {
        if let Some(c) = char::from_u32(code) {
            assert_eq!(is_whitespace(c), c.is_whitespace());
        }
    }
}

#[test]
fn load_of_a_missing_file_is_empty() {
    assert!(load(None).is_empty());
}

#[test]
fn load_gives_the_lines_of_the_content() {
    assert_eq!(
        load(Some(String::from("123456\npassword \nqwerty\n"))),
        vec!["123456", "password", "qwerty"]
    );
    assert!(load(Some(String::new())).is_empty());
}

#[test]
fn a_path_that_leads_nowhere() {
    let path = String::from("/nonexistent/siet/candidates.txt");
    assert!(!File::is_present(&path));
    assert!(!File::is_file(&path));
}

#[test]
fn a_directory_is_present_but_no_file() {
    let path = String::from("/");
    assert!(File::is_present(&path));
    assert!(!File::is_file(&path));
}

#[test]
fn source_of_the_passwords() {
    assert_eq!(arguments(Some("pw"), None).source(), Source::Password);
    assert_eq!(
        arguments(None, Some("list.txt")).source(),
        Source::CandidateFile
    );
    assert_eq!(
        arguments(Some("pw"), Some("list.txt")).source(),
        Source::Password
    );
    assert_eq!(arguments(None, None).source(), Source::Missing);
    assert_eq!(arguments(Some(""), None).source(), Source::Password);
}
