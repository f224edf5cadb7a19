use resource_monitor::cgroup::{parse_usize, read_file_usize, LIMIT_PATH, USAGE_PATH};
use resource_monitor::ErrorKind;

fn expected(contents: &str) -> Option<usize> {
    contents.trim().parse::<usize>().ok()
}

#[test]
fn accounting_files_are_where_the_kernel_puts_them() {
    assert_eq!(LIMIT_PATH, "/sys/fs/cgroup/memory/memory.limit_in_bytes");
    assert_eq!(USAGE_PATH, "/sys/fs/cgroup/memory/memory.usage_in_bytes");
}

#[test]
fn a_line_of_digits_is_its_number() {
    assert_eq!(parse_usize("0\n"), Some(0));
    assert_eq!(parse_usize("7\n"), Some(7));
    assert_eq!(parse_usize("1000000000\n"), Some(1_000_000_000));
    assert_eq!(parse_usize("400000000"), Some(400_000_000));
    assert_eq!(parse_usize("007"), Some(7));
    assert_eq!(parse_usize("0000000000000000000000000000000000000012"), Some(12));
}

#[test]
fn whitespace_at_both_ends_is_dropped() {
    assert_eq!(parse_usize("  42  "), Some(42));
    assert_eq!(parse_usize("\t\r\n42\n\n"), Some(42));
    assert_eq!(parse_usize("\u{b}\u{c}42"), Some(42));
    assert_eq!(parse_usize("\u{a0}42\u{3000}"), Some(42));
    assert_eq!(parse_usize("\u{85}\u{1680}\u{2000}\u{200a}42\u{2028}\u{2029}\u{202f}\u{205f}"), Some(42));
}

#[test]
fn a_plus_sign_may_lead() {
    assert_eq!(parse_usize("+5"), Some(5));
    assert_eq!(parse_usize(" +5\n"), Some(5));
    assert_eq!(parse_usize("+0"), Some(0));
    assert_eq!(parse_usize("+"), None);
    assert_eq!(parse_usize("++5"), None);
    assert_eq!(parse_usize("5+"), None);
    assert_eq!(parse_usize("+ 5"), None);
    assert_eq!(parse_usize("+\n"), None);
}

#[test]
fn contents_without_a_number_hold_nothing() {
    assert_eq!(parse_usize(""), None);
    assert_eq!(parse_usize("\n"), None);
    assert_eq!(parse_usize("   \t "), None);
    assert_eq!(parse_usize("max\n"), None);
    assert_eq!(parse_usize("-1"), None);
    assert_eq!(parse_usize("-0"), None);
    assert_eq!(parse_usize("12a"), None);
    assert_eq!(parse_usize("a12"), None);
    assert_eq!(parse_usize("1 2"), None);
    assert_eq!(parse_usize("1\n2\n"), None);
    assert_eq!(parse_usize("1_000"), None);
    assert_eq!(parse_usize("0x10"), None);
    assert_eq!(parse_usize("1.5"), None);
    assert_eq!(parse_usize("1e3"), None);
    assert_eq!(parse_usize("12 kB"), None);
    assert_eq!(parse_usize("\u{661}\u{662}"), None);
    assert_eq!(parse_usize("\u{ff11}"), None);
    assert_eq!(parse_usize("\u{200b}12"), None);
    assert_eq!(parse_usize("12\u{feff}"), None);
    assert_eq!(parse_usize("\u{0}12"), None);
    assert_eq!(parse_usize("/12"), None);
    assert_eq!(parse_usize(":12"), None);
}

#[test]
fn the_largest_count_is_read_and_no_larger_one() {
    let largest = usize::MAX.to_string();
    assert_eq!(parse_usize(&largest), Some(usize::MAX));
    assert_eq!(parse_usize(&format!("{}\n", largest)), Some(usize::MAX));
    assert_eq!(parse_usize(&format!("+000{}", largest)), Some(usize::MAX));
    let beyond = (usize::MAX as u128 + 1).to_string();
    assert_eq!(parse_usize(&beyond), None);
    assert_eq!(parse_usize(&format!("{}0", largest)), None);
    assert_eq!(parse_usize(&format!("{}", u128::MAX)), None);
    assert_eq!(parse_usize(&"9".repeat(200)), None);
    assert_eq!(parse_usize(&format!("{}", usize::MAX - 1)), Some(usize::MAX - 1));
    assert_eq!(parse_usize(&format!("{}", usize::MAX / 10)), Some(usize::MAX / 10));
    assert_eq!(parse_usize(&format!("{}", usize::MAX / 10 + 1)), Some(usize::MAX / 10 + 1));
    assert_eq!(parse_usize(&format!("{}", usize::MAX / 10 * 10)), Some(usize::MAX / 10 * 10));
}

#[test]
fn reading_agrees_with_trim_and_parse() {
    let samples = [
        "", " ", "0", "1", "+1", "-1", "+", "-", "++1", "+-1", "1+", " 1", "1 ", " 1 ", "1 1",
        "\n1\n", "\r\n1\r\n", "\t1", "01", "001", "10", "100", "18446744073709551615",
        "18446744073709551616", "4294967295", "4294967296", "99999999999999999999999",
        "+18446744073709551615", "1a", "a1", "a", "1.0", "1,0", "١", "１", "\u{a0}1\u{a0}",
        "\u{2003}1", "1\u{2003}", "\u{200b}1", "\u{180e}1", "\u{1680}1", "\u{feff}1",
        "9223372036854771712\n", "0\n", " + 1", "+ 1", "1\u{0}", "\u{1f}1", "\u{1c}1", "\u{e}1",
        "\u{8}1", "1\u{7f}", "1\u{2028}", "1\u{2029}", "1\u{202f}", "1\u{205f}", "1\u{3000}",
        "1\u{2060}", "1\u{200a}", "1\u{200b}", "1\u{85}", "1\u{84}", "1\u{86}",
    ];
    for sample in samples {
        assert_eq!(parse_usize(sample), expected(sample), "{:?}", sample);
    }
}

#[test]
fn every_character_is_read_as_trim_and_parse_read_it() {
    let mut text = String::new();
    for code in 0..=0x10FFFFu32 {
        let c = match char::from_u32(code) {
            Some(c) => c,
            None => continue,
        };
        text.clear();
        text.push(c);
        text.push('7');
        text.push(c);
        assert_eq!(parse_usize(&text), expected(&text), "{:?}", text);
    }
}

#[test]
fn every_short_text_of_the_characters_that_matter_is_read_alike() {
    let alphabet = ['0', '1', '9', '+', '-', ' ', '\n', 'x', '\u{a0}'];
    let mut texts: Vec<String> = vec![String::new()];
    let mut first = 0;
    for _ in 0..4 {
        let last = texts.len();
        for i in first..last {
            for c in alphabet {
                let mut longer = texts[i].clone();
                longer.push(c);
                texts.push(longer);
            }
        }
        first = last;
    }
    assert_eq!(texts.len(), 1 + 9 + 81 + 729 + 6561);
    for text in &texts {
        assert_eq!(parse_usize(text), expected(text), "{:?}", text);
    }
}

#[test]
fn a_file_that_could_not_be_read_fails_with_its_path() {
    assert_eq!(
        read_file_usize(LIMIT_PATH, None),
        Err(ErrorKind::File(LIMIT_PATH.to_string()))
    );
    assert_eq!(
        read_file_usize(USAGE_PATH, None),
        Err(ErrorKind::File(USAGE_PATH.to_string()))
    );
    assert_eq!(
        read_file_usize("/no/such/file", None),
        Err(ErrorKind::File("/no/such/file".to_string()))
    );
    assert_eq!(read_file_usize("", None), Err(ErrorKind::File(String::new())));
}

#[test]
fn a_file_without_a_number_fails_with_its_path() {
    for contents in ["", "\n", "max\n", "not a number", "-5\n", "12 34\n", "99999999999999999999999999"] {
        assert_eq!(
            read_file_usize(USAGE_PATH, Some(contents)),
            Err(ErrorKind::File(USAGE_PATH.to_string())),
            "{:?}",
            contents
        );
    }
}

#[test]
fn a_file_with_a_number_gives_it() {
    assert_eq!(read_file_usize(LIMIT_PATH, Some("1000000000\n")), Ok(1_000_000_000));
    assert_eq!(read_file_usize(USAGE_PATH, Some("400000000\n")), Ok(400_000_000));
    assert_eq!(read_file_usize("anywhere", Some(" +17 ")), Ok(17));
    assert_eq!(read_file_usize("", Some("0")), Ok(0));
}
