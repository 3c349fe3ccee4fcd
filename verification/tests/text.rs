use amp::text::{
    chars_of, count_newlines, find_first_word, find_line_end, find_line_start, line_bounds,
    string_of, whitespace,
};

fn chars(s: &str) -> Vec<char> {
    s.chars().collect()
}

fn line_at(s: &str, n: usize) -> Option<String> {
    let text = chars(s);
    line_bounds(&text, n).map(|(from, to)| text[from..to].iter().collect())
}

#[test]
fn whitespace_agrees_with_the_standard_library_on_every_character() {
    for code in 0..=0x10FFFFu32 {
        if let Some(c) = char::from_u32(code) {
            assert_eq!(whitespace(c), c.is_whitespace(), "U+{:04X}", code);
        }
    }
}

#[test]
fn chars_and_strings_convert_both_ways() {
    assert_eq!(chars_of("amp é\n"), vec!['a', 'm', 'p', ' ', 'é', '\n']);
    assert_eq!(chars_of(""), Vec::<char>::new());
    assert_eq!(string_of(&chars("amp é\n")), "amp é\n");
}

#[test]
fn count_newlines_counts_line_breaks() {
    assert_eq!(count_newlines(&chars("")), 0);
    assert_eq!(count_newlines(&chars("amp")), 0);
    assert_eq!(count_newlines(&chars("amp\neditor\n")), 2);
    assert_eq!(count_newlines(&chars("\n\n\n")), 3);
}

#[test]
fn line_ends_and_starts_are_found() {
    let text = chars("amp\neditor\n");
    assert_eq!(find_line_end(&text, 0), 3);
    assert_eq!(find_line_end(&text, 3), 3);
    assert_eq!(find_line_end(&text, 4), 10);
    assert_eq!(find_line_end(&text, 11), 11);
    assert_eq!(find_line_start(&text, 0), Some(0));
    assert_eq!(find_line_start(&text, 1), Some(4));
    assert_eq!(find_line_start(&text, 2), Some(11));
    assert_eq!(find_line_start(&text, 3), None);
}

#[test]
fn lines_are_those_of_the_standard_library() {
    let samples = [
        "",
        "amp",
        "amp\n",
        "amp\neditor",
        "amp\neditor\n",
        "\n",
        "\n\n",
        "\namp editor",
        "amp\r\neditor\r\n",
        "amp\r\n\r\neditor",
        "a\rb\nc",
        "\r\n",
        "amp\n\r",
        "é\nüber\n",
    ];
    for sample in samples.iter() {
        let expected: Vec<&str> = sample.lines().collect();
        for n in 0..expected.len() + 2 {
            assert_eq!(
                line_at(sample, n),
                expected.get(n).map(|l| l.to_string()),
                "line {} of {:?}",
                n,
                sample
            );
        }
    }
}

#[test]
fn first_word_is_the_first_character_that_is_not_whitespace() {
    let text = chars("    amp  \n \t \n\nx");
    assert_eq!(find_first_word(&text, 0, 9), Some(4));
    assert_eq!(find_first_word(&text, 10, 13), None);
    assert_eq!(find_first_word(&text, 14, 14), None);
    assert_eq!(find_first_word(&text, 15, 16), Some(0));
}
