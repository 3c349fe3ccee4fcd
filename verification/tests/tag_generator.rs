use amp::models::application::modes::jump::tag_generator::{new, TAG_INDEX_LIMIT};

#[test]
fn next_returns_sequential_letters_of_the_alphabet() {
    let mut generator = new();
    assert_eq!(generator.next().unwrap(), "aa");
    assert_eq!(generator.next().unwrap(), "ab");
    assert_eq!(generator.next().unwrap(), "ac");
}

#[test]
fn next_carries_overflows_to_the_next_letter() {
    let mut generator = new();
    for _ in 0..26 {
        generator.next();
    }
    assert_eq!(generator.next().unwrap(), "ba");
    assert_eq!(generator.next().unwrap(), "bb");
    assert_eq!(generator.next().unwrap(), "bc");
}

#[test]
fn next_returns_none_when_limit_reached() {
    let mut generator = new();
    for _ in 0..TAG_INDEX_LIMIT {
        generator.next();
    }

    // Ensure that values are still being produced up until the limit.
    assert_eq!(generator.next().unwrap(), "zz");

    // Ensure that values stop being returned at and after the limit.
    assert!(generator.next().is_none());
    assert!(generator.next().is_none());
}

#[test]
fn reset_sets_the_index_to_zero() {
    let mut generator = new();
    generator.next();
    generator.reset();
    assert_eq!(generator.index(), 0);
}

#[test]
fn next_yields_all_tags_in_order_and_then_none() {
    let mut generator = new();
    generator.reset();
    let mut tags: Vec<String> = Vec::new();
    for _ in 0..676 {
        tags.push(generator.next().unwrap());
    }
    assert_eq!(tags[0], "aa");
    assert_eq!(tags[1], "ab");
    assert_eq!(tags[2], "ac");
    assert_eq!(tags[25], "az");
    assert_eq!(tags[26], "ba");
    assert_eq!(tags[675], "zz");
    let mut expected: Vec<String> = Vec::new();
    for first in b'a'..=b'z' {
        for second in b'a'..=b'z' {
            expected.push(format!("{}{}", first as char, second as char));
        }
    }
    assert_eq!(tags, expected);
    let mut sorted = tags.clone();
    sorted.sort();
    sorted.dedup();
    assert_eq!(sorted.len(), 676);
    assert!(generator.next().is_none());
    assert_eq!(generator.index(), 676);
}

#[test]
fn two_resets_yield_the_same_first_tags() {
    let mut generator = new();
    for _ in 0..40 {
        generator.next();
    }
    generator.reset();
    let first: Vec<String> = (0..3).map(|_| generator.next().unwrap()).collect();
    generator.reset();
    let second: Vec<String> = (0..3).map(|_| generator.next().unwrap()).collect();
    assert_eq!(first, vec!["aa", "ab", "ac"]);
    assert_eq!(second, first);
}
