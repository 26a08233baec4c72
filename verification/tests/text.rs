use crunchyroll_rs::categories::{categories_to_text, Category};
use crunchyroll_rs::text::{bool_to_text, join_texts, u32_to_decimal};

#[test]
fn numbers_are_written_in_decimal() {
    assert_eq!(u32_to_decimal(0), "0");
    assert_eq!(u32_to_decimal(7), "7");
    assert_eq!(u32_to_decimal(9), "9");
    assert_eq!(u32_to_decimal(10), "10");
    assert_eq!(u32_to_decimal(20), "20");
    assert_eq!(u32_to_decimal(101), "101");
    assert_eq!(u32_to_decimal(1_000_000), "1000000");
    assert_eq!(u32_to_decimal(1_234_567_890), "1234567890");
    assert_eq!(u32_to_decimal(u32::MAX), "4294967295");
}

#[test]
fn decimal_agrees_with_the_standard_rendering() {
    let mut n: u32 = 1;
    for _ in 0..40 {
        assert_eq!(u32_to_decimal(n), n.to_string());
        assert_eq!(u32_to_decimal(n - 1), (n - 1).to_string());
        n = n.wrapping_mul(7).wrapping_add(3);
    }
}

#[test]
fn truth_values_are_written_as_words() {
    assert_eq!(bool_to_text(true), "true");
    assert_eq!(bool_to_text(false), "false");
}

#[test]
fn texts_are_joined_with_the_separator_between_neighbours() {
    assert_eq!(join_texts(&vec![], ","), "");
    assert_eq!(join_texts(&vec!["a"], ","), "a");
    assert_eq!(join_texts(&vec!["a", "b"], ","), "a,b");
    assert_eq!(join_texts(&vec!["a", "", "c"], ", "), "a, , c");
    assert_eq!(join_texts(&vec!["", ""], "-"), "-");
}

#[test]
fn genres_are_written_as_comma_separated_tokens() {
    assert_eq!(categories_to_text(&vec![]), "");
    assert_eq!(categories_to_text(&vec![Category::Romance]), "romance");
    assert_eq!(
        categories_to_text(&vec![Category::Shonen, Category::Action, Category::Shonen]),
        "shonen,action,shonen"
    );
}

#[test]
fn every_genre_has_its_token() {
    let expected = [
        (Category::Action, "action"),
        (Category::Adventure, "adventure"),
        (Category::Comedy, "comedy"),
        (Category::Drama, "drama"),
        (Category::Fantasy, "fantasy"),
        (Category::Music, "music"),
        (Category::Romance, "romance"),
        (Category::SciFi, "sci-fi"),
        (Category::Seinen, "seinen"),
        (Category::Shojo, "shojo"),
        (Category::Shonen, "shonen"),
        (Category::SliceOfLife, "slice+of+life"),
        (Category::Sports, "sports"),
        (Category::Supernatural, "supernatural"),
        (Category::Thriller, "thriller"),
    ];
    for (category, token) in expected {
        assert_eq!(category.as_str(), token);
        assert!(!token.contains(','));
    }
    for (i, (_, a)) in expected.iter().enumerate() {
        for (_, b) in expected.iter().skip(i + 1) {
            assert_ne!(a, b);
        }
    }
}
