use scrolling_background::themes::{init_themes, load_theme, CustomTheme, Theme, ThemeInfo};

fn catalog_name_list() -> Vec<&'static str> {
    vec![
        "all",
        "lower",
        "upper",
        "numbers",
        "letters",
        "smileys",
        "food",
        "animals",
        "ascii",
        "christmas",
        "easter",
        "halloween",
        "newyear",
        "thanksgiving",
        "valentine",
    ]
}

#[test]
fn every_catalog_pool_is_nonempty() {
    let themes = init_themes();
    assert_eq!(themes.len(), 15);
    for info in &themes {
        assert!(!info.chars.is_empty(), "empty pool for {}", info.name);
    }
}

#[test]
fn catalog_names_in_order_each_exactly_once() {
    let themes = init_themes();
    let expected = catalog_name_list();
    assert_eq!(themes.len(), expected.len());
    for (info, want) in themes.iter().zip(expected.iter()) {
        assert_eq!(info.name, *want);
    }
    for want in &expected {
        let count = themes.iter().filter(|info| info.name == *want).count();
        assert_eq!(count, 1, "name {} not unique", want);
    }
}

#[test]
fn all_pool_length_is_sum_of_thirteen_constituents() {
    let constituents = [
        Theme::Lower,
        Theme::Upper,
        Theme::Numbers,
        Theme::Smileys,
        Theme::Food,
        Theme::Animals,
        Theme::Ascii,
        Theme::Christmas,
        Theme::Easter,
        Theme::Halloween,
        Theme::NewYear,
        Theme::Thanksgiving,
        Theme::Valentine,
    ];
    assert_eq!(constituents.len(), 13);
    let mut sum: usize = 0;
    for theme in constituents {
        sum += load_theme(theme).len();
    }
    assert_eq!(load_theme(Theme::All).len(), sum);
    assert_eq!(load_theme(Theme::All).len(), 648);
}

#[test]
fn letters_pool_length_is_lower_plus_upper() {
    let lower = load_theme(Theme::Lower);
    let upper = load_theme(Theme::Upper);
    let letters = load_theme(Theme::Letters);
    assert_eq!(letters.len(), lower.len() + upper.len());
}

#[test]
fn construction_is_idempotent_for_every_theme() {
    let first = init_themes();
    let second = init_themes();
    assert_eq!(first.len(), second.len());
    for (a, b) in first.iter().zip(second.iter()) {
        assert_eq!(a.name, b.name);
        assert_eq!(a.chars, b.chars);
    }
}

#[test]
fn numbers_pool_is_zero_through_nine() {
    let numbers = load_theme(Theme::Numbers);
    let expected: Vec<char> = ('0'..='9').collect();
    assert_eq!(numbers, expected);
    assert_eq!(numbers.len(), 10);
}

#[test]
fn letters_pool_is_lowercase_then_uppercase() {
    let letters = load_theme(Theme::Letters);
    assert_eq!(letters.len(), 52);
    let lower: Vec<char> = ('a'..='z').collect();
    let upper: Vec<char> = ('A'..='Z').collect();
    assert_eq!(&letters[..26], &lower[..]);
    assert_eq!(&letters[26..], &upper[..]);
}

#[test]
fn ascii_pool_is_printable_ascii() {
    let ascii = load_theme(Theme::Ascii);
    let expected: Vec<char> = (' '..='~').collect();
    assert_eq!(ascii, expected);
    assert_eq!(ascii.len(), 95);
}

#[test]
fn emoji_range_pools_have_expected_bounds() {
    let smileys = load_theme(Theme::Smileys);
    assert_eq!(smileys.len(), 80);
    assert_eq!(smileys[0], '\u{1F600}');
    assert_eq!(smileys[79], '\u{1F64F}');

    let food = load_theme(Theme::Food);
    assert_eq!(food.len(), 96);
    assert_eq!(food[0], '\u{1F300}');

    let animals = load_theme(Theme::Animals);
    assert_eq!(animals.len(), 64);
    assert_eq!(animals[0], '\u{1F400}');

    let valentine = load_theme(Theme::Valentine);
    assert_eq!(valentine.len(), 20);
    assert_eq!(valentine[0], '\u{1F48C}');
}

#[test]
fn fixed_literal_pools_hold_their_symbols() {
    let christmas = load_theme(Theme::Christmas);
    assert_eq!(
        christmas,
        vec![
            '\u{1F384}', '\u{1F385}', '\u{1F936}', '\u{1F381}', '\u{1F98C}', '\u{1F9E6}',
            '\u{1F514}', '\u{1F3B6}', '\u{1F3B5}',
        ]
    );
    let easter = load_theme(Theme::Easter);
    assert_eq!(easter.len(), 19);
    assert_eq!(easter[0], '\u{1F430}');
    assert_eq!(easter[18], '\u{1F341}');
}

#[test]
fn halloween_and_thanksgiving_share_a_range() {
    let halloween = load_theme(Theme::Halloween);
    let thanksgiving = load_theme(Theme::Thanksgiving);
    let newyear = load_theme(Theme::NewYear);
    assert_eq!(halloween, thanksgiving);
    assert_eq!(halloween.len(), 68);
    assert_eq!(newyear.len(), 67);
    assert_eq!(halloween[0], '\u{1F383}');
    assert_eq!(newyear[0], '\u{1F384}');
}

#[test]
fn theme_info_new_keeps_its_fields() {
    let info = ThemeInfo::new("pool".to_string(), vec!['x', 'y']);
    assert_eq!(info.name, "pool");
    assert_eq!(info.chars, vec!['x', 'y']);
}

#[test]
fn custom_theme_default_is_ascii_under_placeholder_name() {
    let custom = CustomTheme::default();
    assert_eq!(custom.name, "New Theme");
    assert_eq!(custom.chars, load_theme(Theme::Ascii));
}
