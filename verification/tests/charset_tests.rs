use fontpack::charset::{specs_to_unicode_code_points, CharacterSet};

#[test]
fn numbers_resolve_to_digit_code_points() {
    let specs = vec![CharacterSet::Numbers];
    let points = specs_to_unicode_code_points(&specs);
    assert_eq!(points, vec![48, 49, 50, 51, 52, 53, 54, 55, 56, 57]);
}

#[test]
fn lowercase_resolves_to_ascii_lowercase() {
    let specs = vec![CharacterSet::LowerCase];
    let points = specs_to_unicode_code_points(&specs);
    assert_eq!(points.len(), 26);
    assert_eq!(points[0], 97);
    assert_eq!(points[25], 122);
}

#[test]
fn uppercase_resolves_to_ascii_uppercase() {
    let specs = vec![CharacterSet::UpperCase];
    let points = specs_to_unicode_code_points(&specs);
    assert_eq!(points.len(), 26);
    assert_eq!(points[0], 65);
    assert_eq!(points[25], 90);
}

#[test]
fn punctuation_resolves_to_fixed_set() {
    let specs = vec![CharacterSet::Punctuation];
    let points = specs_to_unicode_code_points(&specs);
    assert_eq!(points, vec![33, 34, 39, 40, 41, 44, 45, 46, 58, 59, 63]);
}

#[test]
fn repeated_characters_are_deduplicated() {
    let specs = vec![CharacterSet::Literal("aabbcc".to_string())];
    let points = specs_to_unicode_code_points(&specs);
    assert_eq!(points, vec![97, 98, 99]);
}

#[test]
fn union_of_entries_is_order_independent() {
    let forward = vec![
        CharacterSet::Literal("ab".to_string()),
        CharacterSet::Numbers,
    ];
    let backward = vec![
        CharacterSet::Numbers,
        CharacterSet::Literal("ab".to_string()),
    ];
    let a = specs_to_unicode_code_points(&forward);
    let b = specs_to_unicode_code_points(&backward);
    assert_eq!(a, b);
    assert_eq!(a, vec![48, 49, 50, 51, 52, 53, 54, 55, 56, 57, 97, 98]);
}

#[test]
fn overlapping_entries_collapse() {
    let specs = vec![
        CharacterSet::Literal("az".to_string()),
        CharacterSet::LowerCase,
    ];
    let points = specs_to_unicode_code_points(&specs);
    assert_eq!(points.len(), 26);
    assert_eq!(points[0], 97);
    assert_eq!(points[25], 122);
}

#[test]
fn output_is_strictly_ascending() {
    let specs = vec![
        CharacterSet::Punctuation,
        CharacterSet::Numbers,
        CharacterSet::Literal("zZ!0".to_string()),
    ];
    let points = specs_to_unicode_code_points(&specs);
    for w in points.windows(2) {
        assert!(w[0] < w[1]);
    }
}

#[test]
fn empty_selection_resolves_to_nothing() {
    let specs: Vec<CharacterSet> = vec![];
    let points = specs_to_unicode_code_points(&specs);
    assert!(points.is_empty());
}

#[test]
fn non_ascii_literal_uses_scalar_values() {
    let specs = vec![CharacterSet::Literal("é".to_string())];
    let points = specs_to_unicode_code_points(&specs);
    assert_eq!(points, vec![233]);
}
