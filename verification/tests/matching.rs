use attention::matching::contains_subsequence;
use attention::matching::identifier_matches;
use attention::matching::to_ascii_lowercase;

#[test]
fn matching_ignores_case_both_ways() {
    let ident = b"Foo".to_vec();
    assert!(identifier_matches(&b"foo".to_vec(), &ident));
    assert!(identifier_matches(&b"FOO".to_vec(), &ident));
    assert!(identifier_matches(&b"fOo".to_vec(), &ident));
    assert!(identifier_matches(&b"0x123 4567 my-FOO-window".to_vec(), &ident));
}

#[test]
fn matching_is_substring_containment_not_equality() {
    let ident = b"mpv".to_vec();
    assert!(identifier_matches(&b"desktop mpv player".to_vec(), &ident));
    assert!(!identifier_matches(&b"desktop m p v".to_vec(), &ident));
    assert!(!identifier_matches(&b"mp".to_vec(), &ident));
}

#[test]
fn empty_identifier_matches_any_text() {
    let ident: Vec<u8> = Vec::new();
    assert!(identifier_matches(&b"anything".to_vec(), &ident));
    assert!(identifier_matches(&Vec::new(), &ident));
}

#[test]
fn lowercase_folds_ascii_letters_only() {
    let folded = to_ascii_lowercase(&b"AbC-Z_09 az".to_vec());
    assert_eq!(folded, b"abc-z_09 az".to_vec());
}

#[test]
fn subsequence_search_finds_exact_runs() {
    assert!(contains_subsequence(&b"abcde".to_vec(), &b"bcd".to_vec()));
    assert!(contains_subsequence(&b"abcde".to_vec(), &b"abcde".to_vec()));
    assert!(!contains_subsequence(&b"abcde".to_vec(), &b"bcdf".to_vec()));
    assert!(!contains_subsequence(&b"ab".to_vec(), &b"abc".to_vec()));
}
