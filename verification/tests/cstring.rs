use bootcore::misc::cstring::fix_zeroterminated_string;

#[test]
fn no_nul_leaves_the_buffer_unchanged() {
    let mut data: Vec<char> = "hello".chars().collect();
    fix_zeroterminated_string(&mut data);
    let s: String = data.into_iter().collect();
    assert_eq!(s, "hello");
}

#[test]
fn everything_from_the_first_nul_becomes_spaces() {
    let mut data: Vec<char> = vec!['a', 'b', '\0', 'c', '\0', 'd'];
    fix_zeroterminated_string(&mut data);
    let s: String = data.into_iter().collect();
    assert_eq!(s, "ab    ");
}

#[test]
fn a_leading_nul_blanks_everything() {
    let mut data: Vec<char> = vec!['\0', 'x', 'y'];
    fix_zeroterminated_string(&mut data);
    assert_eq!(data, vec![' ', ' ', ' ']);
}

#[test]
fn an_empty_buffer_stays_empty() {
    let mut data: Vec<char> = Vec::new();
    fix_zeroterminated_string(&mut data);
    assert!(data.is_empty());
}

#[test]
fn a_trailing_nul_becomes_one_space() {
    let mut data: Vec<char> = vec!['o', 'k', '\0'];
    fix_zeroterminated_string(&mut data);
    let s: String = data.into_iter().collect();
    assert_eq!(s, "ok ");
}
