use url_shortener::ident::{code_from_bytes, rand_string, CODE_LEN};

#[test]
fn generated_code_has_eight_characters() {
    assert_eq!(CODE_LEN, 8);
    for _ in 0..200 {
        assert_eq!(rand_string().chars().count(), 8);
    }
}

#[test]
fn generated_code_is_ascii_alphanumeric() {
    for _ in 0..200 {
        let code = rand_string();
        assert!(code.chars().all(|c| c.is_ascii_alphanumeric()), "{}", code);
        assert_eq!(code.len(), 8);
    }
}

#[test]
fn generated_codes_differ() {
    let first = rand_string();
    let mut other = false;
    for _ in 0..50 {
        if rand_string() != first {
            other = true;
        }
    }
    assert!(other);
}

#[test]
fn code_from_bytes_spells_each_byte() {
    assert_eq!(code_from_bytes(&vec![b'A', b'b', b'3', b'Z', b'0', b'q', b'9', b'x']), "Ab3Z0q9x");
    assert_eq!(code_from_bytes(&vec![b'a']), "a");
}

#[test]
fn code_from_bytes_of_nothing_is_empty() {
    assert_eq!(code_from_bytes(&Vec::new()), "");
}

#[test]
fn code_from_bytes_takes_a_byte_as_a_code_point() {
    assert_eq!(code_from_bytes(&vec![0xe9]), "\u{e9}");
}
