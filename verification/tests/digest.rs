use postmite::body_digest::{lower_hex, ContentDigest};

fn digest_of(chunks: &[&[u8]]) -> String {
    let mut digest = ContentDigest::new();
    for chunk in chunks {
        digest.update(chunk);
    }
    digest.finish_hex()
}

#[test]
fn empty_contents_have_the_empty_digest() {
    assert_eq!(
        digest_of(&[]),
        "e3b0c44298fc1c149afbf4c8996fb92427ae41e4649b934ca495991b7852b855"
    );
}

#[test]
fn digest_of_abc_matches_the_standard_vector() {
    assert_eq!(
        digest_of(&[b"abc"]),
        "ba7816bf8f01cfea414140de5dae2223b00361a396177a9cb410ff61f20015ad"
    );
}

#[test]
fn digest_does_not_depend_on_how_the_contents_are_split() {
    let whole = digest_of(&[b"hello body file"]);
    assert_eq!(digest_of(&[b"hello ", b"", b"body", b" file"]), whole);
    assert_eq!(whole.len(), 64);
    assert_ne!(digest_of(&[b"hello body filE"]), whole);
}

#[test]
fn bytes_are_written_as_lower_case_hex() {
    assert_eq!(lower_hex(&vec![0x00, 0x0f, 0xa5, 0xff, 0x10]), "000fa5ff10");
    assert_eq!(lower_hex(&Vec::new()), "");
}
