use img2color::fingerprint::fingerprint;
use img2color::hex::to_hex_lower;

#[test]
fn fingerprint_of_empty_bytes() {
    let b: Vec<u8> = Vec::new();
    assert_eq!(fingerprint(&b).as_str(), "d41d8cd98f00b204e9800998ecf8427e");
}

#[test]
fn fingerprint_of_abc() {
    let b: Vec<u8> = vec![97, 98, 99];
    assert_eq!(fingerprint(&b).as_str(), "900150983cd24fb0d6963f7d28e17f72");
}

#[test]
fn fingerprint_matches_md5_crate_rendering() {
    let b: Vec<u8> = vec![1, 2, 3, 4, 5];
    let expect = format!("{:?}", md5::compute(&b));
    assert_eq!(fingerprint(&b).as_str(), expect.as_str());
}

#[test]
fn fingerprint_is_stable_across_calls() {
    let b: Vec<u8> = vec![9, 9, 9, 1];
    assert_eq!(fingerprint(&b), fingerprint(&b.clone()));
}

#[test]
fn fingerprints_differ_for_different_bytes() {
    let b1: Vec<u8> = vec![1];
    let b2: Vec<u8> = vec![2];
    assert_ne!(fingerprint(&b1), fingerprint(&b2));
}

#[test]
fn hex_lower_known_bytes() {
    let b: Vec<u8> = vec![0x00, 0xff, 0x1a];
    assert_eq!(to_hex_lower(&b).as_str(), "00ff1a");
}

#[test]
fn hex_lower_empty() {
    let b: Vec<u8> = Vec::new();
    assert_eq!(to_hex_lower(&b).as_str(), "");
}
