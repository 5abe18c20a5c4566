use teamlens_agent::base64::base64_encode;

#[test]
fn base64_of_the_published_vectors() {
    assert_eq!(base64_encode(b""), "");
    assert_eq!(base64_encode(b"f"), "Zg==");
    assert_eq!(base64_encode(b"fo"), "Zm8=");
    assert_eq!(base64_encode(b"foo"), "Zm9v");
    assert_eq!(base64_encode(b"foob"), "Zm9vYg==");
    assert_eq!(base64_encode(b"fooba"), "Zm9vYmE=");
    assert_eq!(base64_encode(b"foobar"), "Zm9vYmFy");
}

#[test]
fn base64_uses_the_whole_alphabet() {
    let mut bytes: Vec<u8> = Vec::new();
    for v in (0u32..64).step_by(4) {
        let n = v << 18 | (v + 1) << 12 | (v + 2) << 6 | (v + 3);
        bytes.extend_from_slice(&[(n >> 16) as u8, (n >> 8) as u8, n as u8]);
    }
    assert_eq!(
        base64_encode(&bytes),
        "ABCDEFGHIJKLMNOPQRSTUVWXYZabcdefghijklmnopqrstuvwxyz0123456789+/"
    );
}

#[test]
fn base64_takes_four_characters_for_each_three_bytes_begun() {
    for n in 0..100usize {
        let bytes: Vec<u8> = (0..n).map(|i| (i * 37) as u8).collect();
        let text = base64_encode(&bytes);
        assert_eq!(text.len(), (n + 2) / 3 * 4);
        assert!(text.chars().all(|c| c.is_ascii_alphanumeric() || c == '+' || c == '/' || c == '='));
    }
}

#[test]
fn base64_of_different_bytes_differs() {
    let mut seen: Vec<String> = Vec::new();
    for a in 0..=255u8 {
        seen.push(base64_encode(&[a]));
        seen.push(base64_encode(&[a, 0]));
        seen.push(base64_encode(&[0, a, a]));
    }
    let total = seen.len();
    seen.sort();
    seen.dedup();
    assert_eq!(seen.len(), total);
}
