use snapmail_attachment::encoding::decode_chunk;
use snapmail_attachment::encoding::encode_chunk;

#[test]
fn encoding_is_url_safe_base64_without_padding() {
    assert_eq!(encode_chunk(b""), "");
    assert_eq!(encode_chunk(b"f"), "Zg");
    assert_eq!(encode_chunk(b"fo"), "Zm8");
    assert_eq!(encode_chunk(b"foo"), "Zm9v");
    assert_eq!(encode_chunk(b"foob"), "Zm9vYg");
    assert_eq!(encode_chunk(&[0xfb, 0xff]), "-_8");
    assert_eq!(encode_chunk(&[0xff, 0xef, 0xbe]), "_---");
}

#[test]
fn decoding_reads_url_safe_base64() {
    assert_eq!(decode_chunk(""), Some(vec![]));
    assert_eq!(decode_chunk("Zg"), Some(b"f".to_vec()));
    assert_eq!(decode_chunk("Zm9vYg"), Some(b"foob".to_vec()));
    assert_eq!(decode_chunk("-_8"), Some(vec![0xfb, 0xff]));
}

#[test]
fn decoding_refuses_what_is_no_encoding() {
    assert_eq!(decode_chunk("Z"), None);
    assert_eq!(decode_chunk("Zm9v!"), None);
    assert_eq!(decode_chunk("+/8"), None);
    assert_eq!(decode_chunk("Zh"), None);
    assert_eq!(decode_chunk("Zm9v Yg"), None);
}

#[test]
fn decoding_undoes_encoding() {
    let mut bytes: Vec<u8> = Vec::new();
    for len in 0..300usize {
        let text = encode_chunk(&bytes);
        assert_eq!(text.len(), (len * 4 + 2) / 3);
        assert_eq!(decode_chunk(&text), Some(bytes.clone()));
        bytes.push((len * 7 + 3) as u8);
    }
    let every: Vec<u8> = (0..=255u8).collect();
    assert_eq!(decode_chunk(&encode_chunk(&every)), Some(every));
}
