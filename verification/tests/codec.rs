use mod_presets::codec::{
    decode_token, decoded_payload, encode_token, export, import, token_length, token_of, Error, Json,
};

/// A value that travels as its own bytes, and that cannot be read from
/// bytes that start with a zero.
#[derive(Debug, PartialEq)]
struct Plain(Vec<u8>);

impl Json for Plain {
    fn read(bytes: &Vec<u8>) -> Result<Self, Error> {
        if bytes.first() == Some(&0) {
            Err(Error::Payload)
        } else {
            Ok(Plain(bytes.clone()))
        }
    }

    fn write(&self) -> Result<Vec<u8>, Error> {
        if self.0.first() == Some(&0) {
            Err(Error::Payload)
        } else {
            Ok(self.0.clone())
        }
    }
}

#[test]
fn token_of_known_bytes() {
    let token = encode_token(&b"some bytes".to_vec()).unwrap();
    assert_eq!(token, "c29tZSBieXRlcw");
    assert_eq!(decode_token(&token), Ok(b"some bytes".to_vec()));
}

#[test]
fn tokens_have_no_padding() {
    assert_eq!(encode_token(&vec![]), Ok(String::new()));
    assert_eq!(encode_token(&b"f".to_vec()), Ok("Zg".to_string()));
    assert_eq!(encode_token(&b"fo".to_vec()), Ok("Zm8".to_string()));
    assert_eq!(encode_token(&b"foo".to_vec()), Ok("Zm9v".to_string()));
    assert_eq!(encode_token(&vec![0xfb, 0xff]), Ok("+/8".to_string()));
}

#[test]
fn padded_token_is_refused() {
    assert_eq!(decode_token("c29tZSBieXRlcw=="), Err(Error::Encoding));
    assert_eq!(decode_token("Zg=="), Err(Error::Encoding));
}

#[test]
fn tokens_that_are_no_base64_are_refused() {
    assert_eq!(decode_token("not base64!"), Err(Error::Encoding));
    assert_eq!(decode_token("Z"), Err(Error::Encoding));
    assert_eq!(decode_token("-_8"), Err(Error::Encoding));
    assert_eq!(decode_token("Zh"), Err(Error::Encoding));
}

#[test]
fn every_token_decodes_to_its_bytes() {
    let mut bytes: Vec<u8> = vec![];
    for i in 0..=300u32 {
        let token = encode_token(&bytes).unwrap();
        assert_eq!(Some(token.len()), token_length(bytes.len()));
        assert_eq!(decode_token(&token), Ok(bytes.clone()));
        bytes.push((i * 7 % 256) as u8);
    }
}

#[test]
fn token_lengths() {
    assert_eq!(token_length(0), Some(0));
    assert_eq!(token_length(1), Some(2));
    assert_eq!(token_length(2), Some(3));
    assert_eq!(token_length(3), Some(4));
    assert_eq!(token_length(4), Some(6));
    assert_eq!(token_length(10), Some(14));
    assert_eq!(token_length(usize::MAX), None);
    assert_eq!(token_length(usize::MAX / 4 * 3), Some(usize::MAX / 4 * 4));
    assert_eq!(token_length(usize::MAX / 4 * 3 + 1), Some(usize::MAX - 1));
    assert_eq!(token_length(usize::MAX / 4 * 3 + 2), Some(usize::MAX));
    assert_eq!(token_length(usize::MAX / 4 * 3 + 3), None);
}

#[test]
fn a_decoder_error_becomes_an_encoding_error() {
    assert_eq!(decoded_payload(Ok(vec![1, 2, 3])), Ok(vec![1, 2, 3]));
    assert_eq!(decoded_payload(Err(base64::DecodeError::InvalidPadding)), Err(Error::Encoding));
    assert_eq!(decoded_payload(Err(base64::DecodeError::InvalidByte(3, b'!'))), Err(Error::Encoding));
    assert_eq!(decoded_payload(Err(base64::DecodeError::InvalidLength(1))), Err(Error::Encoding));
    assert_eq!(
        decoded_payload(Err(base64::DecodeError::InvalidLastSymbol(1, b'h'))),
        Err(Error::Encoding)
    );
}

#[test]
fn a_value_that_cannot_be_written_has_no_token() {
    assert_eq!(token_of(Err(Error::Payload)), Err(Error::Payload));
    assert_eq!(token_of(Err(Error::Oversize)), Err(Error::Oversize));
    assert_eq!(token_of(Ok(b"foo".to_vec())), Ok("Zm9v".to_string()));
    assert_eq!(export(&Plain(vec![0, 1])), Err(Error::Payload));
}

#[test]
fn export_then_import_gives_the_value_back() {
    let item = Plain(b"{\"name\":\"Mine\",\"settings\":{}}".to_vec());
    let token = export(&item).unwrap();
    assert_eq!(token, "eyJuYW1lIjoiTWluZSIsInNldHRpbmdzIjp7fX0");
    assert_eq!(import::<Plain>(&token), Ok(item));
}

#[test]
fn import_refuses_a_bad_token_and_a_bad_payload() {
    assert_eq!(import::<Plain>("***"), Err(Error::Encoding));
    assert_eq!(import::<Plain>("AAEC"), Err(Error::Payload));
}
