//! The token under which a preset travels from one user to another: the
//! preset written as JSON, and those bytes put into standard base64 without
//! padding.
//!
//! The base64 is done here. JSON is the business of whoever implements
//! [`Json`] for the type that travels.

use vstd::prelude::*;

verus! {

/// What can go wrong between a value and its token.
#[derive(Clone, Copy, Debug, PartialEq, Eq, Structural)]
pub enum Error {
    /// The bytes are so many that the length of their token does not fit the
    /// machine's word.
    Oversize,
    /// The token is not base64 of the standard alphabet without padding.
    Encoding,
    /// The bytes do not describe a value, or the value cannot be written.
    Payload,
}

/// A type whose values can be written as JSON text and read back from it.
pub trait Json: Sized {
    /// Reads a value from JSON text.
    fn read(bytes: &Vec<u8>) -> Result<Self, Error>;

    /// Writes the value as JSON text.
    fn write(&self) -> Result<Vec<u8>, Error>;
}

/// The text that standard base64 without padding writes for `bytes`.
pub uninterp spec fn base64_text(bytes: Seq<u8>) -> Seq<char>;

/// The bytes that standard base64 without padding reads from `text`, and
/// nothing where `text` is not such base64.
pub uninterp spec fn base64_bytes(text: Seq<char>) -> Option<Seq<u8>>;

/// The error of the base64 decoder.
#[verifier::external_type_specification]
#[verifier::external_body]
pub struct ExDecodeError(base64::DecodeError);

/// How long the token of `n` bytes is: four characters for every full three
/// bytes, then two characters for one byte left over and three for two.
pub open spec fn token_len(n: nat) -> nat {
    (n / 3) * 4 + if n % 3 == 0 {
        0nat
    } else if n % 3 == 1 {
        2nat
    } else {
        3nat
    }
}

/// `base64::Engine::encode` of `BASE64_STANDARD_NO_PAD`. It panics where the
/// length of the text overflows, which `requires` rules out. The text is the
/// base64 of the bytes, it has the length that `base64::encoded_len` gives
/// for input without padding, and the same engine decodes it to the bytes it
/// was made from.
#[verifier::external_body]
fn base64_encode(bytes: &Vec<u8>) -> (text: String)
    requires
        token_len(bytes@.len()) <= usize::MAX,
    ensures
        text@ == base64_text(bytes@),
        text@.len() == token_len(bytes@.len()),
        base64_bytes(text@) == Some(bytes@),
{
    base64::Engine::encode(&base64::prelude::BASE64_STANDARD_NO_PAD, bytes)
}

/// `base64::Engine::decode` of `BASE64_STANDARD_NO_PAD`: the bytes that the
/// text stands for, or the decoder's error where it stands for none.
#[verifier::external_body]
fn base64_decode(text: &str) -> (outcome: Result<Vec<u8>, base64::DecodeError>)
    ensures
        match outcome {
            Ok(bytes) => base64_bytes(text@) == Some(bytes@),
            Err(_) => base64_bytes(text@) is None,
        },
{
    base64::Engine::decode(&base64::prelude::BASE64_STANDARD_NO_PAD, text)
}

/// The length of the token of `n` bytes, where it fits the machine's word.
pub fn token_length(n: usize) -> (length: Option<usize>)
    ensures
        length == if token_len(n as nat) <= usize::MAX {
            Some(token_len(n as nat) as usize)
        } else {
            None::<usize>
        },
{
    let rest: usize = match n % 3 {
        0 => 0,
        1 => 2,
        _ => 3,
    };
    match (n / 3).checked_mul(4) {
        Some(full) => full.checked_add(rest),
        None => None,
    }
}

/// Puts bytes into a token.
pub fn encode_token(bytes: &Vec<u8>) -> (outcome: Result<String, Error>)
    ensures
        match outcome {
            Ok(token) => {
                &&& token@ == base64_text(bytes@)
                &&& token@.len() == token_len(bytes@.len())
                &&& base64_bytes(token@) == Some(bytes@)
            },
            Err(reason) => reason == Error::Oversize && token_len(bytes@.len()) > usize::MAX,
        },
{
    match token_length(bytes.len()) {
        Some(_) => Ok(base64_encode(bytes)),
        None => Err(Error::Oversize),
    }
}

/// What a decoder's outcome means to the library: the bytes, or that the
/// token was no base64.
pub fn decoded_payload(outcome: Result<Vec<u8>, base64::DecodeError>) -> (payload: Result<
    Vec<u8>,
    Error,
>)
    ensures
        payload == match outcome {
            Ok(bytes) => Ok::<Vec<u8>, Error>(bytes),
            Err(_) => Err(Error::Encoding),
        },
{
    match outcome {
        Ok(bytes) => Ok(bytes),
        Err(_) => Err(Error::Encoding),
    }
}

/// Gets the bytes out of a token. A token that `encode_token` made gives
/// the bytes it was made from.
pub fn decode_token(token: &str) -> (outcome: Result<Vec<u8>, Error>)
    ensures
        match outcome {
            Ok(bytes) => base64_bytes(token@) == Some(bytes@),
            Err(reason) => reason == Error::Encoding && base64_bytes(token@) is None,
        },
{
    decoded_payload(base64_decode(token))
}

/// `outcome` is the token of a value whose writing as JSON came to
/// `written`: where it was written, the base64 of the bytes, or `Oversize`
/// where the token would be too long; where it was not, the error of the
/// writing.
pub open spec fn is_token_of(written: Result<Vec<u8>, Error>, outcome: Result<String, Error>) -> bool {
    match written {
        Ok(bytes) => match outcome {
            Ok(token) => {
                &&& token@ == base64_text(bytes@)
                &&& token@.len() == token_len(bytes@.len())
                &&& base64_bytes(token@) == Some(bytes@)
            },
            Err(reason) => reason == Error::Oversize && token_len(bytes@.len()) > usize::MAX,
        },
        Err(reason) => outcome == Err::<String, Error>(reason),
    }
}

/// The token of a value, given what writing it as JSON came to.
pub fn token_of(written: Result<Vec<u8>, Error>) -> (outcome: Result<String, Error>)
    ensures
        is_token_of(written, outcome),
{
    match written {
        Ok(bytes) => encode_token(&bytes),
        Err(reason) => Err(reason),
    }
}

/// The token of `item`: its JSON in base64. The item is written once, and
/// the outcome is the token of what that writing came to. A token that comes
/// out can be decoded again.
pub fn export<T: Json>(item: &T) -> (outcome: Result<String, Error>)
    ensures
        exists|written: Result<Vec<u8>, Error>| #[trigger]
            call_ensures(T::write, (item,), written) && is_token_of(written, outcome),
        outcome matches Ok(token) ==> base64_bytes(token@) is Some,
{
    let written = item.write();
    token_of(written)
}

/// The value that `token` carries. A token that is no base64 is refused
/// before anything is read from it. From a token that is base64 the value is
/// read once, from the bytes that the token stands for, and the outcome is
/// what that reading came to.
pub fn import<T: Json>(token: &str) -> (outcome: Result<T, Error>)
    ensures
        base64_bytes(token@) is None ==> (outcome matches Err(reason) && reason == Error::Encoding),
        base64_bytes(token@) matches Some(bytes) ==> exists|read: Vec<u8>|
            read@ == bytes && #[trigger] call_ensures(T::read, (&read,), outcome),
{
    match decode_token(token) {
        Ok(bytes) => T::read(&bytes),
        Err(reason) => Err(reason),
    }
}

} // verus!
