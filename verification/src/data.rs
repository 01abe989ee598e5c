//! The session record kept between launches, and its on-disk byte form.
//!
//! The record holds one optional token. Its serialized form is compact
//! binary: a one-byte tag (0 for no token, 1 for a token), and for a token
//! an eight-byte little-endian length followed by the token's UTF-8 bytes.

use vstd::prelude::*;
use vstd::bytes::{spec_u64_to_le_bytes, spec_u64_from_le_bytes, lemma_auto_spec_u64_to_from_le_bytes, u64_to_le_bytes, u64_from_le_bytes};
use vstd::utf8::{encode_utf8, decode_utf8, valid_utf8, encode_utf8_valid_utf8, encode_utf8_decode_utf8};
use vstd::slice::slice_subrange;

verus! {

/// The session record: at most one stored token.
#[derive(Debug, PartialEq)]
pub struct Data {
    pub discord_token: Option<String>,
}

impl View for Data {
    type V = Option<Seq<char>>;

    open spec fn view(&self) -> Option<Seq<char>> {
        match self.discord_token {
            Option::None => Option::<Seq<char>>::None,
            Option::Some(t) => Option::Some(t@),
        }
    }
}

impl Default for Data {
    /// A fresh record holds no token.
    fn default() -> (d: Data)
        ensures
            d@ is None,
            d.discord_token is None,
    {
        Data { discord_token: None }
    }
}

/// The byte form of a record: tag 0 alone for no token; tag 1, the UTF-8
/// length as eight little-endian bytes, then the UTF-8 bytes of the token.
pub open spec fn spec_encode(t: Option<Seq<char>>) -> Seq<u8> {
    match t {
        Option::None => seq![0u8],
        Option::Some(chars) => seq![1u8] + spec_u64_to_le_bytes(
            encode_utf8(chars).len() as u64,
        ) + encode_utf8(chars),
    }
}

/// Which records a byte sequence stands for: `Some(record)` exactly when the
/// bytes are a well-formed serialized record, `None` otherwise.
pub open spec fn spec_decode(bytes: Seq<u8>) -> Option<Option<Seq<char>>> {
    if bytes.len() == 1 && bytes[0] == 0u8 {
        Option::Some(Option::None)
    } else if bytes.len() >= 9 && bytes[0] == 1u8
        && spec_u64_from_le_bytes(bytes.subrange(1, 9)) == bytes.len() - 9
        && valid_utf8(bytes.skip(9)) {
        Option::Some(Option::Some(decode_utf8(bytes.skip(9))))
    } else {
        Option::<Option<Seq<char>>>::None
    }
}

/// Why a stored byte sequence was rejected.
#[derive(Clone, Copy, Debug, PartialEq, Eq, Structural)]
pub enum DecodeError {
    /// The bytes are empty or begin with a tag other than 0 or 1.
    UnknownTag,
    /// The length of the bytes does not fit the tag's shape: extra bytes
    /// after tag 0, a missing length field, or a length field that does not
    /// match the number of bytes that follow it.
    LengthMismatch,
    /// The token bytes are not valid UTF-8.
    InvalidText,
}

/// The exact rejection for bytes that stand for no record.
pub open spec fn spec_decode_error(bytes: Seq<u8>) -> DecodeError
    recommends
        spec_decode(bytes) is None,
{
    if bytes.len() == 0 || (bytes[0] != 0u8 && bytes[0] != 1u8) {
        DecodeError::UnknownTag
    } else if bytes[0] == 0u8 {
        DecodeError::LengthMismatch
    } else if bytes.len() < 9 || spec_u64_from_le_bytes(bytes.subrange(1, 9)) != bytes.len() - 9 {
        DecodeError::LengthMismatch
    } else {
        DecodeError::InvalidText
    }
}

/// What loading yields from the stored file's contents: the default record
/// where no file exists, otherwise whatever the bytes stand for.
pub open spec fn spec_load(stored: Option<Seq<u8>>) -> Option<Option<Seq<char>>> {
    match stored {
        Option::None => Option::Some(Option::<Seq<char>>::None),
        Option::Some(bytes) => spec_decode(bytes),
    }
}

/// Every record round-trips through its byte form: decoding what a record
/// encodes to gives back exactly that record, and loading what was saved
/// gives back the saved record.
pub proof fn lemma_save_load_round_trip(t: Option<Seq<char>>)
    requires
        t matches Some(chars) ==> encode_utf8(chars).len() <= u64::MAX,
    ensures
        spec_decode(spec_encode(t)) == Some(t),
        spec_load(Some(spec_encode(t))) == Some(t),
{
    lemma_auto_spec_u64_to_from_le_bytes();
    match t {
        Option::None => {
            assert(spec_encode(t) == seq![0u8]);
        }
        Option::Some(chars) => {
            encode_utf8_valid_utf8(chars);
            encode_utf8_decode_utf8(chars);
            let eb = encode_utf8(chars);
            let len_bytes = spec_u64_to_le_bytes(eb.len() as u64);
            let whole = spec_encode(t);
            assert(whole == seq![1u8] + len_bytes + eb);
            assert(whole.len() == 9 + eb.len());
            assert(whole.subrange(1, 9) =~= len_bytes);
            assert(whole.skip(9) =~= eb);
            assert(spec_u64_from_le_bytes(len_bytes) == eb.len());
        }
    }
}

impl Data {
    /// The serialized form of this record, ready to be written to disk.
    pub fn save(&self) -> (bytes: Vec<u8>)
        ensures
            bytes@ == spec_encode(self@),
    {
        match &self.discord_token {
            Option::None => {
                let mut out: Vec<u8> = Vec::new();
                out.push(0u8);
                proof {
                    assert(out@ =~= spec_encode(self@));
                }
                out
            }
            Option::Some(token) => {
                let token_bytes: &[u8] = token.as_str().as_bytes();
                let len: u64 = token_bytes.len() as u64;
                let mut out: Vec<u8> = Vec::new();
                out.push(1u8);
                let mut len_bytes = u64_to_le_bytes(len);
                out.append(&mut len_bytes);
                out.extend_from_slice(token_bytes);
                proof {
                    assert(out@ =~= spec_encode(self@));
                }
                out
            }
        }
    }

    /// Parses a serialized record. Succeeds exactly on the byte sequences
    /// that stand for a record, and names in the error why others fail.
    pub fn decode(bytes: &[u8]) -> (r: Result<Data, DecodeError>)
        ensures
            r matches Ok(d) ==> spec_decode(bytes@) == Some(d@),
            spec_decode(bytes@) matches Some(t) ==> r matches Ok(d) && d@ == t,
            r matches Err(e) ==> spec_decode(bytes@) is None && e == spec_decode_error(bytes@),
    {
        if bytes.len() == 0 {
            return Err(DecodeError::UnknownTag);
        }
        let tag = bytes[0];
        if tag == 0u8 {
            if bytes.len() == 1 {
                Ok(Data { discord_token: None })
            } else {
                Err(DecodeError::LengthMismatch)
            }
        } else if tag == 1u8 {
            if bytes.len() < 9 {
                return Err(DecodeError::LengthMismatch);
            }
            let len_field: &[u8] = slice_subrange(bytes, 1, 9);
            let declared: u64 = u64_from_le_bytes(len_field);
            if declared != (bytes.len() - 9) as u64 {
                return Err(DecodeError::LengthMismatch);
            }
            let token_bytes: &[u8] = slice_subrange(bytes, 9, bytes.len());
            match utf8_to_str(token_bytes) {
                Option::Some(token) => Ok(Data { discord_token: Some(token.to_owned()) }),
                Option::None => Err(DecodeError::InvalidText),
            }
        } else {
            Err(DecodeError::UnknownTag)
        }
    }

    /// Builds the record from the stored file's contents: the default record
    /// where no file existed, otherwise exactly what the bytes stand for,
    /// never silently substituting the default for unreadable bytes.
    pub fn load(stored: Option<&[u8]>) -> (r: Result<Data, DecodeError>)
        ensures
            r matches Ok(d) ==> spec_load(spec_stored_view(stored)) == Some(d@),
            spec_load(spec_stored_view(stored)) matches Some(t) ==> r matches Ok(d) && d@ == t,
            r matches Err(e) ==> stored matches Some(bytes) && spec_decode(bytes@) is None
                && e == spec_decode_error(bytes@),
    {
        match stored {
            Option::None => Ok(Data { discord_token: None }),
            Option::Some(bytes) => Data::decode(bytes),
        }
    }
}

/// The byte-sequence view of an optional stored file.
pub open spec fn spec_stored_view(stored: Option<&[u8]>) -> Option<Seq<u8>> {
    match stored {
        Option::None => Option::<Seq<u8>>::None,
        Option::Some(bytes) => Option::Some(bytes@),
    }
}

/// Relies on core::str::from_utf8: it returns the decoded string exactly
/// when the bytes are valid UTF-8, and an error otherwise.
#[verifier::external_body]
fn utf8_to_str(bytes: &[u8]) -> (r: Option<&str>)
    ensures
        r matches Some(s) ==> valid_utf8(bytes@) && s@ == decode_utf8(bytes@),
        r is None ==> !valid_utf8(bytes@),
{
    core::str::from_utf8(bytes).ok()
}

} // verus!
