//! Turning what a user passes on the command line into the 32-byte hash to
//! stamp: a hexadecimal string, or the SHA3-256 digest of a file's bytes.

use vstd::prelude::*;

use crate::client::request_fields;
use crate::digest::{sha3_256, sha3_256_digest};
use crate::encoding::{
    decode_hex, hex_decode, hex_digit_value, hex_encode, is_hex_digit, is_hex_string,
    lemma_hex_decode_encode,
};
use crate::text::{strip_hex_prefix, strip_hex_prefix_str};
use crate::text::{decimal, decimal_string};
use crate::types::StampMetadata;

verus! {

/// Why user input could not be turned into a hash.
#[derive(Debug, PartialEq, Eq)]
pub enum HashInputError {
    /// Both a hash and a file were given.
    HashAndFile,
    /// Neither a hash nor a file was given.
    NoInput,
    /// The hash is not a string of hexadecimal digit pairs.
    NotHex,
    /// The hash decoded to this many bytes rather than 32.
    WrongLength(usize),
}

impl HashInputError {
    /// The text shown for this error.
    pub open spec fn spec_message(self) -> Seq<char> {
        match self {
            HashInputError::HashAndFile => "pass --hash OR --file, not both"@,
            HashInputError::NoInput => "pass --hash <hex> or --file <path>"@,
            HashInputError::NotHex => "hash is not valid hex"@,
            HashInputError::WrongLength(n) => "hash must be 32 bytes (64 hex chars), got "@
                + decimal(n as nat),
        }
    }

    /// The text shown for this error.
    pub fn message(&self) -> (res: String)
        ensures
            res@ == self.spec_message(),
    {
        match self {
            HashInputError::HashAndFile => String::from_str("pass --hash OR --file, not both"),
            HashInputError::NoInput => String::from_str("pass --hash <hex> or --file <path>"),
            HashInputError::NotHex => String::from_str("hash is not valid hex"),
            HashInputError::WrongLength(n) => {
                let mut m = String::from_str("hash must be 32 bytes (64 hex chars), got ");
                m.append(decimal_string(*n as u64).as_str());
                m
            },
        }
    }
}

/// What `parse_hash` makes of a string: an optional `0x`, then exactly 64
/// hexadecimal digits.
pub open spec fn parse_hash_spec(s: Seq<char>) -> Result<Seq<u8>, HashInputError> {
    let digits = strip_hex_prefix(s);
    if !is_hex_string(digits) {
        Err(HashInputError::NotHex)
    } else if digits.len() != 64 {
        Err(HashInputError::WrongLength((digits.len() / 2) as usize))
    } else {
        Ok(hex_decode(digits))
    }
}

/// Parse a 64-digit hexadecimal hash, with or without a leading `0x`.
pub fn parse_hash(s: &str) -> (res: Result<[u8; 32], HashInputError>)
    ensures
        match res {
            Ok(h) => parse_hash_spec(s@) == Ok::<Seq<u8>, HashInputError>(h@),
            Err(e) => parse_hash_spec(s@) == Err::<Seq<u8>, HashInputError>(e),
        },
        is_hex_string(strip_hex_prefix(s@)) && strip_hex_prefix(s@).len() == 64 ==> (res matches Ok(
            h,
        ) && h@ == hex_decode(strip_hex_prefix(s@))),
{
    proof {
        let d = strip_hex_prefix(s@);
        if is_hex_string(d) && d.len() == 64 {
            assert forall|i: int| 0 <= i < 64 implies ('0' <= #[trigger] d[i] && d[i] <= '9') || (
            'a' <= d[i] && d[i] <= 'f') || ('A' <= d[i] && d[i] <= 'F') by {
                assert(is_hex_digit(d[i]));
            }
            lemma_parse_hash_accepts_either_case(d);
        }
    }
    let digits = strip_hex_prefix_str(s);
    let raw = match decode_hex(digits) {
        Some(v) => v,
        None => return Err(HashInputError::NotHex),
    };
    if raw.len() != 32 {
        return Err(HashInputError::WrongLength(raw.len()));
    }
    let mut out = [0u8; 32];
    let mut i: usize = 0;
    while i < 32
        invariant
            raw@.len() == 32,
            i <= 32,
            forall|j: int| 0 <= j < i ==> out@[j] == raw@[j],
        decreases 32 - i,
    {
        out[i] = raw[i];
        i = i + 1;
    }
    assert(out@ =~= raw@);
    Ok(out)
}

/// A hash written out by the library reads back as the same hash, with or
/// without the `0x` prefix.
pub proof fn lemma_parse_hash_reads_encoding(h: Seq<u8>)
    requires
        h.len() == 32,
    ensures
        parse_hash_spec(hex_encode(h)) == Ok::<Seq<u8>, HashInputError>(h),
        parse_hash_spec(seq!['0', 'x'] + hex_encode(h)) == Ok::<Seq<u8>, HashInputError>(h),
{
    lemma_hex_decode_encode(h);
    let e = hex_encode(h);
    assert(e.len() == 64);
    // The second character of an encoding is a digit, never the `x` of a prefix.
    assert(crate::encoding::is_hex_digit(e[1]));
    assert(strip_hex_prefix(e) == e);
    let p = seq!['0', 'x'] + e;
    assert(p.skip(2) =~= e);
    assert(strip_hex_prefix(p) == e);
}

/// Any 64 hexadecimal digits, in either case or mixed, parse with or
/// without a leading `0x` to the 32 bytes they write, each pair giving
/// one byte, high nibble first.
pub proof fn lemma_parse_hash_accepts_either_case(d: Seq<char>)
    requires
        d.len() == 64,
        forall|i: int|
            0 <= i < 64 ==> ('0' <= #[trigger] d[i] && d[i] <= '9') || ('a' <= d[i] && d[i] <= 'f')
                || ('A' <= d[i] && d[i] <= 'F'),
    ensures
        parse_hash_spec(d) == Ok::<Seq<u8>, HashInputError>(hex_decode(d)),
        parse_hash_spec(seq!['0', 'x'] + d) == Ok::<Seq<u8>, HashInputError>(hex_decode(d)),
        hex_decode(d).len() == 32,
        forall|i: int|
            0 <= i < 32 ==> #[trigger] hex_decode(d)[i] as int == hex_digit_value(d[2 * i]) * 16
                + hex_digit_value(d[2 * i + 1]),
{
    assert(is_hex_string(d)) by {
        assert forall|i: int| 0 <= i < d.len() implies #[trigger] is_hex_digit(d[i]) by {}
    }
    assert(d[1] != 'x');
    assert(strip_hex_prefix(d) == d);
    let p = seq!['0', 'x'] + d;
    assert(p.skip(2) =~= d);
    assert(strip_hex_prefix(p) == d);
    assert forall|i: int| 0 <= i < 32 implies #[trigger] hex_decode(d)[i] as int == hex_digit_value(
        d[2 * i],
    ) * 16 + hex_digit_value(d[2 * i + 1]) by {
        assert(0 <= 2 * i && 2 * i + 1 < 64);
        assert(is_hex_digit(d[2 * i]) && is_hex_digit(d[2 * i + 1]));
        assert(0 <= hex_digit_value(d[2 * i]) < 16 && 0 <= hex_digit_value(d[2 * i + 1]) < 16);
    }
}

/// The size recorded for a file is its length in bytes, exactly.
pub proof fn lemma_file_size_is_length(contents: Seq<u8>, filename: Option<String>)
    requires
        contents.len() <= u64::MAX,
    ensures
        file_metadata(contents, filename).filesize matches Some(n) && n as int == contents.len(),
        file_metadata(contents, filename).filename == filename,
{
}

/// Where the hash to stamp comes from.
#[derive(Debug, PartialEq, Eq)]
pub enum HashInput {
    /// A hash given directly.
    Hash([u8; 32]),
    /// A file, which has to be read and hashed.
    ReadFile,
}

/// Which source a command line names: exactly one of a hash and a file. A
/// hash is parsed at once.
pub fn resolve_hash_input(hash: Option<String>, file_given: bool) -> (res: Result<HashInput, HashInputError>)
    ensures
        hash is Some && file_given ==> res == Err::<HashInput, HashInputError>(HashInputError::HashAndFile),
        hash is None && !file_given ==> res == Err::<HashInput, HashInputError>(HashInputError::NoInput),
        hash is None && file_given ==> res == Ok::<HashInput, HashInputError>(HashInput::ReadFile),
        hash is Some && !file_given ==> match res {
            Ok(HashInput::Hash(bytes)) => parse_hash_spec(hash.unwrap()@) == Ok::<Seq<u8>, HashInputError>(bytes@),
            Ok(HashInput::ReadFile) => false,
            Err(e) => parse_hash_spec(hash.unwrap()@) == Err::<Seq<u8>, HashInputError>(e),
        },
{
    match (hash, file_given) {
        (Some(_), true) => Err(HashInputError::HashAndFile),
        (None, false) => Err(HashInputError::NoInput),
        (None, true) => Ok(HashInput::ReadFile),
        (Some(h), false) => match parse_hash(h.as_str()) {
            Ok(bytes) => Ok(HashInput::Hash(bytes)),
            Err(e) => Err(e),
        },
    }
}

/// The metadata recorded for a file: its name and its size in bytes.
pub open spec fn file_metadata(contents: Seq<u8>, filename: Option<String>) -> StampMetadata {
    StampMetadata { filename: filename, filesize: Some(contents.len() as u64) }
}

/// The hash and report metadata for a file: its SHA3-256 digest, its name
/// and its size. Only the digest and the metadata leave this function; the
/// contents do not.
pub fn hash_file(contents: &[u8], filename: Option<String>) -> (res: ([u8; 32], StampMetadata))
    ensures
        res.0@ == sha3_256_digest(contents@),
        res.1 == file_metadata(contents@, filename),
        res.1.filename == filename,
        res.1.filesize matches Some(n) && n as int == contents@.len(),
{
    let length = contents.len();
    proof {
        lemma_file_size_is_length(contents@, filename);
    }
    let digest = sha3_256(contents);
    let filesize = length as u64;
    (digest, StampMetadata { filename, filesize: Some(filesize) })
}

/// Stamping a file sends its digest, never its contents: two files with
/// the same digest, size and name give the same request.
pub proof fn lemma_file_request_sees_only_digest(
    api_key: Seq<char>,
    c1: Seq<u8>,
    c2: Seq<u8>,
    filename: Option<String>,
)
    requires
        sha3_256_digest(c1) == sha3_256_digest(c2),
        c1.len() == c2.len(),
    ensures
        request_fields(api_key, sha3_256_digest(c1), Some(&file_metadata(c1, filename)))
            == request_fields(api_key, sha3_256_digest(c2), Some(&file_metadata(c2, filename))),
{
    assert(file_metadata(c1, filename) == file_metadata(c2, filename));
}

} // verus!
