use integritas_edge::hash_input::{
    hash_file, parse_hash, resolve_hash_input, HashInput, HashInputError,
};
use integritas_edge::sha3_256;

#[test]
fn parse_hash_accepts_plain_and_prefixed() {
    let text = "ab".repeat(32);
    assert_eq!(parse_hash(&text), Ok([0xab; 32]));
    assert_eq!(parse_hash(&format!("0x{text}")), Ok([0xab; 32]));
    assert_eq!(parse_hash(&"CD".repeat(32)), Ok([0xcd; 32]));
}

#[test]
fn parse_hash_rejects_bad_input() {
    assert_eq!(parse_hash("xyz"), Err(HashInputError::NotHex));
    assert_eq!(parse_hash("abc"), Err(HashInputError::NotHex));
    assert_eq!(parse_hash("0xabcd"), Err(HashInputError::WrongLength(2)));
    assert_eq!(parse_hash(&"00".repeat(33)), Err(HashInputError::WrongLength(33)));
    assert_eq!(parse_hash(""), Err(HashInputError::WrongLength(0)));
}

#[test]
fn parse_hash_reads_back_library_encoding() {
    let mut h = [0u8; 32];
    for (i, b) in h.iter_mut().enumerate() {
        *b = (i as u8).wrapping_mul(37);
    }
    let text = integritas_edge::encoding::encode_hex(&h);
    assert_eq!(parse_hash(&text), Ok(h));
    assert_eq!(parse_hash(&format!("0x{text}")), Ok(h));
}

#[test]
fn resolve_hash_input_cases() {
    let hex = "11".repeat(32);
    assert_eq!(
        resolve_hash_input(Some(hex.clone()), true),
        Err(HashInputError::HashAndFile)
    );
    assert_eq!(resolve_hash_input(None, false), Err(HashInputError::NoInput));
    assert_eq!(resolve_hash_input(None, true), Ok(HashInput::ReadFile));
    assert_eq!(
        resolve_hash_input(Some(hex), false),
        Ok(HashInput::Hash([0x11; 32]))
    );
    assert_eq!(
        resolve_hash_input(Some("nope".into()), false),
        Err(HashInputError::NotHex)
    );
}

#[test]
fn sha3_known_vectors() {
    let empty = sha3_256(b"");
    assert_eq!(
        integritas_edge::encoding::encode_hex(&empty),
        "a7ffc6f8bf1ed76651c14756a061d662f580ff4de43b49fa82d80a4b80f8434a"
    );
    let hw = sha3_256(b"hello world");
    assert_eq!(
        integritas_edge::encoding::encode_hex(&hw),
        "644bcc7e564373040999aac89e7622f3ca71fba1d972fd94a31c3bfbf24e3938"
    );
}

#[test]
fn hash_file_records_digest_name_and_size() {
    let (hash, meta) = hash_file(b"hello world", Some("evidence.bin".into()));
    assert_eq!(hash, sha3_256(b"hello world"));
    assert_eq!(meta.filename.as_deref(), Some("evidence.bin"));
    assert_eq!(meta.filesize, Some(11));
    let (_, meta) = hash_file(b"", None);
    assert_eq!(meta.filename, None);
    assert_eq!(meta.filesize, Some(0));
}

#[test]
fn hash_input_error_messages() {
    assert_eq!(HashInputError::HashAndFile.message(), "pass --hash OR --file, not both");
    assert_eq!(HashInputError::NoInput.message(), "pass --hash <hex> or --file <path>");
    assert_eq!(HashInputError::NotHex.message(), "hash is not valid hex");
    assert_eq!(
        HashInputError::WrongLength(3).message(),
        "hash must be 32 bytes (64 hex chars), got 3"
    );
}
