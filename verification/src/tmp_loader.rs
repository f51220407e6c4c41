//! Checking the loader library before it is used: its SHA-256 digest
//! against the one the tools were built with, and the relative address of
//! its `Init` export. Locating and reading the file is done by the
//! application.
use vstd::prelude::*;

use pelite::pe64::exports::GetProcAddress;

use crate::text::str_eq;

verus! {

/// An error of the PE parser.
#[verifier::external_type_specification]
#[verifier::external_body]
pub struct ExPeError(pelite::Error);

/// The SHA-256 digest of some bytes, as 64 lowercase hexadecimal digits.
pub uninterp spec fn sha256_hex(data: Seq<u8>) -> Seq<char>;

/// A lowercase hexadecimal digit.
pub open spec fn is_lower_hex(c: char) -> bool {
    ('0' <= c && c <= '9') || ('a' <= c && c <= 'f')
}

/// `sha256::digest` on bytes: the SHA-256 digest, hex-encoded in lowercase
/// (32 bytes, two digits each).
#[verifier::external_body]
fn digest(data: &[u8]) -> (h: String)
    ensures
        h@ == sha256_hex(data@),
        h@.len() == 64,
        forall|i: int| 0 <= i < 64 ==> is_lower_hex(#[trigger] h@[i]),
{
    sha256::digest(data)
}

/// Whether `data` starts like a PE image: at least a DOS header (64 bytes)
/// that begins with the `MZ` signature.
pub open spec fn has_dos_header(data: Seq<u8>) -> bool {
    data.len() >= 64 && data[0] == 0x4D && data[1] == 0x5A
}

/// The relative address that the export table of the PE image `data`
/// records for its `Init` export.
pub uninterp spec fn init_export_rva(data: Seq<u8>) -> u32;

/// `pelite::pe64::PeFile::from_bytes`, then `get_export("Init")`, then
/// `Export::symbol`: the relative address of the `Init` export of a PE
/// image in memory (`None` when the export is forwarded). The parser
/// refuses bytes shorter than a DOS header or without its `MZ` signature.
/// It also rejects an image whose bytes are not 4-byte aligned in memory,
/// so whether it succeeds is not a function of the bytes alone; the address
/// it reads when it does is, and is named `init_export_rva`.
#[verifier::external_body]
fn init_export_symbol(data: &[u8]) -> (r: Result<Option<u32>, pelite::Error>)
    ensures
        !has_dos_header(data@) ==> r is Err,
        r matches Ok(Some(v)) ==> v == init_export_rva(data@),
{
    match pelite::pe64::PeFile::from_bytes(data) {
        Ok(file) => match file.get_export("Init") {
            Ok(export) => Ok(export.symbol()),
            Err(e) => Err(e),
        },
        Err(e) => Err(e),
    }
}

/// Why the `Init` entry point could not be located.
#[derive(Debug)]
pub enum RvaError {
    /// The image could not be parsed, or has no `Init` export.
    Pe(pelite::Error),
    /// `Init` is forwarded to another library.
    Forwarded,
}

/// The relative address of the `Init` export from the parser's answer.
pub fn rva_from_export(lookup: Result<Option<u32>, pelite::Error>) -> (r: Result<usize, RvaError>)
    ensures
        match lookup {
            Ok(Some(rva)) => r matches Ok(v) && v == rva,
            Ok(None) => r matches Err(RvaError::Forwarded),
            Err(e) => r matches Err(RvaError::Pe(e2)) && e2 == e,
        },
{
    match lookup {
        Ok(Some(rva)) => Ok(rva as usize),
        Ok(None) => Err(RvaError::Forwarded),
        Err(e) => Err(RvaError::Pe(e)),
    }
}

/// The relative address of the loader library's `Init` export. Bytes that
/// do not start with a DOS header are refused by the parser; whether other
/// bytes are accepted also depends on where they lie in memory.
pub fn get_init_rva(data: &[u8]) -> (r: Result<usize, RvaError>)
    ensures
        r matches Ok(v) ==> v == init_export_rva(data@),
        !has_dos_header(data@) ==> r matches Err(RvaError::Pe(_)),
{
    let lookup = init_export_symbol(data);
    rva_from_export(lookup)
}

/// Why the loader library was refused.
#[derive(Debug)]
pub enum InitLoaderError {
    /// Its digest is not the expected one; this is the digest found.
    HashMismatch(String),
    /// Its `Init` entry point could not be located.
    Rva(RvaError),
}

/// Whether the loader's bytes pass the digest check: always when the check
/// is off, else when their digest is the expected one.
pub fn loader_hash_ok(data: &[u8], expected_hash: &str, check_hash: bool) -> (r: Result<(), String>)
    ensures
        r is Ok <==> (!check_hash || sha256_hex(data@) == expected_hash@),
        r matches Err(found) ==> found@ == sha256_hex(data@),
{
    if !check_hash {
        return Ok(());
    }
    let hash = digest(data);
    if str_eq(hash.as_str(), expected_hash) {
        Ok(())
    } else {
        Err(hash)
    }
}

/// Checks the loader library's bytes (when `check_hash` is on, against the
/// digest the tools were built with) and locates its `Init` entry point.
/// The digest mismatch is reported exactly when the check is on and the
/// digest differs; otherwise the bytes go to `get_init_rva`.
pub fn init_loader(data: &[u8], expected_hash: &str, check_hash: bool) -> (r: Result<usize, InitLoaderError>)
    ensures
        check_hash && sha256_hex(data@) != expected_hash@ ==> (r matches Err(InitLoaderError::HashMismatch(found)) && found@ == sha256_hex(data@)),
        r matches Err(InitLoaderError::HashMismatch(_)) ==> check_hash && sha256_hex(data@) != expected_hash@,
        r is Ok ==> !check_hash || sha256_hex(data@) == expected_hash@,
        (!check_hash || sha256_hex(data@) == expected_hash@) ==> !(r matches Err(InitLoaderError::HashMismatch(_))),
        (!check_hash || sha256_hex(data@) == expected_hash@) && !has_dos_header(data@)
            ==> r matches Err(InitLoaderError::Rva(RvaError::Pe(_))),
        r matches Ok(v) ==> v == init_export_rva(data@),
{
    match loader_hash_ok(data, expected_hash, check_hash) {
        Err(found) => Err(InitLoaderError::HashMismatch(found)),
        Ok(()) => match get_init_rva(data) {
            Ok(rva) => Ok(rva),
            Err(e) => Err(InitLoaderError::Rva(e)),
        },
    }
}

} // verus!
