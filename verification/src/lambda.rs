//! Wraps a compiled binary into the deployment archive.
//!
//! The archive holds exactly one entry, under the fixed canonical name
//! `bootstrap`, whose content is the binary byte for byte; the deployment
//! target expects that one name whatever the binary was called.  The entry
//! is stored uncompressed with a pinned timestamp — no compression level is
//! promised, only a valid archive — so the emitted bytes depend on the
//! binary's bytes alone, and every binary below the plain zip size limit
//! fits.

use vstd::prelude::*;

use crate::error::KnownFailures;

verus! {

/// The fixed canonical name of the archive's single entry.
pub fn bootstrap_entry_name() -> (r: String)
    ensures
        r@ == "bootstrap"@,
{
    "bootstrap".to_owned()
}

/// What archiving a byte sequence yields.  The archive bytes are a function
/// of the content alone: the single entry is written under the fixed name
/// with pinned metadata.
pub uninterp spec fn zip_archive_of(content: Seq<u8>) -> Seq<u8>;

/// Relies on zip's `ZipWriter` (`start_file`, `write_all`, `finish`): emits
/// an archive holding one entry named `bootstrap` with exactly `content`'s
/// bytes.  The entry options pin the modification timestamp and store the
/// entry uncompressed, so the output depends on `content` alone.  Writing
/// into memory with the entry stored, the compressed size equals the
/// content length, and the writer's one refusal is an entry past the plain
/// zip size limit of 0xFFFFFFFF bytes (the large-file option is not set);
/// any smaller content succeeds.
#[verifier::external_body]
fn create_zip_package(content: &[u8]) -> (r: Result<Vec<u8>, String>)
    ensures
        r matches Ok(b) ==> b@ == zip_archive_of(content@),
        content@.len() < 0x100000000 ==> r is Ok,
{
    let cursor = std::io::Cursor::new(Vec::new());
    let mut writer = zip::write::ZipWriter::new(cursor);
    let options = zip::write::FileOptions::default().compression_method(
        zip::CompressionMethod::Stored,
    ).last_modified_time(zip::DateTime::default());
    writer.start_file("bootstrap", options).map_err(|e| e.to_string())?;
    std::io::Write::write_all(&mut writer, content).map_err(|e| e.to_string())?;
    let cursor = writer.finish().map_err(|e| e.to_string())?;
    Ok(cursor.into_inner())
}

/// Produces the deployment archive for one compiled binary.
///
/// Every binary below the plain zip size limit is packaged: the result is
/// the archive's bytes — one entry, canonical name, content byte-identical
/// to the input.  Any refusal of the archive writer surfaces as
/// [`KnownFailures::ZipCompressionError`].
pub fn package_binary(content: &[u8]) -> (r: Result<Vec<u8>, KnownFailures>)
    ensures
        r matches Ok(b) ==> b@ == zip_archive_of(content@),
        content@.len() < 0x100000000 ==> r is Ok,
        r matches Err(e) ==> e matches KnownFailures::ZipCompressionError(_),
{
    match create_zip_package(content) {
        Ok(b) => Ok(b),
        Err(m) => Err(KnownFailures::ZipCompressionError(m)),
    }
}

} // verus!
