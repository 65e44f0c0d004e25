//! The decompress-then-extract pipeline on in-memory bytes: xz-decompress
//! the archive, then read the tar stream into a list of entries.  Callers
//! write the entries to disk; the library never touches the file system.
//!
//! The pipeline is deliberately single-scheme: whatever recognized suffix
//! an archive carries, its bytes are read as one xz stream holding a tar
//! archive, and anything else is rejected.

use vstd::prelude::*;

verus! {

/// One entry of a tar archive, as plain values: its path and optional link
/// target as raw bytes, the type byte of its tar header, and its content.
#[derive(Clone, Debug, PartialEq, Eq)]
pub struct ArchiveEntry {
    pub path: Vec<u8>,
    pub type_byte: u8,
    pub link: Option<Vec<u8>>,
    pub data: Vec<u8>,
}

/// The mathematical model of one entry.
pub ghost struct EntryModel {
    pub path: Seq<u8>,
    pub type_byte: u8,
    pub link: Option<Seq<u8>>,
    pub data: Seq<u8>,
}

impl View for ArchiveEntry {
    type V = EntryModel;

    open spec fn view(&self) -> EntryModel {
        EntryModel {
            path: self.path@,
            type_byte: self.type_byte,
            link: match self.link {
                Some(l) => Some(l@),
                None => None,
            },
            data: self.data@,
        }
    }
}

/// The models of a list of entries, in order.
pub open spec fn models_of(entries: Seq<ArchiveEntry>) -> Seq<EntryModel> {
    entries.map_values(|e: ArchiveEntry| e@)
}

/// What an entry is on disk, read off the tar type byte.
#[derive(Clone, Copy, Debug, PartialEq, Eq, Structural)]
pub enum EntryKind {
    File,
    Directory,
    Symlink,
    Other,
}

/// The kind a tar type byte denotes: `'0'` and NUL mark a regular file,
/// `'5'` a directory, `'2'` a symbolic link.
pub open spec fn kind_of_byte(b: u8) -> EntryKind {
    if b == 0x30 || b == 0x00 {
        EntryKind::File
    } else if b == 0x35 {
        EntryKind::Directory
    } else if b == 0x32 {
        EntryKind::Symlink
    } else {
        EntryKind::Other
    }
}

impl ArchiveEntry {
    /// The kind of this entry, read off its tar type byte.
    pub fn kind(&self) -> (r: EntryKind)
        ensures
            r == kind_of_byte(self.type_byte),
    {
        if self.type_byte == 0x30 || self.type_byte == 0x00 {
            EntryKind::File
        } else if self.type_byte == 0x35 {
            EntryKind::Directory
        } else if self.type_byte == 0x32 {
            EntryKind::Symlink
        } else {
            EntryKind::Other
        }
    }
}

/// Why a byte sequence could not be unpacked.
#[derive(Clone, Copy, Debug, PartialEq, Eq, Structural)]
pub enum UnpackError {
    /// The bytes are not a well-formed xz stream.
    Decompress,
    /// The decompressed bytes are not a well-formed tar archive.
    Archive,
}

#[verifier::external_type_specification]
#[verifier::external_body]
pub struct ExIoError(std::io::Error);

/// What xz decompression makes of a byte sequence: the decompressed bytes,
/// or `None` when the sequence is not a well-formed xz stream.  The outcome
/// depends on the bytes alone.
pub uninterp spec fn xz_decoded(input: Seq<u8>) -> Option<Seq<u8>>;

/// What reading a byte sequence as a tar archive yields: its entries in
/// archive order, or `None` when the bytes are not a well-formed tar
/// archive.  The outcome depends on the bytes alone.
pub uninterp spec fn tar_parsed(input: Seq<u8>) -> Option<Seq<EntryModel>>;

/// Relies on xz2::read::XzDecoder: decompressing a byte slice in memory is
/// deterministic, succeeding with the decompressed bytes exactly when the
/// input is a well-formed xz stream.
#[verifier::external_body]
fn xz_decode(bytes: &Vec<u8>) -> (r: Result<Vec<u8>, std::io::Error>)
    ensures
        r is Ok ==> xz_decoded(bytes@) == Some(r.unwrap()@),
        r is Err ==> xz_decoded(bytes@) is None,
{
    let mut decoder = xz2::read::XzDecoder::new(bytes.as_slice());
    let mut out: Vec<u8> = Vec::new();
    std::io::Read::read_to_end(&mut decoder, &mut out)?;
    Ok(out)
}

/// Relies on tar::Archive: reading the entries of an in-memory tar stream
/// is deterministic, yielding each entry's path bytes, header type byte,
/// link-target bytes and content in archive order, and failing exactly when
/// the bytes are not a well-formed tar archive.
#[verifier::external_body]
fn tar_list(bytes: &Vec<u8>) -> (r: Result<Vec<ArchiveEntry>, std::io::Error>)
    ensures
        r is Ok ==> tar_parsed(bytes@) == Some(models_of(r.unwrap()@)),
        r is Err ==> tar_parsed(bytes@) is None,
{
    let mut archive = tar::Archive::new(bytes.as_slice());
    let mut out: Vec<ArchiveEntry> = Vec::new();
    for entry in archive.entries()? {
        let mut entry = entry?;
        let mut data: Vec<u8> = Vec::new();
        std::io::Read::read_to_end(&mut entry, &mut data)?;
        out.push(ArchiveEntry {
            path: entry.path_bytes().to_vec(),
            type_byte: entry.header().entry_type().as_byte(),
            link: entry.link_name_bytes().map(|l| l.to_vec()),
            data,
        });
    }
    Ok(out)
}

/// Unpack the bytes of a compressed archive into its entries: xz-decompress
/// them, then read the result as a tar archive.  Succeeds exactly when the
/// bytes are a well-formed xz stream holding a well-formed tar archive, and
/// then returns that archive's entries in order; each failure names the
/// stage that rejected the bytes.
pub fn unpack_archive(bytes: &Vec<u8>) -> (r: Result<Vec<ArchiveEntry>, UnpackError>)
    ensures
        r is Ok <==> xz_decoded(bytes@) is Some && tar_parsed(xz_decoded(bytes@).unwrap()) is Some,
        r is Ok ==> models_of(r.unwrap()@) == tar_parsed(xz_decoded(bytes@).unwrap()).unwrap(),
        xz_decoded(bytes@) is None ==> r == Err::<Vec<ArchiveEntry>, UnpackError>(
            UnpackError::Decompress,
        ),
        xz_decoded(bytes@) is Some && tar_parsed(xz_decoded(bytes@).unwrap()) is None ==> r
            == Err::<Vec<ArchiveEntry>, UnpackError>(UnpackError::Archive),
{
    let plain = match xz_decode(bytes) {
        Ok(p) => p,
        Err(_) => {
            return Err(UnpackError::Decompress);
        },
    };
    match tar_list(&plain) {
        Ok(entries) => Ok(entries),
        Err(_) => Err(UnpackError::Archive),
    }
}

} // verus!
