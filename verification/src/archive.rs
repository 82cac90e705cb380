//! Finding a tool inside a ZIP archive that is held in memory.
//!
//! The archive format is read by the `zip` crate. What this module adds is
//! the search: entries are visited in stored order, and the first one whose
//! name ends with the tool's bare name is the tool, at whatever depth of
//! directories it lies.

use crate::error::{AcquisitionError, ErrorKind};
use crate::text::{ends_with, has_suffix};
use std::io::Cursor;
use std::io::Read;
use vstd::prelude::*;
use zip::result::ZipError;
use zip::ZipArchive;

verus! {

/// The `zip` crate's archive reader over a source of type `R`, carried
/// as an opaque value.
#[verifier::external_type_specification]
#[verifier::external_body]
#[verifier::reject_recursive_types(R)]
pub struct ExZipArchive<R>(ZipArchive<R>);

/// `std::io::Cursor`, which lets the reader seek in bytes held in memory,
/// carried as an opaque value.
#[verifier::external_type_specification]
#[verifier::external_body]
#[verifier::reject_recursive_types(T)]
pub struct ExCursor<T>(Cursor<T>);

/// The `zip` crate's error, carried as an opaque value.
#[verifier::external_type_specification]
#[verifier::external_body]
pub struct ExZipError(ZipError);

/// What this library reads of one archive entry.
pub struct EntryModel {
    /// The entry's name, or `None` where the entry cannot be opened or its
    /// name cannot be decoded.
    pub name: Option<Seq<char>>,
    /// The entry's decompressed bytes, or `None` where they cannot be read
    /// to the end.
    pub data: Option<Seq<u8>>,
}

/// The entries that an opened archive holds, in stored order.
pub uninterp spec fn archive_entries(archive: ZipArchive<Cursor<Vec<u8>>>) -> Seq<EntryModel>;

/// The entries of the archive that a byte string encodes, or `None` where
/// the bytes are no readable archive.
pub uninterp spec fn zip_entries(bytes: Seq<u8>) -> Option<Seq<EntryModel>>;

/// `ZipArchive::new` over a `Cursor`: parses the central directory of the
/// bytes. The outcome depends on the bytes alone; the contract gives it the
/// name `zip_entries` and says nothing else of it.
#[verifier::external_body]
fn open_archive(bytes: Vec<u8>) -> (r: Result<ZipArchive<Cursor<Vec<u8>>>, ZipError>)
    ensures
        match r {
            Ok(archive) => zip_entries(bytes@) == Some(archive_entries(archive)),
            Err(_) => zip_entries(bytes@) is None,
        },
{
    ZipArchive::new(Cursor::new(bytes))
}

/// `ZipArchive::len`: the number of entries in the central directory.
#[verifier::external_body]
fn entry_count(archive: &ZipArchive<Cursor<Vec<u8>>>) -> (n: usize)
    ensures
        n == archive_entries(*archive).len(),
{
    archive.len()
}

/// `ZipArchive::by_index` followed by `ZipFile::name`: opens the entry at
/// `index` and decodes its name. Opening an entry leaves the archive's
/// entries as they were; which entries open is a property of the archive.
/// An index past the last entry is an error.
#[verifier::external_body]
fn entry_name(archive: &mut ZipArchive<Cursor<Vec<u8>>>, index: usize) -> (r: Result<
    String,
    ZipError,
>)
    ensures
        archive_entries(*final(archive)) == archive_entries(*old(archive)),
        index < archive_entries(*old(archive)).len() ==> match r {
            Ok(name) => archive_entries(*old(archive))[index as int].name == Some(name@),
            Err(_) => archive_entries(*old(archive))[index as int].name is None,
        },
        index >= archive_entries(*old(archive)).len() ==> r is Err,
{
    let file = archive.by_index(index)?;
    let name = file.name()?;
    Ok(name.into_owned())
}

/// `ZipArchive::by_index` followed by `Read::read_to_end` on the entry:
/// decompresses the entry at `index` into memory. Reading leaves the
/// archive's entries as they were. An index past the last entry is an
/// error.
#[verifier::external_body]
fn entry_bytes(archive: &mut ZipArchive<Cursor<Vec<u8>>>, index: usize) -> (r: Result<
    Vec<u8>,
    ZipError,
>)
    ensures
        archive_entries(*final(archive)) == archive_entries(*old(archive)),
        index < archive_entries(*old(archive)).len() ==> match r {
            Ok(data) => archive_entries(*old(archive))[index as int].data == Some(data@),
            Err(_) => archive_entries(*old(archive))[index as int].data is None,
        },
        index >= archive_entries(*old(archive)).len() ==> r is Err,
{
    let mut file = archive.by_index(index)?;
    let mut data = Vec::new();
    file.read_to_end(&mut data)?;
    Ok(data)
}

/// The `Display` text of a `ZipError`. Nothing is claimed of the text.
#[verifier::external_body]
fn zip_error_text(error: &ZipError) -> (text: String) {
    error.to_string()
}

/// The search stops at an entry that cannot be opened, and at one whose name
/// ends with the tool's name.
pub open spec fn stops_scan(entry: EntryModel, tool: Seq<char>) -> bool {
    match entry.name {
        None => true,
        Some(name) => ends_with(name, tool),
    }
}

/// The first index at or after `from` at which the search stops.
pub open spec fn scan_from(entries: Seq<EntryModel>, tool: Seq<char>, from: int) -> Option<int>
    decreases entries.len() - from,
{
    if from < 0 || from >= entries.len() {
        None
    } else if stops_scan(entries[from], tool) {
        Some(from)
    } else {
        scan_from(entries, tool, from + 1)
    }
}

/// The first index at which the search stops, if it stops at all.
pub open spec fn scan(entries: Seq<EntryModel>, tool: Seq<char>) -> Option<int> {
    scan_from(entries, tool, 0)
}

/// What unpacking yields: the tool's bytes, `None` where no entry is named
/// for the tool, or the kind of the failure.
pub open spec fn unpacked(listing: Option<Seq<EntryModel>>, tool: Seq<char>) -> Result<
    Option<Seq<u8>>,
    ErrorKind,
> {
    match listing {
        None => Err(ErrorKind::Archive),
        Some(entries) => match scan(entries, tool) {
            None => Ok(None),
            Some(i) => match (entries[i].name, entries[i].data) {
                (Some(_), Some(data)) => Ok(Some(data)),
                _ => Err(ErrorKind::Archive),
            },
        },
    }
}

/// An outcome of unpacking, with bytes as a sequence and an error by its kind.
pub open spec fn unpack_model(r: Result<Option<Vec<u8>>, AcquisitionError>) -> Result<
    Option<Seq<u8>>,
    ErrorKind,
> {
    match r {
        Ok(Some(data)) => Ok(Some(data@)),
        Ok(None) => Ok(None),
        Err(e) => Err(e@.kind),
    }
}

/// The search stops at `i` exactly when `i` is the least index whose entry
/// cannot be opened or is named for the tool; it does not stop exactly when
/// there is no such entry.
pub proof fn lemma_scan_stops_first(entries: Seq<EntryModel>, tool: Seq<char>, from: int)
    requires
        0 <= from,
    ensures
        match scan_from(entries, tool, from) {
            Some(i) => {
                &&& from <= i < entries.len()
                &&& stops_scan(entries[i], tool)
                &&& forall|j: int| from <= j < i ==> !stops_scan(#[trigger] entries[j], tool)
            },
            None => forall|j: int|
                from <= j < entries.len() ==> !stops_scan(#[trigger] entries[j], tool),
        },
    decreases entries.len() - from,
{
    if from < entries.len() && !stops_scan(entries[from], tool) {
        lemma_scan_stops_first(entries, tool, from + 1);
    }
}

/// A ZIP archive opened from bytes in memory.
pub struct Archive {
    inner: ZipArchive<Cursor<Vec<u8>>>,
}

impl View for Archive {
    type V = Seq<EntryModel>;

    closed spec fn view(&self) -> Seq<EntryModel> {
        archive_entries(self.inner)
    }
}

/// An archive error with the text of the `zip` crate's error behind `prefix`.
fn archive_error(prefix: &str, error: &ZipError) -> (e: AcquisitionError)
    ensures
        e@.kind == ErrorKind::Archive,
        prefix@.is_prefix_of(e@.message),
{
    let text = zip_error_text(error);
    let e = AcquisitionError::with_prefix(ErrorKind::Archive, prefix, text.as_str());
    assert(e@.message.subrange(0, prefix@.len() as int) =~= prefix@);
    e
}

impl Archive {
    /// Opens the archive that `bytes` encode.
    pub fn open(bytes: Vec<u8>) -> (r: Result<Archive, AcquisitionError>)
        ensures
            match r {
                Ok(archive) => zip_entries(bytes@) == Some(archive@),
                Err(e) => {
                    &&& zip_entries(bytes@) is None
                    &&& e@.kind == ErrorKind::Archive
                    &&& "zip error: "@.is_prefix_of(e@.message)
                },
            },
    {
        match open_archive(bytes) {
            Ok(inner) => Ok(Archive { inner }),
            Err(error) => Err(archive_error("zip error: ", &error)),
        }
    }

    /// The number of entries.
    pub fn len(&self) -> (n: usize)
        ensures
            n == self@.len(),
    {
        entry_count(&self.inner)
    }

    /// Searches the entries in stored order for the tool.
    ///
    /// Returns the index of the first entry whose name ends with `tool`,
    /// `None` where there is none, and an error where an entry that comes
    /// before any match cannot be opened.
    pub fn find(&mut self, tool: &str) -> (r: Result<Option<usize>, AcquisitionError>)
        ensures
            final(self)@ == old(self)@,
            match r {
                Ok(Some(index)) => {
                    &&& scan(old(self)@, tool@) == Some(index as int)
                    &&& index < old(self)@.len()
                    &&& old(self)@[index as int].name is Some
                },
                Ok(None) => scan(old(self)@, tool@) is None,
                Err(e) => {
                    &&& e@.kind == ErrorKind::Archive
                    &&& scan(old(self)@, tool@) matches Some(i)
                    &&& old(self)@[i].name is None
                },
            },
    {
        let count = self.len();
        let mut index: usize = 0;
        while index < count
            invariant
                self@ == old(self)@,
                count == self@.len(),
                index <= count,
                scan(self@, tool@) == scan_from(self@, tool@, index as int),
            decreases count - index,
        {
            match entry_name(&mut self.inner, index) {
                Ok(name) => {
                    if has_suffix(name.as_str(), tool) {
                        return Ok(Some(index));
                    }
                },
                Err(error) => {
                    return Err(archive_error("", &error));
                },
            }
            index += 1;
        }
        Ok(None)
    }

    /// The entry's data as contracts see it: `None` for an index past the
    /// last entry.
    pub open spec fn data_at(self, index: int) -> Option<Seq<u8>> {
        if 0 <= index < self@.len() {
            self@[index].data
        } else {
            None
        }
    }

    /// Decompresses the entry at `index` into memory. An entry that cannot
    /// be read to the end, and an index past the last entry, are errors.
    pub fn read(&mut self, index: usize) -> (r: Result<Vec<u8>, AcquisitionError>)
        ensures
            final(self)@ == old(self)@,
            match r {
                Ok(data) => old(self).data_at(index as int) == Some(data@),
                Err(e) => old(self).data_at(index as int) is None && e@.kind == ErrorKind::Archive,
            },
    {
        match entry_bytes(&mut self.inner, index) {
            Ok(data) => Ok(data),
            Err(error) => Err(archive_error("", &error)),
        }
    }
}

/// Takes the tool out of an archive: opens `bytes` as a ZIP archive, finds
/// the first entry whose name ends with `tool`, and decompresses it.
///
/// An archive without such an entry is no error: the result is `Ok(None)`.
pub fn unpack_tool(bytes: Vec<u8>, tool: &str) -> (r: Result<Option<Vec<u8>>, AcquisitionError>)
    ensures
        unpack_model(r) == unpacked(zip_entries(bytes@), tool@),
{
    let mut archive = match Archive::open(bytes) {
        Ok(archive) => archive,
        Err(e) => { return Err(e); },
    };
    match archive.find(tool) {
        Err(e) => Err(e),
        Ok(None) => Ok(None),
        Ok(Some(index)) => match archive.read(index) {
            Ok(data) => Ok(Some(data)),
            Err(e) => Err(e),
        },
    }
}

} // verus!
