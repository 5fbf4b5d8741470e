use vstd::prelude::*;
use crate::error::ConvertError;
use crate::job::Entry;
use std::io::Cursor;
use std::io::Write;
use zip::result::ZipError;
use zip::write::FileOptions;
use zip::ZipWriter;

verus! {

#[verifier::external_type_specification]
#[verifier::external_body]
pub struct ExIoError(std::io::Error);

#[verifier::external_type_specification]
#[verifier::external_body]
pub struct ExZipError(ZipError);

/// A zip writer over an in-memory buffer. Verus does not take the writer's
/// own declaration (its type parameter is bound by `Write + Seek`), so it is
/// held here out of Verus's sight.
#[verifier::external_body]
pub struct ArchiveWriter {
    inner: ZipWriter<Cursor<Vec<u8>>>,
}

/// The named entries that a zip writer holds, in the order they were started.
pub uninterp spec fn zip_entries(z: ArchiveWriter) -> Seq<(Seq<char>, Seq<u8>)>;

/// Whether a zip writer is open: not finished and not closed by a failure.
pub uninterp spec fn zip_open(z: ArchiveWriter) -> bool;

/// The largest entry written without the large-file option (4 GiB less a
/// margin).
pub const MAX_ENTRY_BYTES: u64 = 0xF000_0000;

/// The bytes of the archive that holds these entries, written with default
/// options (deflate, fixed timestamp).
pub uninterp spec fn zip_bytes(entries: Seq<(Seq<char>, Seq<u8>)>) -> Seq<u8>;

/// Relies on `ZipWriter::new`: a writer over an empty buffer holds no entry.
#[verifier::external_body]
fn zip_new() -> (z: ArchiveWriter)
    ensures
        zip_entries(z) == Seq::<(Seq<char>, Seq<u8>)>::empty(),
        zip_open(z),
{
    ArchiveWriter { inner: ZipWriter::new(Cursor::new(Vec::new())) }
}

/// Relies on `ZipWriter::start_file`: on success a new, empty entry of this
/// name follows the others. Over an in-memory buffer it fails only on a
/// closed writer.
#[verifier::external_body]
fn zip_start_file(z: &mut ArchiveWriter, name: &String) -> (r: Result<(), ZipError>)
    ensures
        r is Ok ==> zip_entries(*final(z)) == zip_entries(*old(z)).push((name@, Seq::<u8>::empty())),
        zip_open(*old(z)) ==> r is Ok && zip_open(*final(z)),
{
    z.inner.start_file(name.clone(), FileOptions::default())
}

/// Relies on `ZipWriter`'s `Write::write_all`: on success the bytes are
/// appended to the entry last started. Over an in-memory buffer it fails only
/// on a closed writer or once an entry passes 4 GiB.
#[verifier::external_body]
fn zip_write_all(z: &mut ArchiveWriter, data: &Vec<u8>) -> (r: Result<(), std::io::Error>)
    requires
        zip_entries(*old(z)).len() > 0,
    ensures
        r is Ok ==> zip_entries(*final(z)) == zip_entries(*old(z)).update(
            zip_entries(*old(z)).len() - 1,
            (zip_entries(*old(z)).last().0, zip_entries(*old(z)).last().1 + data@),
        ),
        zip_open(*old(z)) && zip_entries(*old(z)).last().1.len() + data@.len() <= MAX_ENTRY_BYTES
            ==> r is Ok && zip_open(*final(z)),
{
    z.inner.write_all(data)
}

/// Relies on `ZipWriter::finish`: on success the buffer holds the archive of
/// the entries written. Over an in-memory buffer it succeeds on an open writer.
#[verifier::external_body]
fn zip_finish(z: &mut ArchiveWriter) -> (r: Result<Vec<u8>, ZipError>)
    ensures
        r matches Ok(b) ==> b@ == zip_bytes(zip_entries(*old(z))),
        zip_open(*old(z)) ==> r is Ok,
{
    z.inner.finish().map(|c| c.into_inner())
}

pub open spec fn entry_views(entries: Seq<Entry>) -> Seq<(Seq<char>, Seq<u8>)> {
    Seq::new(entries.len(), |i: int| (entries[i].0@, entries[i].1@))
}

/// The archive of the converted items: one entry per item, under its output
/// filename, in the given order. Any failure of the archive writer is an
/// `Aggregation` error; it succeeds when no entry is larger than
/// `MAX_ENTRY_BYTES`.
pub fn build_archive(entries: &Vec<Entry>) -> (r: Result<Vec<u8>, ConvertError>)
    ensures
        r matches Ok(b) ==> b@ == zip_bytes(entry_views(entries@)),
        r matches Err(e) ==> e == ConvertError::Aggregation,
        (forall|i: int| 0 <= i < entries@.len() ==> (#[trigger] entries@[i]).1@.len() <= MAX_ENTRY_BYTES)
            ==> r is Ok,
{
    let mut z = zip_new();
    let mut i: usize = 0;
    while i < entries.len()
        invariant
            i <= entries@.len(),
            zip_entries(z) == entry_views(entries@.subrange(0, i as int)),
            (forall|j: int| 0 <= j < entries@.len() ==> (#[trigger] entries@[j]).1@.len() <= MAX_ENTRY_BYTES)
                ==> zip_open(z),
        decreases entries@.len() - i,
    {
        let ghost before = zip_entries(z);
        match zip_start_file(&mut z, &entries[i].0) {
            Ok(()) => {},
            Err(_) => {
                return Err(ConvertError::Aggregation);
            },
        }
        match zip_write_all(&mut z, &entries[i].1) {
            Ok(()) => {},
            Err(_) => {
                return Err(ConvertError::Aggregation);
            },
        }
        i = i + 1;
        assert(zip_entries(z) =~= entry_views(entries@.subrange(0, i as int)));
    }
    assert(entries@.subrange(0, i as int) =~= entries@);
    match zip_finish(&mut z) {
        Ok(b) => Ok(b),
        Err(_) => Err(ConvertError::Aggregation),
    }
}

} // verus!
