//! Packing a build's outputs into one in-memory zip archive.
use crate::orchestrator::{outputs_view, BuildError, BuildResult, BuildStatus};
use crate::paths::{is_contained, stays_inside};
use std::io::Write;
use vstd::prelude::*;

verus! {

/// A zip writer whose archive is built in an in-memory buffer.
#[verifier::external_body]
pub struct ArchiveWriter {
    inner: zip::ZipWriter<std::io::Cursor<Vec<u8>>>,
}

/// The files written so far to an archive, by name and contents, in order.
pub uninterp spec fn zip_entries(w: ArchiveWriter) -> Seq<(Seq<char>, Seq<u8>)>;

/// The archive's last file is still open for writing.
pub uninterp spec fn zip_open(w: ArchiveWriter) -> bool;

/// No operation on the archive has failed so far.
pub uninterp spec fn zip_intact(w: ArchiveWriter) -> bool;

/// The names of a list of archive files.
pub open spec fn names_of(es: Seq<(Seq<char>, Seq<u8>)>) -> Seq<Seq<char>> {
    es.map_values(|e: (Seq<char>, Seq<u8>)| e.0)
}

/// Total size of the contents of a list of archive files.
pub open spec fn total_size(es: Seq<(Seq<char>, Seq<u8>)>) -> nat
    decreases es.len(),
{
    if es.len() == 0 {
        0
    } else {
        total_size(es.drop_last()) + es.last().1.len()
    }
}

/// A name short enough for a local file header, whose name and fixed
/// fields must stay under 64 KiB (a character takes at most four bytes).
pub open spec fn name_fits(name: Seq<char>) -> bool {
    name.len() <= 16000
}

/// A total size that stays clear of the 4 GiB mark past which zip needs
/// its large-file extension, compression overhead included.
pub open spec fn size_fits(n: nat) -> bool {
    n <= 0xF000_0000
}

/// Relies on `zip::ZipWriter::new`: an archive with no file yet.
#[verifier::external_body]
fn new_writer() -> (r: ArchiveWriter)
    ensures
        zip_entries(r) == Seq::<(Seq<char>, Seq<u8>)>::empty(),
        !zip_open(r),
        zip_intact(r),
{
    ArchiveWriter { inner: zip::ZipWriter::new(std::io::Cursor::new(Vec::new())) }
}

/// Relies on `zip::ZipWriter::start_file` with default options: on success
/// the archive has a new, empty, open file of that name. Over an in-memory
/// buffer it fails only on a name already in the archive or one too long
/// for the header.
#[verifier::external_body]
fn start_entry(w: &mut ArchiveWriter, name: &str) -> (r: bool)
    ensures
        r ==> zip_entries(*final(w)) == zip_entries(*old(w)).push((name@, Seq::<u8>::empty())),
        r ==> zip_open(*final(w)),
        r && zip_intact(*old(w)) ==> zip_intact(*final(w)),
        zip_intact(*old(w)) && !names_of(zip_entries(*old(w))).contains(name@) && name_fits(name@) ==> r,
{
    w.inner.start_file(name, zip::write::SimpleFileOptions::default()).is_ok()
}

/// Relies on `Write::write_all` for `zip::ZipWriter`: on success the bytes
/// are appended to the open file, and whether a file is open is unchanged
/// (empty bytes touch nothing). Over an in-memory buffer it fails only
/// when no file is open or the file passes the 4 GiB mark.
#[verifier::external_body]
fn write_entry(w: &mut ArchiveWriter, bytes: &[u8]) -> (r: bool)
    ensures
        r && zip_entries(*old(w)).len() > 0 ==> zip_entries(*final(w)) == zip_entries(*old(w)).drop_last().push(
            (zip_entries(*old(w)).last().0, zip_entries(*old(w)).last().1 + bytes@),
        ),
        r ==> zip_open(*final(w)) == zip_open(*old(w)),
        r && zip_intact(*old(w)) ==> zip_intact(*final(w)),
        zip_intact(*old(w)) && zip_open(*old(w)) && zip_entries(*old(w)).len() > 0 && size_fits(
            total_size(zip_entries(*old(w))) + bytes@.len(),
        ) ==> r,
{
    w.inner.write_all(bytes).is_ok()
}

/// Relies on `zip::ZipWriter::finish`: closes the open file, writes the
/// central directory and hands back the buffer, which starts with a local
/// file header (`PK\x03\x04`), or with the end record (`PK\x05\x06`) when
/// the archive is empty. Over an in-memory buffer it cannot fail unless an
/// earlier operation did.
#[verifier::external_body]
fn finish_writer(w: ArchiveWriter) -> (r: Option<Vec<u8>>)
    ensures
        zip_intact(w) ==> r is Some,
        r matches Some(b) ==> b@.len() >= 4 && (zip_entries(w).len() > 0 ==> b@.take(4) == local_header_signature()),
        r matches Some(b) ==> (zip_entries(w).len() == 0 ==> b@.take(4) == end_record_signature()),
{
    match w.inner.finish() {
        Ok(cursor) => Some(cursor.into_inner()),
        Err(_) => None,
    }
}

/// The four bytes a zip local file header starts with.
pub open spec fn local_header_signature() -> Seq<u8> {
    seq![0x50u8, 0x4Bu8, 0x03u8, 0x04u8]
}

/// The four bytes a zip end-of-central-directory record starts with.
pub open spec fn end_record_signature() -> Seq<u8> {
    seq![0x50u8, 0x4Bu8, 0x05u8, 0x06u8]
}

/// Why a file was not added to an archive.
#[derive(Clone, Copy, Debug, PartialEq, Eq, Structural)]
pub enum ArchiveError {
    /// There were no bytes to add.
    EmptyFile,
    /// The path would leave the archive's root.
    UnsafePath,
    /// The archive writer failed.
    WriteFailed,
}

/// An archive being filled in memory.
pub struct ZipFile {
    writer: ArchiveWriter,
    file_count: usize,
}

impl View for ZipFile {
    type V = Seq<(Seq<char>, Seq<u8>)>;

    closed spec fn view(&self) -> Seq<(Seq<char>, Seq<u8>)> {
        zip_entries(self.writer)
    }
}

/// `path` with `bytes` can join an archive holding `entries`.
pub open spec fn can_add(entries: Seq<(Seq<char>, Seq<u8>)>, path: Seq<char>, bytes: Seq<u8>) -> bool {
    &&& bytes.len() > 0
    &&& stays_inside(path)
    &&& !names_of(entries).contains(path)
    &&& name_fits(path)
    &&& size_fits(total_size(entries) + bytes.len())
}

impl ZipFile {
    /// How many files were added.
    pub closed spec fn count(&self) -> nat {
        self.file_count as nat
    }

    /// No write to the archive has failed.
    pub closed spec fn intact(&self) -> bool {
        zip_intact(self.writer)
    }

    /// An empty archive.
    pub fn new() -> (r: ZipFile)
        ensures
            r@.len() == 0,
            r.count() == 0,
            r.intact(),
    {
        ZipFile { writer: new_writer(), file_count: 0 }
    }

    /// Adds a file under `path`, kept exactly as given. Empty files and
    /// paths that leave the archive root are refused and change nothing;
    /// a new name of bounded length and size is always added.
    pub fn add_file(&mut self, path: &str, bytes: &[u8]) -> (r: Result<(), ArchiveError>)
        requires
            old(self).count() < usize::MAX,
        ensures
            bytes@.len() == 0 ==> r == Err::<(), ArchiveError>(ArchiveError::EmptyFile) && *final(self) == *old(self),
            bytes@.len() > 0 && !stays_inside(path@) ==> r == Err::<(), ArchiveError>(ArchiveError::UnsafePath)
                && *final(self) == *old(self),
            old(self).intact() && can_add(old(self)@, path@, bytes@) ==> r is Ok,
            r is Ok ==> final(self)@ == old(self)@.push((path@, bytes@)) && final(self).count() == old(self).count() + 1,
            r is Ok && old(self).intact() ==> final(self).intact(),
            r is Err ==> final(self).count() == old(self).count(),
    {
        if bytes.len() == 0 {
            return Err(ArchiveError::EmptyFile);
        }
        if !is_contained(path) {
            return Err(ArchiveError::UnsafePath);
        }
        if !start_entry(&mut self.writer, path) {
            return Err(ArchiveError::WriteFailed);
        }
        proof {
            let before = zip_entries(old(self).writer);
            let pushed = before.push((path@, Seq::<u8>::empty()));
            assert(pushed.drop_last() =~= before);
            assert(total_size(pushed) == total_size(before));
        }
        if !write_entry(&mut self.writer, bytes) {
            return Err(ArchiveError::WriteFailed);
        }
        assert(self@ =~= old(self)@.push((path@, bytes@)));
        self.file_count = self.file_count + 1;
        Ok(())
    }

    /// How many files were added.
    pub fn file_count(&self) -> (r: usize)
        ensures
            r == self.count(),
    {
        self.file_count
    }

    /// The archive's bytes. An archive no write of which failed always
    /// gives them; they start with a local file header when it holds a
    /// file, and with the end record when it is empty.
    pub fn finish(self) -> (r: Option<Vec<u8>>)
        ensures
            self.intact() ==> r is Some,
            r matches Some(b) ==> b@.len() >= 4 && (self@.len() > 0 ==> b@.take(4) == local_header_signature()),
            r matches Some(b) ==> (self@.len() == 0 ==> b@.take(4) == end_record_signature()),
    {
        finish_writer(self.writer)
    }
}

/// The HTTP status of an archive answer: 200 when every target produced
/// its output, 206 when only some did, 400 when none did.
pub open spec fn archive_status_code(status: BuildStatus) -> u16 {
    match status {
        BuildStatus::Complete => 200,
        BuildStatus::Partial => 206,
        BuildStatus::Failed => 400,
    }
}

/// The HTTP status that answers a build with this verdict.
pub fn status_code(status: BuildStatus) -> (r: u16)
    ensures
        r == archive_status_code(status),
{
    match status {
        BuildStatus::Complete => 200,
        BuildStatus::Partial => 206,
        BuildStatus::Failed => 400,
    }
}

/// Outputs that one archive can hold: at least one, each non-empty, inside
/// the root and short enough, under distinct paths, within the size bound.
pub open spec fn packable(outs: Seq<(Seq<char>, Seq<u8>)>) -> bool {
    &&& outs.len() > 0
    &&& forall|i: int| 0 <= i < outs.len() ==> (#[trigger] outs[i]).1.len() > 0 && stays_inside(outs[i].0)
        && name_fits(outs[i].0)
    &&& forall|i: int, j: int| 0 <= i < j < outs.len() ==> (#[trigger] outs[i]).0 != (#[trigger] outs[j]).0
    &&& size_fits(total_size(outs))
}

proof fn lemma_prefix_size(es: Seq<(Seq<char>, Seq<u8>)>, i: int)
    requires
        0 <= i <= es.len(),
    ensures
        total_size(es.take(i)) <= total_size(es),
    decreases es.len() - i,
{
    if i < es.len() {
        lemma_prefix_size(es, i + 1);
        assert(es.take(i + 1).drop_last() =~= es.take(i));
    } else {
        assert(es.take(i) =~= es);
    }
}

/// Packs every output of a build, paths unchanged and in order, into one
/// archive. A build without outputs gives no archive; packable outputs
/// always give one.
pub fn pack_outputs(result: &BuildResult) -> (r: Result<ZipFile, BuildError>)
    requires
        result.outputs@.len() < usize::MAX,
    ensures
        result.outputs@.len() == 0 ==> r == Err::<ZipFile, BuildError>(BuildError::NothingProduced),
        packable(outputs_view(result.outputs@)) ==> r is Ok,
        r matches Ok(z) ==> z@ == outputs_view(result.outputs@) && z.count() == result.outputs@.len() && z.intact(),
{
    if result.outputs.len() == 0 {
        return Err(BuildError::NothingProduced);
    }
    let ghost outs = outputs_view(result.outputs@);
    let mut zip = ZipFile::new();
    let mut i: usize = 0;
    while i < result.outputs.len()
        invariant
            outs == outputs_view(result.outputs@),
            i <= result.outputs@.len(),
            result.outputs@.len() < usize::MAX,
            zip.count() == i,
            zip.intact(),
            zip@ == outs.take(i as int),
        decreases result.outputs.len() - i,
    {
        let out = &result.outputs[i];
        proof {
            if packable(outs) {
                let pre = outs.take(i as int);
                assert(outs[i as int] == (out.path@, out.bytes@));
                assert(!names_of(pre).contains(out.path@)) by {
                    if names_of(pre).contains(out.path@) {
                        let j = choose|j: int| 0 <= j < names_of(pre).len() && names_of(pre)[j] == out.path@;
                        assert(outs[j].0 == outs[i as int].0);
                    }
                }
                lemma_prefix_size(outs, i + 1);
                assert(outs.take(i + 1).drop_last() =~= pre);
            }
        }
        match zip.add_file(out.path.as_str(), out.bytes.as_slice()) {
            Ok(()) => {},
            Err(_) => return Err(BuildError::ArchiveFailed),
        }
        assert(zip@ =~= outs.take(i + 1));
        i = i + 1;
    }
    assert(outs.take(outs.len() as int) =~= outs);
    Ok(zip)
}

} // verus!
