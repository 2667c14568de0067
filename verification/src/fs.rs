use vstd::prelude::*;
use vstd::math::min;
use vstd::slice::{slice_subrange, slice_to_vec};
use crate::attrs::{
    file_attributes, spec_blocks, spec_file_attributes, spec_root_attributes, root_attributes,
    Attributes, FileKind, FILE_INO, ROOT_INO,
};
use crate::error::Error;
use crate::probe::ResourceMetadata;

verus! {

/// How long the kernel may cache a `lookup` or `getattr` reply, in seconds.
pub const TTL_SECS: u64 = 1;

/// The single contiguous byte range currently held by the cache: the bytes
/// `start .. start + bytes.len()` of the remote resource.  It is replaced
/// wholesale on every miss; there is no merging and no partial update.
#[derive(Debug)]
pub struct CacheWindow {
    pub start: u64,
    pub bytes: Vec<u8>,
}

/// One row of a directory listing.
#[derive(Debug, Clone, PartialEq, Eq)]
pub struct DirEntry {
    pub ino: u64,
    /// The offset at which a continued listing would resume after this row.
    pub next_offset: i64,
    pub kind: FileKind,
    pub name: String,
}

/// What a read decides, stated over mathematical values.
pub enum ReadPlan {
    /// Reply with these bytes; the cache is not touched.
    Reply(Seq<u8>),
    /// Miss: fetch a capacity-sized window starting at this offset, then
    /// install it and reply from it.
    Fetch(u64),
    /// Reply with this error.
    Fail(Error),
}

/// What `read_request` decides.  A `Fetch` asks the caller to perform the
/// range fetch and hand the outcome to `read_fetched`.
#[derive(Debug, PartialEq, Eq)]
pub enum ReadStep {
    Reply(Vec<u8>),
    Fetch(u64),
    Fail(Error),
}

impl View for ReadStep {
    type V = ReadPlan;

    open spec fn view(&self) -> ReadPlan {
        match self {
            ReadStep::Reply(d) => ReadPlan::Reply(d@),
            ReadStep::Fetch(s) => ReadPlan::Fetch(*s),
            ReadStep::Fail(e) => ReadPlan::Fail(*e),
        }
    }
}

/// The two-inode virtual filesystem: the probed file attributes, the name
/// the file is listed under, and the sliding-window byte cache.
#[derive(Debug)]
pub struct HttpFs {
    /// Attributes of the mounted file, derived once from the probe.
    pub file_attr: Attributes,
    /// The name under which the file appears in the root directory.
    pub filename: String,
    /// The configured cache capacity in bytes: a single read may ask for at
    /// most this many bytes, and the window never holds more.
    pub cache_capacity: usize,
    /// The cache window, absent until the first miss has been served.
    pub window: Option<CacheWindow>,
}

impl HttpFs {
    /// The structural invariant: a positive capacity, file attributes that
    /// belong to the file inode with a block count matching the size, and a
    /// window that never outgrows the capacity.
    pub open spec fn wf(self) -> bool {
        &&& self.cache_capacity >= 1
        &&& self.file_attr.ino == FILE_INO
        &&& self.file_attr.kind is RegularFile
        &&& self.file_attr.blksize >= 1
        &&& self.file_attr.blocks == spec_blocks(
            self.file_attr.size as int,
            self.file_attr.blksize as int,
        )
        &&& self.window matches Some(w) ==> w.bytes@.len() <= self.cache_capacity
    }

    /// The window exists and holds all of `offset .. offset + len`.  A read
    /// that starts before the window, even by one byte, is not covered: the
    /// left edge is never shifted.
    pub open spec fn window_covers(self, offset: int, len: int) -> bool {
        self.window matches Some(w) && w.start <= offset && offset + len <= w.start
            + w.bytes@.len()
    }

    /// The bytes `offset .. offset + len` as the window holds them.
    pub open spec fn window_read(self, offset: int, len: int) -> Seq<u8>
        recommends
            self.window_covers(offset, len),
    {
        match self.window {
            Some(w) => w.bytes@.subrange(offset - w.start, offset - w.start + len),
            None => Seq::empty(),
        }
    }

    /// What a read of `size` bytes at `offset` of inode `ino` decides, in
    /// the order the checks are made: only the file inode is readable, the
    /// offset must not be negative, an empty read is answered at once, a
    /// read larger than the capacity is refused whatever the cache holds,
    /// a covered read is served from the window, and anything else is a
    /// miss that fetches a fresh window anchored at `offset`.
    pub open spec fn read_plan(self, ino: u64, offset: i64, size: u32) -> ReadPlan {
        if ino != FILE_INO {
            ReadPlan::Fail(Error::NotFound)
        } else if offset < 0 {
            ReadPlan::Fail(Error::InvalidRange)
        } else if size == 0 {
            ReadPlan::Reply(Seq::empty())
        } else if size as int > self.cache_capacity as int {
            ReadPlan::Fail(Error::InsufficientCacheCapacity)
        } else if self.window_covers(offset as int, size as int) {
            ReadPlan::Reply(self.window_read(offset as int, size as int))
        } else {
            ReadPlan::Fetch(offset as u64)
        }
    }

    /// Build the filesystem for a freshly probed resource, with an empty
    /// cache window.
    pub fn new(metadata: &ResourceMetadata, filename: String, cache_capacity: usize) -> (r: HttpFs)
        requires
            metadata.block_size >= 1,
            cache_capacity >= 1,
        ensures
            r.wf(),
            r.file_attr == spec_file_attributes(metadata.total_size, metadata.block_size),
            r.file_attr.size == metadata.total_size,
            r.filename == filename,
            r.cache_capacity == cache_capacity,
            r.window is None,
    {
        HttpFs {
            file_attr: file_attributes(metadata.total_size, metadata.block_size),
            filename,
            cache_capacity,
            window: None,
        }
    }

    /// Answer a `lookup` of `name` under `parent`: the file attributes when
    /// the parent is the root and the name is, byte for byte, the configured
    /// one; `NotFound` for every other parent or name.
    pub fn lookup(&self, parent: u64, name: &str) -> (r: Result<Attributes, Error>)
        ensures
            parent == ROOT_INO && name@ == self.filename@ ==> r == Ok::<Attributes, Error>(
                self.file_attr,
            ),
            !(parent == ROOT_INO && name@ == self.filename@) ==> r == Err::<Attributes, Error>(
                Error::NotFound,
            ),
    {
        if parent == ROOT_INO && name.to_owned() == self.filename {
            Ok(self.file_attr)
        } else {
            Err(Error::NotFound)
        }
    }

    /// Answer a `getattr`: the root attributes for inode 1, the file
    /// attributes for inode 2, `NotFound` for every other inode.
    pub fn getattr(&self, ino: u64) -> (r: Result<Attributes, Error>)
        ensures
            ino == ROOT_INO ==> r == Ok::<Attributes, Error>(spec_root_attributes()),
            ino == FILE_INO ==> r == Ok::<Attributes, Error>(self.file_attr),
            ino != ROOT_INO && ino != FILE_INO ==> r == Err::<Attributes, Error>(Error::NotFound),
    {
        if ino == ROOT_INO {
            Ok(root_attributes())
        } else if ino == FILE_INO {
            Ok(self.file_attr)
        } else {
            Err(Error::NotFound)
        }
    }

    /// Answer a `readdir`: only the root can be listed; at offset 0 the
    /// listing holds exactly `.`, `..` and the configured file name, in that
    /// order, and at any other offset the listing has ended.
    pub fn readdir(&self, ino: u64, offset: i64) -> (r: Result<Vec<DirEntry>, Error>)
        ensures
            ino != ROOT_INO ==> (r matches Err(e) && e == Error::NotFound),
            ino == ROOT_INO && offset == 0 ==> (r matches Ok(entries) && root_listing(
                entries@,
                self.filename@,
            )),
            ino == ROOT_INO && offset != 0 ==> (r matches Ok(entries) && entries@.len() == 0),
    {
        if ino != ROOT_INO {
            return Err(Error::NotFound);
        }
        let mut entries: Vec<DirEntry> = Vec::new();
        if offset == 0 {
            entries.push(
                DirEntry {
                    ino: ROOT_INO,
                    next_offset: 0,
                    kind: FileKind::Directory,
                    name: ".".to_owned(),
                },
            );
            entries.push(
                DirEntry {
                    ino: ROOT_INO,
                    next_offset: 1,
                    kind: FileKind::Directory,
                    name: "..".to_owned(),
                },
            );
            entries.push(
                DirEntry {
                    ino: FILE_INO,
                    next_offset: 1,
                    kind: FileKind::RegularFile,
                    name: self.filename.clone(),
                },
            );
        }
        Ok(entries)
    }

    /// Decide a read without touching any state.  The result follows
    /// `read_plan` exactly: a reply served from the window, an error, or a
    /// request to fetch a fresh window at the read's offset.
    pub fn read_request(&self, ino: u64, offset: i64, size: u32) -> (r: ReadStep)
        ensures
            r@ == self.read_plan(ino, offset, size),
    {
        if ino != FILE_INO {
            return ReadStep::Fail(Error::NotFound);
        }
        if offset < 0 {
            return ReadStep::Fail(Error::InvalidRange);
        }
        if size == 0 {
            return ReadStep::Reply(Vec::new());
        }
        if size as usize > self.cache_capacity {
            return ReadStep::Fail(Error::InsufficientCacheCapacity);
        }
        let start: u64 = offset as u64;
        if let Some(w) = &self.window {
            if start >= w.start {
                let woff: u64 = start - w.start;
                let wlen: u64 = w.bytes.len() as u64;
                if size as u64 <= wlen && woff <= wlen - size as u64 {
                    let i: usize = woff as usize;
                    let j: usize = i + size as usize;
                    return ReadStep::Reply(slice_to_vec(slice_subrange(w.bytes.as_slice(), i, j)));
                }
            }
        }
        ReadStep::Fetch(start)
    }

    /// Finish a read that missed: install the fetched bytes as the new
    /// window anchored at `start` — replacing any previous window wholesale
    /// and keeping at most the configured capacity — and reply with the
    /// window's first `size` bytes, or with all of them when the resource
    /// ended before `size` bytes (a short read at the tail is a short
    /// result, not an error).  A failed fetch changes nothing and is
    /// reported as a `NetworkError`.
    pub fn read_fetched(&mut self, start: u64, fetched: Result<Vec<u8>, String>, size: u32) -> (r:
        Result<Vec<u8>, Error>)
        requires
            old(self).wf(),
        ensures
            final(self).wf(),
            final(self).file_attr == old(self).file_attr,
            final(self).filename == old(self).filename,
            final(self).cache_capacity == old(self).cache_capacity,
            fetched matches Err(m) ==> (final(self).window == old(self).window && r == Err::<
                Vec<u8>,
                Error,
            >(Error::NetworkError(m))),
            fetched matches Ok(buf) ==> (final(self).window matches Some(w) && w.start == start
                && w.bytes@ == buf@.take(min(buf@.len() as int, old(self).cache_capacity as int))),
            fetched matches Ok(buf) ==> (final(self).window matches Some(w) && r matches Ok(d) && d@
                == w.bytes@.take(min(size as int, w.bytes@.len() as int))),
    {
        match fetched {
            Err(m) => Err(Error::NetworkError(m)),
            Ok(mut buf) => {
                if buf.len() > self.cache_capacity {
                    buf.truncate(self.cache_capacity);
                }
                proof {
                    assert(buf@.take(buf@.len() as int) =~= buf@);
                }
                let take_len: usize = if (size as usize) <= buf.len() {
                    size as usize
                } else {
                    buf.len()
                };
                let data: Vec<u8> = slice_to_vec(slice_subrange(buf.as_slice(), 0, take_len));
                self.window = Some(CacheWindow { start, bytes: buf });
                Ok(data)
            },
        }
    }
}

/// The fixed three-row listing of the root directory: `.`, `..`, and the
/// configured file name mapped to the file inode.
pub open spec fn root_listing(entries: Seq<DirEntry>, filename: Seq<char>) -> bool {
    &&& entries.len() == 3
    &&& entries[0].ino == ROOT_INO
    &&& entries[0].next_offset == 0
    &&& entries[0].kind is Directory
    &&& entries[0].name@ == "."@
    &&& entries[1].ino == ROOT_INO
    &&& entries[1].next_offset == 1
    &&& entries[1].kind is Directory
    &&& entries[1].name@ == ".."@
    &&& entries[2].ino == FILE_INO
    &&& entries[2].next_offset == 1
    &&& entries[2].kind is RegularFile
    &&& entries[2].name@ == filename
}

/// Every read that lies inside the current window is answered from the
/// cache alone: the plan is a reply with the window's bytes, never another
/// fetch.  In particular, after a miss at some offset has filled the window,
/// all further reads inside it cost no network request.
pub proof fn lemma_read_within_window_is_hit(fs: HttpFs, offset: i64, size: u32)
    requires
        0 <= offset,
        0 < size,
        size as int <= fs.cache_capacity as int,
        fs.window_covers(offset as int, size as int),
    ensures
        fs.read_plan(FILE_INO, offset, size) == ReadPlan::Reply(
            fs.window_read(offset as int, size as int),
        ),
{
}

/// A read larger than the configured capacity is always refused with
/// `InsufficientCacheCapacity`, whatever the window holds and wherever the
/// read starts.
pub proof fn lemma_oversized_read_rejected(fs: HttpFs, offset: i64, size: u32)
    requires
        0 <= offset,
        size as int > fs.cache_capacity as int,
    ensures
        fs.read_plan(FILE_INO, offset, size) == ReadPlan::Fail(Error::InsufficientCacheCapacity),
{
}

/// Deciding a read changes nothing, so repeating an identical read against
/// the same state follows the same plan and, when it replies, replies with
/// byte-identical data.
pub proof fn lemma_read_idempotent(
    fs: HttpFs,
    ino: u64,
    offset: i64,
    size: u32,
    first: ReadStep,
    second: ReadStep,
)
    requires
        first@ == fs.read_plan(ino, offset, size),
        second@ == fs.read_plan(ino, offset, size),
    ensures
        first@ == second@,
        first@ matches ReadPlan::Reply(d1) ==> (second@ matches ReadPlan::Reply(d2) && d1 == d2),
{
}

} // verus!
