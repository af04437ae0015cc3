//! The reader pool and the directory surface presented to the kernel.
//!
//! [`HttpFs`] routes each incoming block request to the first live reader
//! whose window holds it, and otherwise admits a fresh reader at the request
//! offset, evicting the oldest readers beyond the pool's capacity. It also
//! answers the kernel's lookup / getattr / readdir queries over the fixed
//! one-file directory tree. The kernel binding, the HTTP transfers and the
//! producer threads live outside; they drive these functions and convert the
//! plain attribute records returned here into what the kernel expects.

use crate::http_reader::{DataAddr, HttpReader, HTTP_CHUNK_SIZE, MAX_BUFFER_SIZE};
use vstd::prelude::*;

verus! {

/// Fixed capacity of the reader pool.
pub const MAX_READERS: usize = 5;

/// How long the kernel may cache the attributes this filesystem reports.
pub const FILE_INFO_CACHE_TTL_SECS: u64 = 60;

/// Inode of the mount-root directory.
pub const ROOT_INO: u64 = 1;

/// Inode of the single exposed file.
pub const FILE_INO: u64 = 2;

/// The kind of a directory entry.
#[derive(PartialEq, Eq, Structural, Debug, Clone, Copy)]
pub enum EntryKind {
    Directory,
    RegularFile,
}

/// The plain part of a node's attributes. The surrounding process adds what
/// only it can know: timestamps ("now") and the invoking user's uid and gid.
#[derive(PartialEq, Eq, Structural, Debug, Clone, Copy)]
pub struct AttrInfo {
    pub ino: u64,
    pub size: u64,
    pub blocks: u64,
    pub kind: EntryKind,
    pub perm: u16,
    pub nlink: u32,
    pub blksize: u32,
}

/// One entry a readdir answer hands back, with the continuation offset the
/// kernel must pass to resume after it.
pub struct DirEntry {
    pub ino: u64,
    pub next_offset: i64,
    pub kind: EntryKind,
    pub name: String,
}

/// The pool of live range readers together with the mounted file's metadata.
#[verifier::ext_equal]
pub struct HttpFs {
    /// Live readers, oldest first.
    pub readers: Vec<HttpReader>,
    pub file_size: usize,
    pub file_name: String,
    pub resource_url: String,
    pub additional_headers: Vec<String>,
    /// Identity the next admitted reader will carry.
    pub next_ordinal: usize,
}

impl HttpFs {
    /// The pool never outgrows its capacity, and every reader it holds is
    /// internally consistent and sized against the same resource.
    pub open spec fn wf(self) -> bool {
        &&& self.file_size + MAX_BUFFER_SIZE <= usize::MAX
        &&& self.readers@.len() <= MAX_READERS
        &&& forall|i: int|
            0 <= i < self.readers@.len() ==> {
                &&& (#[trigger] self.readers@[i]).wf()
                &&& self.readers@[i].resource_size == self.file_size
            }
    }

    /// The pool's metadata does not change across reader operations.
    pub open spec fn same_config(pre: HttpFs, post: HttpFs) -> bool {
        &&& post.file_size == pre.file_size
        &&& post.file_name == pre.file_name
        &&& post.resource_url == pre.resource_url
        &&& post.additional_headers == pre.additional_headers
    }

    /// The request was served by reader `i`: the first reader able to serve
    /// it, which drained it, every other reader standing untouched.
    pub open spec fn served_from(
        pre: HttpFs,
        post: HttpFs,
        abs_addr: DataAddr,
        bytes: Seq<u8>,
        i: int,
    ) -> bool {
        &&& 0 <= i < pre.readers@.len()
        &&& pre.readers@[i].can_serve(abs_addr)
        &&& forall|j: int| 0 <= j < i ==> !(#[trigger] pre.readers@[j]).can_serve(abs_addr)
        &&& bytes == pre.readers@[i].drained_bytes(abs_addr)
        &&& HttpReader::drain_transition(pre.readers@[i], post.readers@[i], abs_addr)
        &&& post.readers@ == pre.readers@.update(i, post.readers@[i])
    }

    /// A reader just admitted by the pool: empty, running, positioned at the
    /// request offset, sized against the pool's resource.
    pub open spec fn fresh_reader(r: HttpReader, fs: HttpFs, start_offset: int, ordinal: int) -> bool {
        &&& r.wf()
        &&& r.offset == start_offset
        &&& r.data@ == Seq::<u8>::empty()
        &&& r.resource_size == fs.file_size
        &&& r.resource_url@ == fs.resource_url@
        &&& r.stop_requested == false
        &&& r.additional_headers@ == fs.additional_headers@
        &&& r.ordinal_number == ordinal
        &&& r.start_offset@ == start_offset
        &&& r.delivered@ == Seq::<u8>::empty()
    }

    pub fn new(url: &str, file_size: usize, file_name: &str, additional_headers: Vec<String>) -> (r: HttpFs)
        requires
            file_size + MAX_BUFFER_SIZE <= usize::MAX,
        ensures
            r.wf(),
            r.readers@ == Seq::<HttpReader>::empty(),
            r.file_size == file_size,
            r.file_name@ == file_name@,
            r.resource_url@ == url@,
            r.additional_headers == additional_headers,
            r.next_ordinal == 0,
    {
        HttpFs {
            readers: Vec::new(),
            file_size,
            file_name: file_name.to_string(),
            resource_url: url.to_string(),
            additional_headers,
            next_ordinal: 0,
        }
    }

    pub fn readers_count(&self) -> (r: usize)
        ensures
            r == self.readers@.len(),
    {
        self.readers.len()
    }

    /// Offer the request to each live reader in insertion order; the first
    /// that can serve it wins. `None` when no live reader holds the range
    /// yet: the caller then admits a fresh reader and retries, re-polling
    /// until the stream catches up or its wait times out.
    pub fn drain_data_from_suitable_reader(&mut self, offset: usize, size: usize) -> (r: Option<
        Vec<u8>,
    >)
        requires
            old(self).wf(),
            offset + size <= usize::MAX,
        ensures
            final(self).wf(),
            HttpFs::same_config(*old(self), *final(self)),
            final(self).next_ordinal == old(self).next_ordinal,
            r is None ==> final(self).readers@ == old(self).readers@,
            r is None ==> forall|i: int|
                0 <= i < old(self).readers@.len() ==> !(#[trigger] old(
                    self,
                ).readers@[i]).can_serve((DataAddr { offset, size })),
            r is Some ==> exists|i: int|
                #[trigger] HttpFs::served_from(
                    *old(self),
                    *final(self),
                    (DataAddr { offset, size }),
                    r->Some_0@,
                    i,
                ),
    {
        let abs_addr = DataAddr::new(offset, size);
        let n: usize = self.readers.len();
        let mut k: usize = 0;
        while k < n
            invariant
                old(self).wf(),
                abs_addr.wf(),
                abs_addr.offset == offset,
                abs_addr.size == size,
                n == old(self).readers@.len(),
                k <= n,
                self.readers@ == old(self).readers@,
                HttpFs::same_config(*old(self), *self),
                self.next_ordinal == old(self).next_ordinal,
                forall|j: int|
                    0 <= j < k ==> !(#[trigger] old(self).readers@[j]).can_serve(abs_addr),
            decreases n - k,
        {
            let reader = &mut self.readers[k];
            let res = reader.try_drain_data(abs_addr);
            match res {
                Some(d) => {
                    proof {
                        assert(self.readers@ =~= old(self).readers@.update(
                            k as int,
                            self.readers@[k as int],
                        ));
                        assert(HttpFs::served_from(
                            *old(self),
                            *self,
                            (DataAddr { offset, size }),
                            d@,
                            k as int,
                        ));
                        assert(exists|i: int|
                            #[trigger] HttpFs::served_from(
                                *old(self),
                                *self,
                                (DataAddr { offset, size }),
                                d@,
                                i,
                            ));
                    }
                    return Some(d);
                },
                None => {
                    proof {
                        assert(self.readers@ =~= old(self).readers@);
                    }
                },
            }
            k = k + 1;
        }
        None
    }

    /// Drain from the first reader whose window holds the request whatever of
    /// it has already arrived — possibly nothing. This is the consumer's
    /// fallback after its wait has timed out: the answer may be short or
    /// empty, but there always is one.
    pub fn drain_available_data(&mut self, offset: usize, size: usize) -> (r: Vec<u8>)
        requires
            old(self).wf(),
            offset + size <= usize::MAX,
        ensures
            final(self).wf(),
            HttpFs::same_config(*old(self), *final(self)),
            final(self).next_ordinal == old(self).next_ordinal,
            ({
                let abs_addr = DataAddr { offset, size };
                if exists|i: int|
                    0 <= i < old(self).readers@.len() && (#[trigger] old(
                        self,
                    ).readers@[i]).translates(abs_addr) {
                    exists|i: int|
                        {
                            &&& 0 <= i < old(self).readers@.len()
                            &&& (#[trigger] old(self).readers@[i]).translates(abs_addr)
                            &&& forall|j: int|
                                0 <= j < i ==> !(#[trigger] old(self).readers@[j]).translates(
                                    abs_addr,
                                )
                            &&& r@ == old(self).readers@[i].drained_bytes(abs_addr)
                            &&& HttpReader::drain_transition(
                                old(self).readers@[i],
                                final(self).readers@[i],
                                abs_addr,
                            )
                            &&& final(self).readers@ == old(self).readers@.update(
                                i,
                                final(self).readers@[i],
                            )
                        }
                } else {
                    r@ == Seq::<u8>::empty() && final(self).readers@ == old(self).readers@
                }
            }),
    {
        let abs_addr = DataAddr::new(offset, size);
        let n: usize = self.readers.len();
        let mut k: usize = 0;
        while k < n
            invariant
                old(self).wf(),
                abs_addr.wf(),
                abs_addr.offset == offset,
                abs_addr.size == size,
                n == old(self).readers@.len(),
                k <= n,
                self.readers@ == old(self).readers@,
                HttpFs::same_config(*old(self), *self),
                self.next_ordinal == old(self).next_ordinal,
                forall|j: int|
                    0 <= j < k ==> !(#[trigger] old(self).readers@[j]).translates(abs_addr),
            decreases n - k,
        {
            let reader = &mut self.readers[k];
            let res = reader.drain_available_data(abs_addr);
            match res {
                Some(d) => {
                    proof {
                        assert(self.readers@ =~= old(self).readers@.update(
                            k as int,
                            self.readers@[k as int],
                        ));
                    }
                    return d;
                },
                None => {
                    proof {
                        assert(self.readers@ =~= old(self).readers@);
                    }
                },
            }
            k = k + 1;
        }
        Vec::new()
    }

    /// Admit a fresh reader at `start_offset`, pushing it behind every live
    /// reader, then evict and stop the oldest readers until the pool fits its
    /// capacity again. The stopped readers are handed back: their producers
    /// keep hold of them until the stop is observed.
    pub fn admit_reader(&mut self, start_offset: usize) -> (evicted: Vec<HttpReader>)
        requires
            old(self).wf(),
            start_offset <= old(self).file_size,
            old(self).next_ordinal < usize::MAX,
        ensures
            final(self).wf(),
            HttpFs::same_config(*old(self), *final(self)),
            final(self).next_ordinal == old(self).next_ordinal + 1,
            final(self).readers@.len() <= MAX_READERS,
            ({
                let evicted_count = if old(self).readers@.len() + 1 > MAX_READERS {
                    old(self).readers@.len() + 1 - MAX_READERS
                } else {
                    0
                };
                &&& evicted@.len() == evicted_count
                &&& final(self).readers@.len() == old(self).readers@.len() + 1 - evicted_count
                &&& forall|j: int|
                    0 <= j < evicted_count ==> HttpReader::stop_transition(
                        old(self).readers@[j],
                        #[trigger] evicted@[j],
                    )
                &&& forall|j: int|
                    0 <= j < final(self).readers@.len() - 1 ==> final(self).readers@[j] == old(
                        self,
                    ).readers@[j + evicted_count]
                &&& HttpFs::fresh_reader(
                    final(self).readers@.last(),
                    *old(self),
                    start_offset as int,
                    old(self).next_ordinal as int,
                )
            }),
    {
        let headers = clone_string_vec(&self.additional_headers);
        let reader = HttpReader::new(
            self.resource_url.as_str(),
            start_offset,
            self.file_size,
            headers,
            self.next_ordinal,
        );
        let ghost fresh = reader;
        self.readers.push(reader);
        let mut evicted: Vec<HttpReader> = Vec::new();
        while self.readers.len() > MAX_READERS
            invariant
                old(self).wf(),
                HttpFs::same_config(*old(self), *self),
                self.next_ordinal == old(self).next_ordinal,
                HttpFs::fresh_reader(fresh, *old(self), start_offset as int, old(self).next_ordinal as int),
                self.readers@.len() + evicted@.len() == old(self).readers@.len() + 1,
                self.readers@.len() >= 1,
                self.readers@.last() == fresh,
                forall|j: int|
                    0 <= j < self.readers@.len() - 1 ==> #[trigger] self.readers@[j] == old(
                        self,
                    ).readers@[j + evicted@.len()],
                forall|j: int|
                    0 <= j < evicted@.len() ==> HttpReader::stop_transition(
                        old(self).readers@[j],
                        #[trigger] evicted@[j],
                    ),
                self.readers@.len() >= MAX_READERS || evicted@.len() == 0,
            decreases self.readers@.len(),
        {
            let mut oldest = self.readers.remove(0);
            oldest.stop();
            evicted.push(oldest);
        }
        self.next_ordinal = self.next_ordinal + 1;
        evicted
    }

    /// Index of the first live reader carrying this ordinal, if any: how a
    /// detached producer finds its reader again under the pool lock.
    pub fn find_reader(&self, ordinal: usize) -> (r: Option<usize>)
        ensures
            r is Some ==> {
                &&& r->Some_0 < self.readers@.len()
                &&& self.readers@[r->Some_0 as int].ordinal_number == ordinal
                &&& forall|j: int|
                    0 <= j < r->Some_0 ==> (#[trigger] self.readers@[j]).ordinal_number != ordinal
            },
            r is None ==> forall|j: int|
                0 <= j < self.readers@.len() ==> (#[trigger] self.readers@[j]).ordinal_number
                    != ordinal,
    {
        let n: usize = self.readers.len();
        let mut k: usize = 0;
        while k < n
            invariant
                n == self.readers@.len(),
                k <= n,
                forall|j: int|
                    0 <= j < k ==> (#[trigger] self.readers@[j]).ordinal_number != ordinal,
            decreases n - k,
        {
            if self.readers[k].ordinal_number == ordinal {
                return Some(k);
            }
            k = k + 1;
        }
        None
    }

    /// Whether some live reader's window holds the request, so that waiting
    /// for its stream can still succeed. When no window holds it, the caller
    /// admits a fresh reader instead of waiting.
    pub fn any_reader_translates(&self, offset: usize, size: usize) -> (r: bool)
        requires
            self.wf(),
            offset + size <= usize::MAX,
        ensures
            r <==> exists|i: int|
                0 <= i < self.readers@.len() && (#[trigger] self.readers@[i]).translates(
                    (DataAddr { offset, size }),
                ),
    {
        let abs_addr = DataAddr::new(offset, size);
        let n: usize = self.readers.len();
        let mut k: usize = 0;
        while k < n
            invariant
                self.wf(),
                abs_addr.wf(),
                abs_addr.offset == offset,
                abs_addr.size == size,
                n == self.readers@.len(),
                k <= n,
                forall|j: int|
                    0 <= j < k ==> !(#[trigger] self.readers@[j]).translates(abs_addr),
            decreases n - k,
        {
            let reader = &self.readers[k];
            if reader.abs_to_rel_addr(abs_addr).is_some() {
                proof {
                    assert(self.readers@[k as int].translates((DataAddr { offset, size })));
                }
                return true;
            }
            k = k + 1;
        }
        false
    }

    /// Attributes of the single exposed file.
    pub open spec fn file_attr_spec(self) -> AttrInfo {
        AttrInfo {
            ino: FILE_INO,
            size: self.file_size as u64,
            blocks: 1,
            kind: EntryKind::RegularFile,
            perm: 0o644,
            nlink: 1,
            blksize: 512,
        }
    }

    /// Attributes of the mount-root directory.
    pub open spec fn dir_attr_spec(self) -> AttrInfo {
        AttrInfo {
            ino: ROOT_INO,
            size: 0,
            blocks: 0,
            kind: EntryKind::Directory,
            perm: 0o755,
            nlink: 2,
            blksize: 512,
        }
    }

    pub fn get_file_attr(&self) -> (r: AttrInfo)
        ensures
            r == self.file_attr_spec(),
    {
        AttrInfo {
            ino: FILE_INO,
            size: self.file_size as u64,
            blocks: 1,
            kind: EntryKind::RegularFile,
            perm: 0o644,
            nlink: 1,
            blksize: 512,
        }
    }

    pub fn get_dir_attr(&self) -> (r: AttrInfo)
        ensures
            r == self.dir_attr_spec(),
    {
        AttrInfo {
            ino: ROOT_INO,
            size: 0,
            blocks: 0,
            kind: EntryKind::Directory,
            perm: 0o755,
            nlink: 2,
            blksize: 512,
        }
    }

    /// Resolve `name` under directory `parent`: only the configured file name
    /// under the root resolves, to the file's attributes.
    pub fn lookup(&self, parent: u64, name: &String) -> (r: Option<AttrInfo>)
        ensures
            r is Some <==> parent == ROOT_INO && name@ == self.file_name@,
            r is Some ==> r->Some_0 == self.file_attr_spec(),
    {
        if parent == ROOT_INO && *name == self.file_name {
            Some(self.get_file_attr())
        } else {
            None
        }
    }

    /// Attributes by inode: the root directory, the file, or nothing.
    pub fn getattr(&self, ino: u64) -> (r: Option<AttrInfo>)
        ensures
            ino == ROOT_INO ==> r == Some(self.dir_attr_spec()),
            ino == FILE_INO ==> r == Some(self.file_attr_spec()),
            ino != ROOT_INO && ino != FILE_INO ==> r is None,
    {
        if ino == ROOT_INO {
            Some(self.get_dir_attr())
        } else if ino == FILE_INO {
            Some(self.get_file_attr())
        } else {
            None
        }
    }

    /// Entry `idx` of the root directory listing: `.`, `..`, then the file.
    pub open spec fn dir_entry_ok(self, e: DirEntry, idx: int) -> bool {
        if idx == 0 {
            e.ino == ROOT_INO && e.kind == EntryKind::Directory && e.name@ == "."@
                && e.next_offset == 1
        } else if idx == 1 {
            e.ino == ROOT_INO && e.kind == EntryKind::Directory && e.name@ == ".."@
                && e.next_offset == 2
        } else {
            e.ino == FILE_INO && e.kind == EntryKind::RegularFile && e.name@ == self.file_name@
                && e.next_offset == 3
        }
    }

    /// List the root directory from continuation offset `start_index` on.
    /// Each entry carries the offset the kernel passes to resume after it.
    /// Listing any other inode fails.
    pub fn readdir(&self, ino: u64, start_index: u64) -> (r: Option<Vec<DirEntry>>)
        ensures
            r is Some <==> ino == ROOT_INO,
            r is Some ==> r->Some_0@.len() == (if start_index < 3 {
                3 - start_index
            } else {
                0int
            }),
            r is Some ==> forall|j: int|
                0 <= j < r->Some_0@.len() ==> self.dir_entry_ok(
                    #[trigger] r->Some_0@[j],
                    start_index + j,
                ),
    {
        if ino != ROOT_INO {
            return None;
        }
        let mut entries: Vec<DirEntry> = Vec::new();
        if start_index < 1 {
            entries.push(
                DirEntry {
                    ino: ROOT_INO,
                    next_offset: 1,
                    kind: EntryKind::Directory,
                    name: ".".to_string(),
                },
            );
        }
        if start_index < 2 {
            entries.push(
                DirEntry {
                    ino: ROOT_INO,
                    next_offset: 2,
                    kind: EntryKind::Directory,
                    name: "..".to_string(),
                },
            );
        }
        if start_index < 3 {
            entries.push(
                DirEntry {
                    ino: FILE_INO,
                    next_offset: 3,
                    kind: EntryKind::RegularFile,
                    name: self.file_name.clone(),
                },
            );
        }
        Some(entries)
    }

    /// Turn a kernel read request into a block address against the resource:
    /// clamped so that it never reaches past the end of the file. Reads on
    /// any inode but the file fail.
    pub fn read_addr(&self, ino: u64, offset: u64, size: u32) -> (r: Option<DataAddr>)
        ensures
            r is Some <==> ino == FILE_INO,
            r is Some ==> {
                let a = r->Some_0;
                &&& a.wf()
                &&& a.offset == vstd::math::min(offset as int, self.file_size as int)
                &&& a.end() == vstd::math::min(a.offset + size, self.file_size as int)
                &&& a.end() <= self.file_size
            },
    {
        if ino != FILE_INO {
            return None;
        }
        let clamped64: u64 = if offset < self.file_size as u64 {
            offset
        } else {
            self.file_size as u64
        };
        let clamped: usize = clamped64 as usize;
        let remaining: usize = self.file_size - clamped;
        let sz: usize = if (size as usize) < remaining {
            size as usize
        } else {
            remaining
        };
        Some(DataAddr { offset: clamped, size: sz })
    }

    /// Borrow reader `k` mutably, for a producer appending a chunk under the
    /// pool lock.
    pub fn reader_mut(&mut self, k: usize) -> (r: &mut HttpReader)
        requires
            k < old(self).readers@.len(),
        ensures
            *r == old(self).readers@[k as int],
            final(self).readers@ == old(self).readers@.update(k as int, *final(r)),
            HttpFs::same_config(*old(self), *final(self)),
            final(self).next_ordinal == old(self).next_ordinal,
    {
        &mut self.readers[k]
    }
}

/// A successful routing of a request lying inside the resource returns
/// exactly the serving reader's stream bytes at the requested absolute
/// positions, and exactly as many bytes as the request asked for, shortened
/// only by the end of the resource. With a range-honouring server, the
/// returned bytes therefore are resource bytes
/// `[abs_addr.offset, abs_addr.offset + bytes.len())`; see
/// [`crate::stream_laws`] for reassembling a whole scan from such reads.
pub proof fn lemma_served_bytes_are_stream_bytes(
    pre: HttpFs,
    post: HttpFs,
    abs_addr: DataAddr,
    bytes: Seq<u8>,
    i: int,
)
    requires
        pre.wf(),
        abs_addr.wf(),
        HttpFs::served_from(pre, post, abs_addr, bytes, i),
        abs_addr.end() <= pre.file_size,
    ensures
        bytes == pre.readers@[i].delivered@.subrange(
            abs_addr.offset - pre.readers@[i].start_offset@,
            abs_addr.offset - pre.readers@[i].start_offset@ + bytes.len(),
        ),
        bytes.len() == vstd::math::min(abs_addr.size as int, pre.file_size - abs_addr.offset),
{
    crate::http_reader::lemma_drained_bytes_are_stream_bytes(pre.readers@[i], abs_addr);
    crate::http_reader::lemma_drained_len(pre.readers@[i], abs_addr);
}

/// Bounded memory: in every well-formed pool state — and every pool
/// operation returns one — the pool holds at most its fixed number of
/// readers, and each live reader buffers at most the ceiling plus one chunk
/// of slack (a chunk is appended whole once the producer saw room).
pub proof fn lemma_bounded_memory(fs: HttpFs)
    requires
        fs.wf(),
    ensures
        fs.readers@.len() <= MAX_READERS,
        forall|i: int|
            0 <= i < fs.readers@.len() ==> (#[trigger] fs.readers@[i]).data@.len()
                <= MAX_BUFFER_SIZE + HTTP_CHUNK_SIZE,
{
}

/// Copy a vector of header lines.
fn clone_string_vec(v: &Vec<String>) -> (r: Vec<String>)
    ensures
        r@ == v@,
{
    let mut r: Vec<String> = Vec::new();
    let mut k: usize = 0;
    while k < v.len()
        invariant
            k <= v@.len(),
            r@ == v@.subrange(0, k as int),
        decreases v@.len() - k,
    {
        r.push(v[k].clone());
        proof {
            assert(r@ =~= v@.subrange(0, k + 1));
        }
        k = k + 1;
    }
    proof {
        assert(r@ =~= v@);
    }
    r
}

} // verus!
