//! The writer of one transcript: when its file is full, and which files of a
//! host are removed once there are too many.

use vstd::prelude::*;

use crate::config::paths::JoinedPath;
use crate::session_log::{log_dirs, log_host_dir, log_path};

verus! {

/// Append-only session log writer with size-based rotation and retention
/// pruning. It keeps the books; the caller writes the bytes.
pub struct SessionLogWriter {
    pub host_dir: JoinedPath,
    pub current_path: JoinedPath,
    pub bytes_written: u64,
    pub max_file_bytes: u64,
    pub retention_files: usize,
    pub file_serial: u32,
    pub closed: bool,
}

/// What to do once bytes were appended to the current file.
#[derive(Debug, Clone, Copy, PartialEq, Eq, Structural)]
pub enum AppendStep {
    /// The file has room.
    Keep,
    /// The file is full: flush it and begin the next one.
    Rotate,
}

impl SessionLogWriter {
    /// The file still has room, or nothing was written to it.
    pub open spec fn has_room(self) -> bool {
        self.bytes_written == 0 || self.bytes_written < self.max_file_bytes
    }

    /// Whether so many more bytes fill the file. No bytes at all never do.
    pub open spec fn filled_by(self, len: nat) -> bool {
        len > 0 && self.bytes_written + len >= self.max_file_bytes
    }

    /// The writer with so many more bytes in its file.
    pub open spec fn counting(self, len: nat) -> SessionLogWriter {
        SessionLogWriter { bytes_written: (self.bytes_written + len) as u64, ..self }
    }

    /// The writer with the number of its next file used up.
    pub open spec fn rotating(self) -> SessionLogWriter {
        SessionLogWriter { file_serial: (self.file_serial + 1) as u32, ..self }
    }

    /// The writer on an empty file.
    pub open spec fn going_on(self, path: JoinedPath) -> SessionLogWriter {
        SessionLogWriter { current_path: path, bytes_written: 0, ..self }
    }

    /// A writer on a file that was just created for a host, in the host's own directory
    /// in the data directory.
    pub fn open(
        base: &JoinedPath,
        host_name: &str,
        host_id: Option<i64>,
        file_name: &str,
        max_file_bytes: u64,
        retention_files: usize,
    ) -> (r: Self)
        ensures
            r.host_dir@ == log_host_dir(base@, host_name@, host_id),
            r.current_path@ == log_path(base@, host_name@, host_id, file_name@),
            r.bytes_written == 0,
            r.max_file_bytes == max_file_bytes,
            r.retention_files == retention_files,
            r.file_serial == 0,
            !r.closed,
            r.has_room(),
    {
        let (_, host_dir) = log_dirs(base, host_name, host_id);
        let current_path = host_dir.joined(file_name);
        SessionLogWriter {
            host_dir,
            current_path,
            bytes_written: 0,
            max_file_bytes,
            retention_files,
            file_serial: 0,
            closed: false,
        }
    }

    /// The file that is being written.
    pub fn path(&self) -> (r: &JoinedPath)
        ensures
            *r == self.current_path,
    {
        &self.current_path
    }

    /// Directory holding this host's rotated log segments.
    pub fn host_dir(&self) -> (r: &JoinedPath)
        ensures
            *r == self.host_dir,
    {
        &self.host_dir
    }

    /// Counts `len` bytes that were written to the current file. An empty
    /// write changes nothing and never fills a file.
    pub fn append(&mut self, len: usize) -> (r: AppendStep)
        requires
            old(self).bytes_written + len <= u64::MAX,
        ensures
            *final(self) == old(self).counting(len as nat),
            r == AppendStep::Rotate <==> old(self).filled_by(len as nat),
            old(self).has_room() && r == AppendStep::Keep ==> final(self).has_room(),
    {
        if len == 0 {
            return AppendStep::Keep;
        }
        self.bytes_written = self.bytes_written + len as u64;
        if self.bytes_written >= self.max_file_bytes {
            AppendStep::Rotate
        } else {
            AppendStep::Keep
        }
    }

    /// The number of the next file, once the full one was flushed. The number
    /// is used up even if that file cannot be created.
    pub fn begin_rotation(&mut self) -> (r: u32)
        requires
            old(self).file_serial < u32::MAX,
        ensures
            *final(self) == old(self).rotating(),
            r == final(self).file_serial,
    {
        self.file_serial = self.file_serial + 1;
        self.file_serial
    }

    /// Goes on with the file that was created for the rotation.
    pub fn finish_rotation(&mut self, file_name: &str)
        ensures
            *final(self) == old(self).going_on(final(self).current_path),
            final(self).current_path@ == old(self).host_dir@.with(file_name@),
            final(self).has_room(),
    {
        self.current_path = self.host_dir.joined(file_name);
        self.bytes_written = 0;
    }

    /// Marks the writer as closed: its file was flushed and old files removed.
    pub fn close(&mut self)
        ensures
            *final(self) == (SessionLogWriter { closed: true, ..*old(self) }),
    {
        self.closed = true;
    }

    /// Whether dropping the writer still has to flush and remove old files.
    pub fn needs_flush_on_drop(&self) -> (r: bool)
        ensures
            r == !self.closed,
    {
        !self.closed
    }
}

// ---------------------------------------------------------------------------
// What the files hold

/// A writer and what its files hold, in the order in which they were created.
pub ghost struct LogDisk {
    pub writer: SessionLogWriter,
    pub files: Seq<Seq<u8>>,
}

/// A writer that was just opened, on one empty file.
pub open spec fn just_opened(disk: LogDisk) -> bool {
    &&& disk.writer.bytes_written == 0
    &&& disk.writer.file_serial == 0
    &&& disk.files == seq![Seq::<u8>::empty()]
}

/// All bytes of several pieces, one piece after the other.
pub open spec fn all_bytes(pieces: Seq<Seq<u8>>) -> Seq<u8>
    decreases pieces.len(),
{
    if pieces.len() == 0 {
        Seq::empty()
    } else {
        all_bytes(pieces.drop_last()) + pieces.last()
    }
}

/// What follows when a chunk is written and every step succeeds: the chunk goes to the
/// end of the current file; if that is full then, the writer rotates to a new file,
/// whose path depends on its number.
pub open spec fn after_chunk(
    disk: LogDisk,
    chunk: Seq<u8>,
    paths: spec_fn(u32) -> JoinedPath,
) -> LogDisk {
    let last = disk.files.len() - 1;
    let files = disk.files.update(last, disk.files[last] + chunk);
    let counted = disk.writer.counting(chunk.len());
    if disk.writer.filled_by(chunk.len()) {
        let turned = counted.rotating();
        LogDisk {
            writer: turned.going_on(paths(turned.file_serial)),
            files: files.push(Seq::empty()),
        }
    } else {
        LogDisk { writer: counted, files }
    }
}

/// What follows when several chunks are written, one after the other.
pub open spec fn after_chunks(
    disk: LogDisk,
    chunks: Seq<Seq<u8>>,
    paths: spec_fn(u32) -> JoinedPath,
) -> LogDisk
    decreases chunks.len(),
{
    if chunks.len() == 0 {
        disk
    } else {
        after_chunk(after_chunks(disk, chunks.drop_last(), paths), chunks.last(), paths)
    }
}

/// Whether chunk `i` lies in file `f`, from byte `o` of that file on, with all the
/// bytes of the chunks before it, and no others, in front of it.
pub open spec fn lies_at(
    files: Seq<Seq<u8>>,
    chunks: Seq<Seq<u8>>,
    i: int,
    f: int,
    o: int,
) -> bool {
    &&& 0 <= f < files.len()
    &&& 0 <= o
    &&& o + chunks[i].len() <= files[f].len()
    &&& files[f].subrange(o, o + chunks[i].len()) == chunks[i]
    &&& all_bytes(files.take(f)).len() + o == all_bytes(chunks.take(i)).len()
}

/// Whether chunk `i` lies in one of the files.
pub open spec fn lies_whole(files: Seq<Seq<u8>>, chunks: Seq<Seq<u8>>, i: int) -> bool {
    exists|f: int, o: int| lies_at(files, chunks, i, f, o)
}

proof fn lemma_all_bytes_push(pieces: Seq<Seq<u8>>, piece: Seq<u8>)
    ensures
        all_bytes(pieces.push(piece)) == all_bytes(pieces) + piece,
{
    assert(pieces.push(piece).drop_last() =~= pieces);
}

/// Whether the counters of a writer can follow the chunks: none of them runs over.
pub open spec fn counters_follow(
    disk: LogDisk,
    chunks: Seq<Seq<u8>>,
    paths: spec_fn(u32) -> JoinedPath,
) -> bool
    decreases chunks.len(),
{
    chunks.len() > 0 ==> {
        let before = after_chunks(disk, chunks.drop_last(), paths).writer;
        let len = chunks.last().len();
        &&& counters_follow(disk, chunks.drop_last(), paths)
        &&& before.bytes_written + len <= u64::MAX
        &&& before.filled_by(len) ==> before.file_serial < u32::MAX
    }
}

/// What holds after every chunk.
spec fn transcript_kept(disk: LogDisk, chunks: Seq<Seq<u8>>, max_file_bytes: u64) -> bool {
    let files = disk.files;
    &&& files.len() == disk.writer.file_serial + 1
    &&& disk.writer.max_file_bytes == max_file_bytes
    &&& files[files.len() - 1].len() == disk.writer.bytes_written
    &&& all_bytes(files) == all_bytes(chunks)
    &&& forall|f: int| 0 <= f < files.len() - 1 ==> (#[trigger] files[f]).len() >= max_file_bytes
    &&& forall|i: int| 0 <= i < chunks.len() ==> #[trigger] lies_whole(files, chunks, i)
}

proof fn lemma_transcript_step(
    disk: LogDisk,
    before: Seq<Seq<u8>>,
    chunk: Seq<u8>,
    paths: spec_fn(u32) -> JoinedPath,
    max_file_bytes: u64,
)
    requires
        transcript_kept(disk, before, max_file_bytes),
        disk.writer.bytes_written + chunk.len() <= u64::MAX,
        disk.writer.filled_by(chunk.len()) ==> disk.writer.file_serial < u32::MAX,
    ensures
        transcript_kept(after_chunk(disk, chunk, paths), before.push(chunk), max_file_bytes),
{
    let chunks = before.push(chunk);
    let last = disk.files.len() - 1;
    let next = after_chunk(disk, chunk, paths);
    let written = disk.files.update(last, disk.files[last] + chunk);
    let front = disk.files.take(last);
    lemma_all_bytes_push(before, chunk);
    assert(disk.files =~= front.push(disk.files[last]));
    assert(written =~= front.push(disk.files[last] + chunk));
    lemma_all_bytes_push(front, disk.files[last]);
    lemma_all_bytes_push(front, disk.files[last] + chunk);
    assert(all_bytes(written) =~= all_bytes(before) + chunk);
    lemma_all_bytes_push(written, Seq::empty());
    assert(all_bytes(next.files) =~= all_bytes(chunks));
    assert forall|i: int| 0 <= i < chunks.len() implies #[trigger] lies_whole(
        next.files,
        chunks,
        i,
    ) by {
        if i < before.len() {
            assert(lies_whole(disk.files, before, i));
            let (f, o): (int, int) = choose|f: int, o: int| lies_at(disk.files, before, i, f, o);
            assert(chunks.take(i) =~= before.take(i));
            assert(next.files.take(f) =~= disk.files.take(f));
            assert(next.files[f].subrange(o, o + chunks[i].len()) =~= disk.files[f].subrange(
                o,
                o + chunks[i].len(),
            ));
            assert(lies_at(next.files, chunks, i, f, o));
        } else {
            let o = disk.files[last].len() as int;
            assert(chunks.take(i) =~= before);
            assert(next.files.take(last) =~= front);
            assert(next.files[last].subrange(o, o + chunk.len()) =~= chunk);
            assert(lies_at(next.files, chunks, i, last, o));
        }
    }
    assert forall|f: int| 0 <= f < next.files.len() - 1 implies (#[trigger] next.files[f]).len()
        >= max_file_bytes by {
        if f < last {
            assert(next.files[f] == disk.files[f]);
        }
    }
}

proof fn lemma_transcript(disk: LogDisk, chunks: Seq<Seq<u8>>, paths: spec_fn(u32) -> JoinedPath)
    requires
        just_opened(disk),
        counters_follow(disk, chunks, paths),
    ensures
        transcript_kept(after_chunks(disk, chunks, paths), chunks, disk.writer.max_file_bytes),
    decreases chunks.len(),
{
    if chunks.len() == 0 {
        lemma_all_bytes_push(Seq::empty(), Seq::empty());
        assert(disk.files =~= Seq::<Seq<u8>>::empty().push(Seq::empty()));
        assert(all_bytes(disk.files) =~= all_bytes(chunks));
    } else {
        let before = chunks.drop_last();
        lemma_transcript(disk, before, paths);
        assert(before.push(chunks.last()) =~= chunks);
        lemma_transcript_step(
            after_chunks(disk, before, paths),
            before,
            chunks.last(),
            paths,
            disk.writer.max_file_bytes,
        );
    }
}

/// The files of a writer, one after the other, hold exactly the chunks that were
/// written, in order: none is lost or repeated, and none is split over two files. Every
/// file but the current one is full.
pub proof fn law_transcript_is_whole(
    disk: LogDisk,
    chunks: Seq<Seq<u8>>,
    paths: spec_fn(u32) -> JoinedPath,
)
    requires
        just_opened(disk),
        counters_follow(disk, chunks, paths),
    ensures
        ({
            let files = after_chunks(disk, chunks, paths).files;
            &&& all_bytes(files) == all_bytes(chunks)
            &&& forall|i: int| 0 <= i < chunks.len() ==> #[trigger] lies_whole(files, chunks, i)
            &&& forall|f: int|
                0 <= f < files.len() - 1 ==> (#[trigger] files[f]).len()
                    >= disk.writer.max_file_bytes
        }),
{
    lemma_transcript(disk, chunks, paths);
}

// ---------------------------------------------------------------------------
// Retention

/// An entry of a host's log directory. `modified` is the time of its last
/// change, in any unit, where it could be read.
pub struct DirEntry {
    pub name: String,
    pub modified: Option<i128>,
}

/// A log file that retention counts, and its place among the entries.
pub struct LogFile {
    pub name: String,
    pub modified: i128,
    pub place: usize,
}

/// A file name with the extension `log`: something, a dot and `log`.
pub open spec fn is_log_name(name: Seq<char>) -> bool {
    name.len() > 4 && name.skip(name.len() - 4) == ".log"@
}

/// The entries that retention counts, in their order.
pub open spec fn counted(entries: Seq<DirEntry>) -> Seq<LogFile>
    decreases entries.len(),
{
    if entries.len() == 0 {
        Seq::empty()
    } else {
        let e = entries.last();
        match e.modified {
            Some(t) if is_log_name(e.name@) => counted(entries.drop_last()).push(
                LogFile { name: e.name, modified: t, place: (entries.len() - 1) as usize },
            ),
            _ => counted(entries.drop_last()),
        }
    }
}

/// Whether a file name has the extension `log`.
pub fn has_log_extension(name: &str) -> (r: bool)
    ensures
        r == is_log_name(name@),
{
    let v = crate::text::chars_of(name);
    let n = v.len();
    proof {
        reveal_strlit(".log");
        if n > 4 {
            let tail = v@.skip(n - 4);
            assert(tail[0] == v@[n - 4] && tail[1] == v@[n - 3] && tail[2] == v@[n - 2] && tail[3]
                == v@[n - 1]);
            if v@[n - 4] == '.' && v@[n - 3] == 'l' && v@[n - 2] == 'o' && v@[n - 1] == 'g' {
                assert(tail =~= ".log"@);
            }
        }
    }
    n > 4 && v[n - 4] == '.' && v[n - 3] == 'l' && v[n - 2] == 'o' && v[n - 1] == 'g'
}

/// Picks the log files out of a directory's entries. An entry whose time could
/// not be read is passed over.
pub fn log_files(entries: &Vec<DirEntry>) -> (r: Vec<LogFile>)
    ensures
        r@ == counted(entries@),
{
    let mut r: Vec<LogFile> = Vec::new();
    let mut i: usize = 0;
    while i < entries.len()
        invariant
            i <= entries@.len(),
            r@ == counted(entries@.take(i as int)),
        decreases entries@.len() - i,
    {
        assert(entries@.take(i + 1).drop_last() =~= entries@.take(i as int));
        let e = &entries[i];
        if let Some(t) = e.modified {
            if has_log_extension(e.name.as_str()) {
                r.push(LogFile { name: e.name.clone(), modified: t, place: i });
            }
        }
        i = i + 1;
    }
    assert(entries@.take(i as int) =~= entries@);
    r
}

/// File `i` comes before file `j` when the files are put in the order of their
/// last change; files of one time keep their places.
pub open spec fn older(logs: Seq<LogFile>, i: int, j: int) -> bool {
    logs[i].modified < logs[j].modified || (logs[i].modified == logs[j].modified && i < j)
}

/// How many of `count` files are too many. With a limit of zero none is.
pub open spec fn excess(count: nat, retention_files: usize) -> nat {
    if retention_files == 0 || count <= retention_files {
        0
    } else {
        (count - retention_files) as nat
    }
}

/// Distinct positions of `logs`, from the oldest file on.
pub open spec fn oldest_first(logs: Seq<LogFile>, order: Seq<usize>) -> bool {
    &&& forall|a: int| 0 <= a < order.len() ==> (#[trigger] order[a]) < logs.len()
    &&& forall|a: int, b: int|
        0 <= a < b < order.len() ==> older(logs, #[trigger] order[a] as int, #[trigger] order[b] as int)
}

/// Every file at a position in `removed` is older than every other file.
pub open spec fn older_than_rest(logs: Seq<LogFile>, removed: Seq<usize>) -> bool {
    forall|k: int, a: int|
        0 <= k < logs.len() && 0 <= a < removed.len() && !removed.contains(k as usize)
            ==> #[trigger] older(logs, removed[a] as int, k)
}

/// All positions of `logs`, from the oldest file on.
fn sort_by_age(logs: &Vec<LogFile>) -> (order: Vec<usize>)
    ensures
        order@.len() == logs@.len(),
        oldest_first(logs@, order@),
        forall|k: usize| k < logs@.len() ==> order@.contains(k),
{
    let mut order: Vec<usize> = Vec::new();
    let mut i: usize = 0;
    while i < logs.len()
        invariant
            i <= logs@.len(),
            order@.len() == i,
            oldest_first(logs@, order@),
            forall|a: int| 0 <= a < order@.len() ==> (#[trigger] order@[a]) < i,
            forall|k: usize| k < i ==> order@.contains(k),
        decreases logs@.len() - i,
    {
        let mut at: usize = order.len();
        while at > 0 && logs[order[at - 1]].modified > logs[i].modified
            invariant
                at <= order@.len(),
                i < logs@.len(),
                oldest_first(logs@, order@),
                forall|a: int| at <= a < order@.len() ==> older(logs@, i as int, (#[trigger] order@[a]) as int),
            decreases at,
        {
            at = at - 1;
        }
        let ghost before = order@;
        order.insert(at, i);
        proof {
            if at > 0 {
                assert(older(logs@, before[at - 1] as int, i as int));
            }
            assert forall|a: int, b: int| 0 <= a < b < order@.len() implies older(
                logs@,
                #[trigger] order@[a] as int,
                #[trigger] order@[b] as int,
            ) by {
                let pa = if a < at {
                    a
                } else {
                    a - 1
                };
                let pb = if b < at {
                    b
                } else {
                    b - 1
                };
                if a != at && b != at {
                    assert(order@[a] == before[pa]);
                    assert(order@[b] == before[pb]);
                } else if a == at {
                    assert(order@[b] == before[pb]);
                } else {
                    assert(order@[a] == before[a]);
                    if a < at - 1 {
                        assert(older(logs@, before[a] as int, before[at - 1] as int));
                    }
                }
            }
            assert forall|k: usize| k < i + 1 implies order@.contains(k) by {
                if k < i {
                    assert(before.contains(k));
                    let p = choose|p: int| 0 <= p < before.len() && before[p] == k;
                    if p < at {
                        assert(order@[p] == k);
                    } else {
                        assert(order@[p + 1] == k);
                    }
                } else {
                    assert(order@[at as int] == i);
                }
            }
        }
        i = i + 1;
    }
    order
}

/// The files to remove so that a host keeps at most `retention_files`: the
/// oldest ones, from the oldest on. Every file that stays is newer than every
/// file that goes.
pub fn prune_retention(logs: &Vec<LogFile>, retention_files: usize) -> (r: Vec<usize>)
    ensures
        r@.len() == excess(logs@.len(), retention_files),
        oldest_first(logs@, r@),
        older_than_rest(logs@, r@),
        retention_files > 0 ==> logs@.len() - r@.len() <= retention_files,
        retention_files > 0 && logs@.len() > retention_files ==> logs@.len() - r@.len()
            == retention_files,
        retention_files == 0 || logs@.len() <= retention_files ==> r@.len() == 0,
{
    let mut r: Vec<usize> = Vec::new();
    if retention_files == 0 || logs.len() <= retention_files {
        return r;
    }
    let order = sort_by_age(logs);
    let count: usize = logs.len() - retention_files;
    let mut i: usize = 0;
    while i < count
        invariant
            i <= count <= order@.len(),
            r@ == order@.take(i as int),
        decreases count - i,
    {
        r.push(order[i]);
        i = i + 1;
    }
    proof {
        assert forall|k: int, a: int|
            0 <= k < logs@.len() && 0 <= a < r@.len() && !r@.contains(k as usize) implies #[trigger] older(
            logs@,
            r@[a] as int,
            k,
        ) by {
            assert(order@.contains(k as usize));
            let p = choose|p: int| 0 <= p < order@.len() && order@[p] == k as usize;
            if p < count {
                assert(r@[p] == k as usize);
            }
            assert(older(logs@, order@[a] as int, order@[p] as int));
        }
    }
    r
}

/// Retention keeps exactly as many files as it may: all of them where they are no more
/// than the limit or there is none, and otherwise as many as the limit says. Every file
/// that is kept was changed no earlier than every file that is removed, and no file is
/// removed twice.
pub proof fn law_retention_keeps_what_it_may(
    logs: Seq<LogFile>,
    removed: Seq<usize>,
    retention_files: usize,
)
    requires
        logs.len() <= usize::MAX,
        removed.len() == excess(logs.len(), retention_files),
        oldest_first(logs, removed),
        older_than_rest(logs, removed),
    ensures
        retention_files == 0 ==> removed.len() == 0,
        logs.len() <= retention_files ==> removed.len() == 0,
        retention_files > 0 && logs.len() > retention_files ==> logs.len() - removed.len()
            == retention_files,
        forall|a: int, b: int|
            0 <= a < b < removed.len() ==> #[trigger] removed[a] != #[trigger] removed[b],
        forall|a: int, k: int|
            0 <= a < removed.len() && 0 <= k < logs.len() && !removed.contains(k as usize)
                ==> (#[trigger] logs[removed[a] as int]).modified <= (#[trigger] logs[k]).modified,
{
    assert forall|a: int, k: int|
        0 <= a < removed.len() && 0 <= k < logs.len() && !removed.contains(k as usize) implies (
    #[trigger] logs[removed[a] as int]).modified <= (#[trigger] logs[k]).modified by {
        assert(older(logs, removed[a] as int, k));
    }
}

/// A file counts as a log where its name has something before the ending `.log`.
pub proof fn law_log_extension(stem: Seq<char>, name: Seq<char>)
    ensures
        stem.len() > 0 ==> is_log_name(stem + ".log"@),
        !is_log_name(".log"@),
        is_log_name(name) ==> exists|s: Seq<char>| s.len() > 0 && name == #[trigger] (s + ".log"@),
{
    reveal_strlit(".log");
    let n = stem + ".log"@;
    assert(n.skip(n.len() - 4) =~= ".log"@);
    if is_log_name(name) {
        let s = name.take(name.len() - 4);
        assert(name =~= s + ".log"@);
    }
}

/// Retention counts exactly the entries that are logs and whose time is known, each with
/// its own name, time and place, in their order.
pub proof fn law_counted_entries(entries: Seq<DirEntry>)
    requires
        entries.len() <= usize::MAX,
    ensures
        forall|i: int|
            0 <= i < counted(entries).len() ==> {
                let f = #[trigger] counted(entries)[i];
                &&& 0 <= f.place < entries.len()
                &&& f.name == entries[f.place as int].name
                &&& entries[f.place as int].modified == Some(f.modified)
                &&& is_log_name(f.name@)
            },
        forall|i: int, j: int|
            0 <= i < j < counted(entries).len() ==> (#[trigger] counted(entries)[i]).place < (
            #[trigger] counted(entries)[j]).place,
        forall|k: int|
            0 <= k < entries.len() && is_log_name((#[trigger] entries[k]).name@)
                && entries[k].modified is Some ==> exists|i: int|
                0 <= i < counted(entries).len() && (#[trigger] counted(entries)[i]).place == k,
    decreases entries.len(),
{
    if entries.len() > 0 {
        let front = entries.drop_last();
        law_counted_entries(front);
        let before = counted(front);
        let after = counted(entries);
        assert forall|i: int| 0 <= i < after.len() implies {
            let f = #[trigger] after[i];
            &&& 0 <= f.place < entries.len()
            &&& f.name == entries[f.place as int].name
            &&& entries[f.place as int].modified == Some(f.modified)
            &&& is_log_name(f.name@)
        } by {
            if i < before.len() {
                assert(after[i] == before[i]);
            }
        }
        assert forall|i: int, j: int| 0 <= i < j < after.len() implies (#[trigger] after[i]).place
            < (#[trigger] after[j]).place by {
            assert(after[i] == before[i]);
            if j < before.len() {
                assert(after[j] == before[j]);
            }
        }
        assert forall|k: int|
            0 <= k < entries.len() && is_log_name((#[trigger] entries[k]).name@)
                && entries[k].modified is Some implies exists|i: int|
            0 <= i < after.len() && (#[trigger] after[i]).place == k by {
            if k < front.len() {
                assert(front[k] == entries[k]);
                let i = choose|i: int| 0 <= i < before.len() && (#[trigger] before[i]).place == k;
                assert(after[i] == before[i]);
            } else {
                assert(after[after.len() - 1].place == k);
            }
        }
    }
}

/// A full file is never written on: after any chunks, the current file is empty or below
/// the limit, and every rotation has left one file behind.
pub proof fn law_current_file_has_room(
    disk: LogDisk,
    chunks: Seq<Seq<u8>>,
    paths: spec_fn(u32) -> JoinedPath,
)
    requires
        just_opened(disk),
        counters_follow(disk, chunks, paths),
    ensures
        ({
            let after = after_chunks(disk, chunks, paths);
            let last = after.files[after.files.len() - 1];
            &&& last.len() == 0 || last.len() < disk.writer.max_file_bytes
            &&& last.len() == after.writer.bytes_written
            &&& after.files.len() == after.writer.file_serial + 1
            &&& after.writer.max_file_bytes == disk.writer.max_file_bytes
            &&& after.writer.retention_files == disk.writer.retention_files
            &&& after.writer.host_dir == disk.writer.host_dir
            &&& after.writer.closed == disk.writer.closed
        }),
    decreases chunks.len(),
{
    lemma_transcript(disk, chunks, paths);
    if chunks.len() > 0 {
        law_current_file_has_room(disk, chunks.drop_last(), paths);
    }
}

/// A writer that goes on to another file is on that file, which is empty, and keeps
/// everything else; one that begins to has used up one more number.
pub proof fn law_writer_goes_on(w: SessionLogWriter, path: JoinedPath, len: nat)
    requires
        w.bytes_written + len <= u64::MAX,
        w.file_serial < u32::MAX,
    ensures
        ({
            let next = w.going_on(path);
            &&& next.current_path == path
            &&& next.bytes_written == 0
            &&& next.host_dir == w.host_dir
            &&& next.file_serial == w.file_serial
            &&& next.max_file_bytes == w.max_file_bytes
            &&& next.retention_files == w.retention_files
            &&& next.closed == w.closed
            &&& w.rotating().file_serial == w.file_serial + 1
            &&& w.rotating().current_path == w.current_path
            &&& w.rotating().bytes_written == w.bytes_written
            &&& w.counting(len).bytes_written == w.bytes_written + len
            &&& w.counting(len).current_path == w.current_path
            &&& w.counting(len).file_serial == w.file_serial
        }),
{
}

/// An empty file has room whatever its limit; any other has as long as it is below the
/// limit.
pub proof fn law_file_has_room(w: SessionLogWriter)
    ensures
        w.bytes_written == 0 ==> w.has_room(),
        w.bytes_written > 0 ==> (w.has_room() <==> w.bytes_written < w.max_file_bytes),
{
}

} // verus!
