//! Index of the on-disk playback cache: which tracks are on disk, how much room
//! they take, and which of them make way for a new one.
//!
//! Files are named `{track_id}.audio`; a write goes to `{track_id}.part` first
//! and is renamed into place, so whatever sits under the real name is whole.

use std::collections::HashMap;
use vstd::prelude::*;
use vstd::std_specs::iter::IteratorSpec;
use vstd::string::*;

use crate::text::{append_decimal, parse_u64, same_text};

verus! {

broadcast use vstd::std_specs::hash::group_hash_axioms;

/// What the index knows of a cached track.
#[derive(Debug, Clone, Copy, PartialEq, Eq, Structural)]
pub struct CacheEntry {
    pub track_id: u64,
    pub size_bytes: u64,
    /// When the track was last used, on the caller's clock.
    pub last_accessed: u64,
}

/// A file found in the cache directory.
#[derive(Debug)]
pub struct ScannedFile {
    /// Its name, where that is text.
    pub name: Option<String>,
    pub is_file: bool,
    pub size: u64,
    pub accessed: u64,
}

/// Cache statistics.
#[derive(Debug, Clone)]
pub struct PlaybackCacheStats {
    pub cached_tracks: usize,
    pub current_size_bytes: u64,
    pub max_size_bytes: u64,
}

/// Disk-based playback cache for tracks evicted from memory.
#[derive(Debug)]
pub struct PlaybackCache {
    pub entries: HashMap<u64, CacheEntry>,
    /// Bytes that the cached files take together.
    pub current_size: u64,
    pub cache_dir: String,
    pub max_size_bytes: u64,
}

/// The bytes of all entries together.
pub open spec fn total_bytes(entries: Map<u64, CacheEntry>) -> nat
    decreases entries.dom().len(),
{
    if entries.dom().finite() && entries.dom().len() > 0 {
        let id = entries.dom().choose();
        total_bytes(entries.remove(id)) + entries[id].size_bytes as nat
    } else {
        0
    }
}

/// A track takes its bytes with it, whichever it is.
pub(crate) proof fn lemma_total_remove(entries: Map<u64, CacheEntry>, id: u64)
    requires
        entries.dom().finite(),
        entries.contains_key(id),
    ensures
        total_bytes(entries) == total_bytes(entries.remove(id)) + entries[id].size_bytes,
    decreases entries.dom().len(),
{
    let first = entries.dom().choose();
    if first != id {
        lemma_total_remove(entries.remove(first), id);
        lemma_total_remove(entries.remove(id), first);
        assert(entries.remove(first).remove(id) =~= entries.remove(id).remove(first));
    }
}

/// A track brings its bytes in place of what was held for it.
pub(crate) proof fn lemma_total_insert(entries: Map<u64, CacheEntry>, id: u64, entry: CacheEntry)
    requires
        entries.dom().finite(),
    ensures
        total_bytes(entries.insert(id, entry)) == total_bytes(entries.remove(id))
            + entry.size_bytes,
{
    let all = entries.insert(id, entry);
    lemma_total_remove(all, id);
    assert(all.remove(id) =~= entries.remove(id));
}

/// The name of a track's file with this ending.
pub open spec fn file_name(track_id: u64, ending: Seq<char>) -> Seq<char> {
    crate::text::decimal(track_id as nat) + ending
}

/// `name` within the directory `dir`.
pub open spec fn joined_path(dir: Seq<char>, name: Seq<char>) -> Seq<char> {
    if dir.len() == 0 || dir.last() == '/' {
        dir + name
    } else {
        dir + "/"@ + name
    }
}

/// `s` ends in `ending`.
pub open spec fn ends_in(s: Seq<char>, ending: Seq<char>) -> bool {
    s.len() >= ending.len() && s.subrange(s.len() - ending.len(), s.len() as int) == ending
}

fn ends_with(s: &str, ending: &str) -> (r: bool)
    ensures
        r == ends_in(s@, ending@),
{
    let n: usize = s.unicode_len();
    let m: usize = ending.unicode_len();
    if n < m {
        return false;
    }
    same_text(s.substring_char(n - m, n), ending)
}

/// The track a file of the cache directory holds: the number before `.audio`.
pub open spec fn track_of_file(name: Seq<char>) -> Option<u64> {
    if ends_in(name, ".audio"@) {
        crate::text::spelled_u64(name.subrange(0, name.len() - ".audio"@.len()))
    } else {
        None
    }
}

fn track_in_name(name: &str) -> (r: Option<u64>)
    ensures
        r == track_of_file(name@),
{
    if !ends_with(name, ".audio") {
        return None;
    }
    let n: usize = name.unicode_len();
    let m: usize = ".audio".unicode_len();
    parse_u64(name.substring_char(0, n - m))
}

/// What a startup scan does with a file.
pub enum ScanVerdict {
    /// Not a file of the cache.
    Ignore,
    /// A write that a crash interrupted: remove it.
    Sweep,
    /// A cached track.
    Adopt(u64),
}

/// What a startup scan does with `file`.
pub open spec fn verdict_on(file: ScannedFile) -> ScanVerdict {
    if !file.is_file {
        ScanVerdict::Ignore
    } else {
        match file.name {
            None => ScanVerdict::Ignore,
            Some(name) => if ends_in(name@, ".part"@) {
                ScanVerdict::Sweep
            } else {
                match track_of_file(name@) {
                    Some(id) => ScanVerdict::Adopt(id),
                    None => ScanVerdict::Ignore,
                }
            },
        }
    }
}

fn judge(file: &ScannedFile) -> (r: ScanVerdict)
    ensures
        r == verdict_on(*file),
{
    if !file.is_file {
        return ScanVerdict::Ignore;
    }
    match &file.name {
        None => ScanVerdict::Ignore,
        Some(name) => {
            if ends_with(name.as_str(), ".part") {
                ScanVerdict::Sweep
            } else {
                match track_in_name(name.as_str()) {
                    Some(id) => ScanVerdict::Adopt(id),
                    None => ScanVerdict::Ignore,
                }
            }
        },
    }
}

/// The entries that a scan of `files` adopts; of two files for one track the
/// later counts.
pub open spec fn scanned_entries(files: Seq<ScannedFile>) -> Map<u64, CacheEntry>
    decreases files.len(),
{
    if files.len() == 0 {
        Map::empty()
    } else {
        let before = scanned_entries(files.drop_last());
        let file = files.last();
        match verdict_on(file) {
            ScanVerdict::Adopt(id) => before.insert(
                id,
                CacheEntry {
                    track_id: id,
                    size_bytes: file.size,
                    last_accessed: file.accessed,
                },
            ),
            _ => before,
        }
    }
}

/// The bytes that a scan of `files` counts.
pub open spec fn scanned_bytes(files: Seq<ScannedFile>) -> nat
    decreases files.len(),
{
    if files.len() == 0 {
        0
    } else {
        scanned_bytes(files.drop_last()) + (match verdict_on(files.last()) {
            ScanVerdict::Adopt(_) => files.last().size as nat,
            _ => 0,
        })
    }
}

/// The positions of the files that a scan removes.
pub open spec fn swept_files(files: Seq<ScannedFile>) -> Seq<int>
    decreases files.len(),
{
    if files.len() == 0 {
        Seq::empty()
    } else if verdict_on(files.last()) is Sweep {
        swept_files(files.drop_last()).push(files.len() - 1)
    } else {
        swept_files(files.drop_last())
    }
}

proof fn lemma_scanned_bytes_grow(files: Seq<ScannedFile>, n: int)
    requires
        0 <= n <= files.len(),
    ensures
        scanned_bytes(files.take(n)) <= scanned_bytes(files),
    decreases files.len() - n,
{
    if n < files.len() {
        assert(files.take(n + 1).drop_last() =~= files.take(n));
        lemma_scanned_bytes_grow(files, n + 1);
    } else {
        assert(files.take(n) =~= files);
    }
}

/// What became of reading a cached file.
pub enum CacheRead {
    /// There is no such file.
    Missing,
    /// It could not be opened or read.
    Failed,
    Data(Vec<u8>),
}

/// What an insertion has to do.
#[derive(Debug)]
pub enum InsertPlan {
    /// The track is larger than the whole cache.
    TooLarge,
    /// The track is on disk at this size already; only its use was noted.
    AlreadyCached,
    /// Remove the files of the evicted tracks, then write the track.
    Write { evicted: Vec<u64> },
}

impl PlaybackCache {
    /// Every entry is filed under its own track, and their bytes are accounted
    /// for.
    pub open spec fn wf(self) -> bool {
        &&& forall|id: u64| #[trigger]
            self.entries@.contains_key(id) ==> self.entries@[id].track_id == id
        &&& total_bytes(self.entries@) <= self.current_size
    }

    /// The bytes accounted for are exactly those of the entries.
    pub open spec fn is_exact(self) -> bool {
        total_bytes(self.entries@) == self.current_size
    }

    /// The cached tracks.
    pub open spec fn index(self) -> Map<u64, CacheEntry> {
        self.entries@
    }

    /// The directory and the budget are the same in `other`.
    pub open spec fn same_place(self, other: PlaybackCache) -> bool {
        self.cache_dir == other.cache_dir && self.max_size_bytes == other.max_size_bytes
    }

    /// An empty cache in `cache_dir`.
    pub fn with_path(cache_dir: String, max_size_bytes: u64) -> (r: Self)
        ensures
            r.wf(),
            r.is_exact(),
            r.index() == Map::<u64, CacheEntry>::empty(),
            r.current_size == 0,
            r.cache_dir == cache_dir,
            r.max_size_bytes == max_size_bytes,
    {
        PlaybackCache { entries: HashMap::new(), current_size: 0, cache_dir, max_size_bytes }
    }

    /// Drop a track from the index.
    fn forget(&mut self, track_id: u64)
        requires
            old(self).wf(),
        ensures
            final(self).wf(),
            final(self).same_place(*old(self)),
            final(self).index() == old(self).index().remove(track_id),
            final(self).current_size == old(self).current_size - (if old(
                self).index().contains_key(track_id) {
                old(self).index()[track_id].size_bytes as int
            } else {
                0
            }),
            old(self).is_exact() ==> final(self).is_exact(),
    {
        match self.entries.remove(&track_id) {
            Some(entry) => {
                proof {
                    lemma_total_remove(old(self).entries@, track_id);
                }
                self.current_size = self.current_size.saturating_sub(entry.size_bytes);
            },
            None => {
                assert(self.entries@ =~= old(self).entries@);
            },
        }
    }

    /// The bytes accounted for once a track of this size is added, in place of
    /// what the index held for it.
    pub open spec fn size_with(self, track_id: u64, size_bytes: u64) -> int {
        self.current_size + size_bytes - (if self.index().contains_key(track_id) {
            self.index()[track_id].size_bytes as int
        } else {
            0
        })
    }

    /// Add a track to the index, in place of what it held for it.
    fn record(&mut self, track_id: u64, size_bytes: u64, now: u64)
        requires
            old(self).wf(),
            old(self).size_with(track_id, size_bytes) <= u64::MAX,
        ensures
            final(self).wf(),
            final(self).same_place(*old(self)),
            final(self).index() == old(self).index().insert(
                track_id,
                CacheEntry { track_id, size_bytes, last_accessed: now },
            ),
            final(self).current_size == old(self).size_with(track_id, size_bytes),
            old(self).is_exact() ==> final(self).is_exact(),
    {
        let ghost before = self.index();
        self.forget(track_id);
        let entry = CacheEntry { track_id, size_bytes, last_accessed: now };
        proof {
            lemma_total_insert(self.entries@, track_id, entry);
            assert(self.entries@.remove(track_id) =~= self.entries@);
            assert(before.remove(track_id).insert(track_id, entry) =~= before.insert(
                track_id,
                entry,
            ));
        }
        self.entries.insert(track_id, entry);
        self.current_size = self.current_size + size_bytes;
    }

    /// Note that a track was used; false when it is not indexed.
    fn touch(&mut self, track_id: u64, now: u64) -> (r: bool)
        requires
            old(self).wf(),
        ensures
            final(self).wf(),
            final(self).same_place(*old(self)),
            final(self).current_size == old(self).current_size,
            r == old(self).index().contains_key(track_id),
            final(self).index() == (if r {
                old(self).index().insert(
                    track_id,
                    CacheEntry { last_accessed: now, ..old(self).index()[track_id] },
                )
            } else {
                old(self).index()
            }),
            old(self).is_exact() ==> final(self).is_exact(),
    {
        let mut entry: CacheEntry = match self.entries.get(&track_id) {
            Some(entry) => *entry,
            None => return false,
        };
        entry.last_accessed = now;
        proof {
            lemma_total_insert(self.entries@, track_id, entry);
            lemma_total_remove(self.entries@, track_id);
        }
        self.entries.insert(track_id, entry);
        true
    }

    /// Rebuild the index from the files on disk. Returns the positions of the
    /// interrupted writes to remove.
    pub fn rebuild_state(&mut self, files: &Vec<ScannedFile>) -> (r: Vec<usize>)
        requires
            scanned_bytes(files@) <= u64::MAX,
        ensures
            final(self).wf(),
            final(self).same_place(*old(self)),
            final(self).index() == scanned_entries(files@),
            final(self).current_size == scanned_bytes(files@),
            r@.map_values(|i: usize| i as int) == swept_files(files@),
    {
        self.entries.clear();
        self.current_size = 0;
        let mut swept: Vec<usize> = Vec::new();
        let mut i: usize = 0;
        proof {
            assert(files@.take(0) =~= Seq::<ScannedFile>::empty());
            assert(self.index() =~= Map::<u64, CacheEntry>::empty());
            assert(swept@.map_values(|i: usize| i as int) =~= Seq::<int>::empty());
        }
        while i < files.len()
            invariant
                scanned_bytes(files@) <= u64::MAX,
                i <= files@.len(),
                self.wf(),
                self.same_place(*old(self)),
                self.index() == scanned_entries(files@.take(i as int)),
                self.current_size == scanned_bytes(files@.take(i as int)),
                swept@.map_values(|i: usize| i as int) == swept_files(files@.take(i as int)),
            decreases files@.len() - i,
        {
            let ghost done = files@.take(i as int);
            let ghost more = files@.take(i + 1);
            let ghost swept0 = swept@;
            proof {
                assert(more.drop_last() =~= done);
                assert(more.last() == files@[i as int]);
                lemma_scanned_bytes_grow(files@, i + 1);
            }
            match judge(&files[i]) {
                ScanVerdict::Ignore => {},
                ScanVerdict::Sweep => {
                    swept.push(i);
                    assert(swept@.map_values(|i: usize| i as int) =~= swept0.map_values(
                        |i: usize| i as int,
                    ).push(i as int));
                },
                ScanVerdict::Adopt(track_id) => {
                    let size: u64 = files[i].size;
                    let counted: u64 = self.current_size + size;
                    self.record(track_id, size, files[i].accessed);
                    self.current_size = counted;
                },
            }
            i = i + 1;
        }
        assert(files@.take(files@.len() as int) =~= files@);
        swept
    }

    /// The path of a track's file with this ending.
    fn path_of(&self, track_id: u64, ending: &str) -> (r: String)
        ensures
            r@ == joined_path(self.cache_dir@, file_name(track_id, ending@)),
    {
        let mut path: String = self.cache_dir.clone();
        let n: usize = self.cache_dir.as_str().unicode_len();
        if n > 0 && self.cache_dir.as_str().get_char(n - 1) != '/' {
            path.append("/");
        }
        append_decimal(&mut path, track_id);
        path.append(ending);
        assert(path@ =~= joined_path(self.cache_dir@, file_name(track_id, ending@)));
        path
    }

    /// The path of a track's file.
    pub fn track_path(&self, track_id: u64) -> (r: String)
        ensures
            r@ == joined_path(self.cache_dir@, file_name(track_id, ".audio"@)),
    {
        self.path_of(track_id, ".audio")
    }

    /// The path a track is written to before it is renamed into place.
    pub fn part_path(&self, track_id: u64) -> (r: String)
        ensures
            r@ == joined_path(self.cache_dir@, file_name(track_id, ".part"@)),
    {
        self.path_of(track_id, ".part")
    }

    /// Whether a track is in the index.
    pub fn contains(&self, track_id: u64) -> (r: bool)
        ensures
            r == self.index().contains_key(track_id),
    {
        self.entries.contains_key(&track_id)
    }

    /// The cached file of a track, when it is indexed and is actually there.
    pub fn path_if_present(&self, track_id: u64, exists: bool) -> (r: Option<String>)
        ensures
            r is Some <==> self.index().contains_key(track_id) && exists,
            r matches Some(path) ==> path@ == joined_path(
                self.cache_dir@,
                file_name(track_id, ".audio"@),
            ),
    {
        if self.contains(track_id) && exists {
            Some(self.track_path(track_id))
        } else {
            None
        }
    }

    /// Hand out a track that was read from disk. A file that is gone leaves the
    /// index; a read notes the use.
    pub fn get(&mut self, track_id: u64, read: CacheRead, now: u64) -> (r: Option<Vec<u8>>)
        requires
            old(self).wf(),
        ensures
            final(self).wf(),
            final(self).same_place(*old(self)),
            r == (match read {
                CacheRead::Data(data) => Some(data),
                _ => None,
            }),
            final(self).index() == (match read {
                CacheRead::Missing => old(self).index().remove(track_id),
                CacheRead::Failed => old(self).index(),
                CacheRead::Data(_) => if old(self).index().contains_key(track_id) {
                    old(self).index().insert(
                        track_id,
                        CacheEntry { last_accessed: now, ..old(self).index()[track_id] },
                    )
                } else {
                    old(self).index()
                },
            }),
            final(self).current_size == old(self).current_size - (if read is Missing && old(
                self).index().contains_key(track_id) {
                old(self).index()[track_id].size_bytes as int
            } else {
                0
            }),
            old(self).is_exact() ==> final(self).is_exact(),
    {
        match read {
            CacheRead::Missing => {
                self.forget(track_id);
                None
            },
            CacheRead::Failed => None,
            CacheRead::Data(data) => {
                let _ = self.touch(track_id, now);
                Some(data)
            },
        }
    }

    /// An entry that was used no later than any other.
    fn oldest(&self) -> (r: Option<CacheEntry>)
        requires
            self.wf(),
        ensures
            r is None <==> self.index().is_empty(),
            r matches Some(entry) ==> {
                &&& self.index().contains_key(entry.track_id)
                &&& self.index()[entry.track_id] == entry
                &&& forall|id: u64| #[trigger]
                    self.index().contains_key(id) ==> entry.last_accessed
                        <= self.index()[id].last_accessed
            },
    {
        let mut oldest: Option<CacheEntry> = None;
        for pair in pairs: self.entries.iter()
            invariant
                self.wf(),
                pairs.index() > 0 ==> oldest is Some,
                oldest matches Some(entry) ==> self.index().contains_key(entry.track_id)
                    && self.index()[entry.track_id] == entry,
                forall|i: int|
                    0 <= i < pairs.index() ==> oldest->0.last_accessed <= (
                    #[trigger] pairs.seq()[i]).1.last_accessed,
        {
            assert(self.entries@.contains_key(*pairs.seq()[pairs.index()].0));
            let older = match oldest {
                Some(entry) => pair.1.last_accessed < entry.last_accessed,
                None => true,
            };
            if older {
                oldest = Some(*pair.1);
            }
        }
        oldest
    }

    /// Make room for `needed_bytes` by dropping the least recently used tracks.
    /// Returns the tracks whose files are to be removed, in that order.
    pub fn evict_if_needed(&mut self, needed_bytes: u64) -> (r: Vec<u64>)
        requires
            old(self).wf(),
        ensures
            old(self).evicted_to(*final(self), needed_bytes, r@),
    {
        let ghost start = *self;
        let mut evicted: Vec<u64> = Vec::new();
        proof {
            assert(start.index() =~= start.index().remove_keys(evicted@.to_set()));
        }
        while !self.entries.is_empty() && self.current_size as u128 + needed_bytes as u128
            > self.max_size_bytes as u128
            invariant
                self.wf(),
                start.wf(),
                self.same_place(start),
                self.index() == start.index().remove_keys(evicted@.to_set()),
                start.is_exact() ==> self.is_exact(),
                start.drops_oldest(*self, evicted@),
                evicted@.len() > 0 ==> self.current_size
                    + start.index()[evicted@.last()].size_bytes + needed_bytes
                    > self.max_size_bytes,
                start.current_size == self.current_size + evicted_bytes(start.index(), evicted@),
            decreases self.entries@.dom().len(),
        {
            let ghost before = *self;
            let ghost evicted0 = evicted@;
            let entry: CacheEntry = match self.oldest() {
                Some(entry) => entry,
                None => return evicted,
            };
            self.forget(entry.track_id);
            evicted.push(entry.track_id);
            proof {
                let id = entry.track_id;
                assert(before.index().contains_key(id));
                assert(start.index().contains_key(id) && start.index()[id] == entry);
                lemma_push_to_set(evicted0, id);
                assert(self.index() =~= start.index().remove_keys(evicted@.to_set()));
                assert(evicted@.drop_last() =~= evicted0);
                lemma_drops_one_more(start, before, *self, evicted0, id);
            }
        }
        evicted
    }

    /// `evicted` left the index oldest first, none twice, and nothing that is
    /// left was used before any of them.
    pub open spec fn drops_oldest(self, after: PlaybackCache, evicted: Seq<u64>) -> bool {
        &&& evicted.no_duplicates()
        &&& forall|i: int| 0 <= i < evicted.len() ==> self.index().contains_key(#[trigger] evicted[i])
        &&& forall|i: int, j: int|
            #![trigger evicted[i], evicted[j]]
            0 <= i < j < evicted.len() ==> self.index()[evicted[i]].last_accessed
                <= self.index()[evicted[j]].last_accessed
        &&& forall|i: int, id: u64|
            #![trigger evicted[i], after.index().contains_key(id)]
            0 <= i < evicted.len() && after.index().contains_key(id)
                ==> self.index()[evicted[i]].last_accessed <= after.index()[id].last_accessed
    }

    /// `after` is what is left once room for `needed_bytes` has been made by
    /// dropping `evicted`: the oldest tracks, no more than it took, and enough
    /// unless nothing is left.
    pub open spec fn evicted_to(
        self,
        after: PlaybackCache,
        needed_bytes: u64,
        evicted: Seq<u64>,
    ) -> bool {
        &&& after.wf()
        &&& after.same_place(self)
        &&& after.index() == self.index().remove_keys(evicted.to_set())
        &&& self.drops_oldest(after, evicted)
        &&& after.current_size + needed_bytes <= after.max_size_bytes || after.index().is_empty()
        &&& evicted.len() > 0 ==> after.current_size + self.index()[evicted.last()].size_bytes
            + needed_bytes > after.max_size_bytes
        &&& self.current_size == after.current_size + evicted_bytes(self.index(), evicted)
        &&& self.is_exact() ==> after.is_exact()
    }

    /// Reserve room for a track that will be written straight into the cache:
    /// the path to write to and the tracks whose files are to be removed.
    /// `None` when the track cannot fit at all.
    pub fn begin_write(&mut self, track_id: u64, expected_size: u64) -> (r: Option<
        (String, Vec<u64>),
    >)
        requires
            old(self).wf(),
        ensures
            r is None <==> expected_size > old(self).max_size_bytes,
            r is None ==> *final(self) == *old(self),
            r matches Some((path, evicted)) ==> {
                &&& path@ == joined_path(old(self).cache_dir@, file_name(track_id, ".part"@))
                &&& old(self).evicted_to(*final(self), expected_size, evicted@)
            },
    {
        if expected_size > self.max_size_bytes {
            return None;
        }
        let evicted = self.evict_if_needed(expected_size);
        Some((self.part_path(track_id), evicted))
    }

    /// Publish a track that has been written, once its file has been renamed
    /// into place. Returns the final path.
    pub fn commit_write(&mut self, track_id: u64, actual_size: u64, renamed: bool, now: u64) -> (r:
        Option<String>)
        requires
            old(self).wf(),
            old(self).size_with(track_id, actual_size) <= u64::MAX,
        ensures
            final(self).wf(),
            r is Some <==> renamed,
            !renamed ==> *final(self) == *old(self),
            renamed ==> {
                &&& r->0@ == joined_path(old(self).cache_dir@, file_name(track_id, ".audio"@))
                &&& old(self).recorded_to(*final(self), track_id, actual_size, now)
            },
    {
        if !renamed {
            return None;
        }
        self.record(track_id, actual_size, now);
        Some(self.track_path(track_id))
    }

    /// `after` is the index with a track added, in place of what it held for
    /// it; the track counts once.
    pub open spec fn recorded_to(
        self,
        after: PlaybackCache,
        track_id: u64,
        size_bytes: u64,
        now: u64,
    ) -> bool {
        &&& after.same_place(self)
        &&& after.index() == self.index().insert(
            track_id,
            CacheEntry { track_id, size_bytes, last_accessed: now },
        )
        &&& after.current_size == self.size_with(track_id, size_bytes)
        &&& self.is_exact() ==> after.is_exact()
    }

    /// Plan the insertion of a track that is in memory. A track that is on disk
    /// at this very size is not written again; any other size is the trace of
    /// an interrupted write and is overwritten.
    pub fn insert(&mut self, track_id: u64, size: u64, size_on_disk: Option<u64>, now: u64) -> (r:
        InsertPlan)
        requires
            old(self).wf(),
        ensures
            final(self).wf(),
            ({
                let cached = size_on_disk == Some(size) && old(self).index().contains_key(
                    track_id,
                );
                if size > old(self).max_size_bytes {
                    r is TooLarge && *final(self) == *old(self)
                } else if cached {
                    &&& r is AlreadyCached
                    &&& final(self).same_place(*old(self))
                    &&& final(self).current_size == old(self).current_size
                    &&& final(self).index() == old(self).index().insert(
                        track_id,
                        CacheEntry { last_accessed: now, ..old(self).index()[track_id] },
                    )
                    &&& old(self).is_exact() ==> final(self).is_exact()
                } else {
                    r matches InsertPlan::Write { evicted } && old(self).evicted_to(
                        *final(self),
                        size,
                        evicted@,
                    )
                }
            }),
    {
        if size > self.max_size_bytes {
            return InsertPlan::TooLarge;
        }
        let same_size = match size_on_disk {
            Some(on_disk) => on_disk == size,
            None => false,
        };
        if same_size && self.touch(track_id, now) {
            return InsertPlan::AlreadyCached;
        }
        InsertPlan::Write { evicted: self.evict_if_needed(size) }
    }

    /// The planned insertion was written and renamed into place.
    pub fn insert_written(&mut self, track_id: u64, size: u64, now: u64)
        requires
            old(self).wf(),
            old(self).size_with(track_id, size) <= u64::MAX,
        ensures
            final(self).wf(),
            old(self).recorded_to(*final(self), track_id, size, now),
    {
        self.record(track_id, size, now);
    }

    /// Clear the cache. Returns the tracks whose files are to be removed.
    pub fn clear(&mut self) -> (r: Vec<u64>)
        ensures
            final(self).wf(),
            final(self).is_exact(),
            final(self).same_place(*old(self)),
            final(self).index() == Map::<u64, CacheEntry>::empty(),
            final(self).current_size == 0,
            r@.no_duplicates(),
            forall|id: u64| r@.contains(id) <==> #[trigger] old(self).index().contains_key(id),
    {
        let ghost start = *self;
        let mut ids: Vec<u64> = Vec::new();
        let ghost all = self.entries.keys().remaining().unref();
        for id in keys: self.entries.keys()
            invariant
                *self == start,
                all == keys.seq().unref(),
                ids@ == all.take(keys.index()),
        {
            ids.push(*id);
            assert(ids@ =~= all.take(keys.index() + 1));
        }
        proof {
            assert(ids@ =~= all);
            assert forall|id: u64| ids@.contains(id) <==> #[trigger] start.index().contains_key(
                id,
            ) by {
                assert(all.to_set().contains(id) <==> start.index().dom().contains(id));
            }
        }
        self.entries.clear();
        self.current_size = 0;
        ids
    }

    /// Cache statistics.
    pub fn stats(&self) -> (r: PlaybackCacheStats)
        ensures
            r.cached_tracks == self.index().len(),
            r.current_size_bytes == self.current_size,
            r.max_size_bytes == self.max_size_bytes,
    {
        PlaybackCacheStats {
            cached_tracks: self.entries.len(),
            current_size_bytes: self.current_size,
            max_size_bytes: self.max_size_bytes,
        }
    }

    /// The cache directory.
    pub fn cache_dir(&self) -> (r: &String)
        ensures
            *r == self.cache_dir,
    {
        &self.cache_dir
    }
}

/// The bytes of the tracks in `evicted`.
pub open spec fn evicted_bytes(index: Map<u64, CacheEntry>, evicted: Seq<u64>) -> nat
    decreases evicted.len(),
{
    if evicted.len() == 0 {
        0
    } else {
        evicted_bytes(index, evicted.drop_last()) + index[evicted.last()].size_bytes as nat
    }
}

proof fn lemma_push_to_set(s: Seq<u64>, a: u64)
    ensures
        s.push(a).to_set() == s.to_set().insert(a),
{
    let all = s.push(a);
    assert forall|x: u64| #[trigger] all.to_set().contains(x) <==> s.to_set().insert(a).contains(
        x,
    ) by {
        if s.contains(x) {
            let i = choose|i: int| 0 <= i < s.len() && s[i] == x;
            assert(all[i] == x);
            assert(all.contains(x));
        }
        assert(all[s.len() as int] == a);
        assert(all.contains(a));
        if all.contains(x) && x != a {
            let i = choose|i: int| 0 <= i < all.len() && all[i] == x;
            assert(s[i] == x);
            assert(s.contains(x));
        }
    }
    assert(all.to_set() =~= s.to_set().insert(a));
}

proof fn lemma_drops_one_more(
    start: PlaybackCache,
    before: PlaybackCache,
    after: PlaybackCache,
    evicted: Seq<u64>,
    id: u64,
)
    requires
        start.drops_oldest(before, evicted),
        before.index() == start.index().remove_keys(evicted.to_set()),
        before.index().contains_key(id),
        after.index() == before.index().remove(id),
        forall|k: u64| #[trigger]
            before.index().contains_key(k) ==> before.index()[id].last_accessed
                <= before.index()[k].last_accessed,
    ensures
        start.drops_oldest(after, evicted.push(id)),
{
    let more = evicted.push(id);
    assert(!evicted.contains(id)) by {
        if evicted.contains(id) {
            assert(evicted.to_set().contains(id));
        }
    }
    assert forall|i: int, j: int| 0 <= i < more.len() && 0 <= j < more.len() && i != j implies more[i]
        != more[j] by {
        if i < evicted.len() && j < evicted.len() {
            assert(evicted[i] != evicted[j]);
        } else if i < evicted.len() {
            assert(evicted.contains(evicted[i]));
        } else if j < evicted.len() {
            assert(evicted.contains(evicted[j]));
        }
    }
    assert forall|i: int| 0 <= i < more.len() implies start.index().contains_key(
        #[trigger] more[i],
    ) by {
        if i < evicted.len() {
            assert(more[i] == evicted[i]);
        }
    }
    assert forall|i: int, j: int|
        #![trigger more[i], more[j]]
        0 <= i < j < more.len() implies start.index()[more[i]].last_accessed
        <= start.index()[more[j]].last_accessed by {
        if j < evicted.len() {
            assert(more[i] == evicted[i] && more[j] == evicted[j]);
        } else {
            assert(more[i] == evicted[i]);
            assert(before.index().contains_key(id));
        }
    }
    assert forall|i: int, k: u64|
        #![trigger more[i], after.index().contains_key(k)]
        0 <= i < more.len() && after.index().contains_key(
            k,
        ) implies start.index()[more[i]].last_accessed <= after.index()[k].last_accessed by {
        assert(before.index().contains_key(k));
        if i < evicted.len() {
            assert(more[i] == evicted[i]);
        }
    }
}

/// A track that fits the cache at all never pushes it over its budget: once
/// room has been made and the track recorded, the bytes held are within it.
pub proof fn law_the_budget_holds(
    before: PlaybackCache,
    roomy: PlaybackCache,
    after: PlaybackCache,
    track_id: u64,
    size: u64,
    evicted: Seq<u64>,
    now: u64,
)
    requires
        before.wf(),
        before.is_exact(),
        size <= before.max_size_bytes,
        before.evicted_to(roomy, size, evicted),
        roomy.recorded_to(after, track_id, size, now),
    ensures
        after.current_size <= after.max_size_bytes,
        after.is_exact(),
        after.index().contains_key(track_id),
{
    if roomy.index().is_empty() {
        assert(total_bytes(roomy.index()) == 0);
    }
}

/// A track that is recorded twice counts once, at its latest size.
pub proof fn law_a_track_counts_once(
    before: PlaybackCache,
    once: PlaybackCache,
    twice: PlaybackCache,
    track_id: u64,
    first: u64,
    second: u64,
    now: u64,
    later: u64,
)
    requires
        before.recorded_to(once, track_id, first, now),
        once.recorded_to(twice, track_id, second, later),
    ensures
        twice.current_size == once.current_size - first + second,
        twice.index()[track_id].size_bytes == second,
        twice.index().dom() =~= once.index().dom(),
{
}

/// What fits is not evicted for.
pub proof fn law_nothing_is_evicted_without_need(
    before: PlaybackCache,
    after: PlaybackCache,
    needed: u64,
    evicted: Seq<u64>,
)
    requires
        before.evicted_to(after, needed, evicted),
        before.current_size + needed <= before.max_size_bytes,
    ensures
        evicted.len() == 0,
{
    if evicted.len() > 0 {
        assert(evicted_bytes(before.index(), evicted) >= before.index()[evicted.last()].size_bytes);
    }
}

} // verus!
