//! What holds of the playback cache, call by call.

use vstd::prelude::*;
use vstd::string::*;

use crate::playback_cache::{
    CacheEntry, CacheRead, InsertPlan, PlaybackCache, PlaybackCacheStats, ScannedFile,
};

verus! {

/// The file holds this track: it is named by the track's number and `.audio`.
pub open spec fn holds_track(file: ScannedFile, id: u64) -> bool {
    &&& file.is_file
    &&& file.name is Some
    &&& exists|digits: Seq<char>| #[trigger]
        names_audio(file.name->0@, digits) && crate::text::spelled_u64(digits) == Some(id)
}

/// `name` is these digits and `.audio`.
pub open spec fn names_audio(name: Seq<char>, digits: Seq<char>) -> bool {
    name == digits + seq!['.', 'a', 'u', 'd', 'i', 'o']
}

/// The file is a write that was broken off: its name ends in `.part`.
pub open spec fn is_leftover(file: ScannedFile) -> bool {
    &&& file.is_file
    &&& file.name is Some
    &&& exists|front: Seq<char>| #[trigger] names_part(file.name->0@, front)
}

/// `name` is this and `.part`.
pub open spec fn names_part(name: Seq<char>, front: Seq<char>) -> bool {
    name == front + seq!['.', 'p', 'a', 'r', 't']
}

/// The file at `i` is the last of those that hold this track.
pub open spec fn is_last_of(files: Seq<ScannedFile>, i: int, id: u64) -> bool {
    &&& 0 <= i < files.len()
    &&& holds_track(files[i], id)
    &&& forall|j: int| i < j < files.len() ==> !holds_track(#[trigger] files[j], id)
}

proof fn lemma_verdict(file: ScannedFile)
    ensures
        forall|id: u64| #[trigger]
            holds_track(file, id) <==> crate::playback_cache::verdict_on(file)
                == crate::playback_cache::ScanVerdict::Adopt(id),
        is_leftover(file) <==> crate::playback_cache::verdict_on(file) is Sweep,
{
    reveal_strlit(".audio");
    reveal_strlit(".part");
    let audio = seq!['.', 'a', 'u', 'd', 'i', 'o'];
    let part = seq!['.', 'p', 'a', 'r', 't'];
    assert(".audio"@ =~= audio);
    assert(".part"@ =~= part);
    if file.is_file && file.name is Some {
        let name = file.name->0@;
        assert forall|front: Seq<char>| names_part(name, front) implies crate::playback_cache::ends_in(
            name,
            ".part"@,
        ) by {
            assert(name.subrange(name.len() - 5, name.len() as int) =~= part);
        }
        if crate::playback_cache::ends_in(name, ".part"@) {
            assert(name =~= name.take(name.len() - 5) + name.subrange(
                name.len() - 5,
                name.len() as int,
            ));
            assert(names_part(name, name.take(name.len() - 5)));
            assert(name.last() == 't') by {
                assert(name.subrange(name.len() - 5, name.len() as int)[4] == 't');
            }
        }
        assert forall|digits: Seq<char>| names_audio(name, digits) implies {
            &&& crate::playback_cache::ends_in(name, ".audio"@)
            &&& name.subrange(0, name.len() - 6) == digits
            &&& name.last() == 'o'
        } by {
            assert(name.subrange(name.len() - 6, name.len() as int) =~= audio);
            assert(name.subrange(0, name.len() - 6) =~= digits);
        }
        if crate::playback_cache::ends_in(name, ".audio"@) {
            let digits = name.subrange(0, name.len() - 6);
            assert(name =~= digits + name.subrange(name.len() - 6, name.len() as int));
            assert(names_audio(name, digits));
        }
    }
}

proof fn lemma_scanned(files: Seq<ScannedFile>, id: u64)
    ensures
        ({
            let index = crate::playback_cache::scanned_entries(files);
            &&& index.contains_key(id) ==> exists|i: int|
                #![trigger is_last_of(files, i, id)]
                is_last_of(files, i, id) && index[id].track_id == id && index[id].size_bytes
                    == files[i].size && index[id].last_accessed == files[i].accessed
            &&& !index.contains_key(id) ==> forall|i: int|
                0 <= i < files.len() ==> !holds_track(#[trigger] files[i], id)
        }),
    decreases files.len(),
{
    if files.len() > 0 {
        let before = files.drop_last();
        lemma_scanned(before, id);
        lemma_verdict(files.last());
        let n = files.len() - 1;
        let index = crate::playback_cache::scanned_entries(files);
        if holds_track(files.last(), id) {
            assert(is_last_of(files, n, id));
        } else {
            let old_index = crate::playback_cache::scanned_entries(before);
            assert(index.contains_key(id) == old_index.contains_key(id));
            if index.contains_key(id) {
                assert(index[id] == old_index[id]);
                let i = choose|i: int|
                    #![trigger is_last_of(before, i, id)]
                    is_last_of(before, i, id) && old_index[id].track_id == id
                        && old_index[id].size_bytes == before[i].size && old_index[id].last_accessed
                        == before[i].accessed;
                assert(files[i] == before[i]);
                assert forall|j: int| i < j < files.len() implies !holds_track(
                    #[trigger] files[j],
                    id,
                ) by {
                    if j < n {
                        assert(files[j] == before[j]);
                    }
                }
                assert(is_last_of(files, i, id));
            } else {
                assert forall|i: int| 0 <= i < files.len() implies !holds_track(
                    #[trigger] files[i],
                    id,
                ) by {
                    if i < n {
                        assert(files[i] == before[i]);
                    }
                }
            }
        }
    }
}

proof fn lemma_swept(files: Seq<ScannedFile>)
    ensures
        ({
            let swept = crate::playback_cache::swept_files(files);
            &&& forall|k: int|
                0 <= k < swept.len() ==> 0 <= #[trigger] swept[k] < files.len() && is_leftover(
                    files[swept[k]],
                )
            &&& forall|k: int, l: int| 0 <= k < l < swept.len() ==> swept[k] < swept[l]
            &&& forall|i: int|
                0 <= i < files.len() && is_leftover(#[trigger] files[i]) ==> swept.contains(i)
        }),
    decreases files.len(),
{
    if files.len() > 0 {
        let before = files.drop_last();
        lemma_swept(before);
        lemma_verdict(files.last());
        let swept = crate::playback_cache::swept_files(files);
        let old_swept = crate::playback_cache::swept_files(before);
        let n = files.len() - 1;
        assert forall|k: int| 0 <= k < swept.len() implies 0 <= #[trigger] swept[k] < files.len()
            && is_leftover(files[swept[k]]) by {
            if k < old_swept.len() {
                assert(swept[k] == old_swept[k]);
                assert(files[swept[k]] == before[old_swept[k]]);
            }
        }
        assert forall|i: int|
            0 <= i < files.len() && is_leftover(#[trigger] files[i]) implies swept.contains(i) by {
            if i < n {
                assert(files[i] == before[i]);
                assert(old_swept.contains(i));
                let k = choose|k: int| 0 <= k < old_swept.len() && old_swept[k] == i;
                assert(swept[k] == i);
            } else {
                assert(swept.last() == i);
            }
        }
    }
}

/// After a scan the cache holds the tracks whose files lie in the directory and no
/// others. What is noted of a track is what its last file shows: the file's size, and
/// the time at which the file was last accessed.
pub proof fn law_a_scan_takes_over_what_lies_there(
    cache: &mut PlaybackCache,
    files: &Vec<ScannedFile>,
    r: Vec<usize>,
    id: u64,
    i: int,
)
    requires
        call_ensures(PlaybackCache::rebuild_state, (cache, files), r),
    ensures
        final(cache).entries@.contains_key(id) <==> exists|k: int| #[trigger]
            is_last_of(files@, k, id),
        is_last_of(files@, i, id) ==> final(cache).entries@[id].last_accessed == files@[i].accessed
            && final(cache).entries@[id].size_bytes == files@[i].size && final(cache).entries@[id].track_id == id,
        final(cache).cache_dir == old(cache).cache_dir,
        final(cache).max_size_bytes == old(cache).max_size_bytes,
{
    lemma_scanned(files@, id);
    let index = crate::playback_cache::scanned_entries(files@);
    if index.contains_key(id) {
        let k = choose|k: int|
            #![trigger is_last_of(files@, k, id)]
            is_last_of(files@, k, id) && index[id].track_id == id && index[id].size_bytes
                == files@[k].size && index[id].last_accessed == files@[k].accessed;
        if is_last_of(files@, i, id) {
            if i < k {
                assert(!holds_track(files@[k], id));
            }
            if k < i {
                assert(!holds_track(files@[i], id));
            }
        }
    } else {
        assert forall|k: int| !(#[trigger] is_last_of(files@, k, id)) by {
            if 0 <= k < files@.len() {
                assert(!holds_track(files@[k], id));
            }
        }
    }
}

/// A scan removes every write that was broken off, and nothing else, in the order of
/// the files.
pub proof fn law_a_scan_sweeps_broken_writes(
    cache: &mut PlaybackCache,
    files: &Vec<ScannedFile>,
    r: Vec<usize>,
    i: int,
)
    requires
        call_ensures(PlaybackCache::rebuild_state, (cache, files), r),
        0 <= i < files@.len(),
    ensures
        is_leftover(files@[i]) <==> exists|k: int| 0 <= k < r@.len() && #[trigger] r@[k] == i,
        forall|k: int| 0 <= k < r@.len() ==> #[trigger] r@[k] < files@.len(),
        forall|k: int, l: int| 0 <= k < l < r@.len() ==> r@[k] < r@[l],
{
    let swept = crate::playback_cache::swept_files(files@);
    lemma_swept(files@);
    let same = r@.map_values(|i: usize| i as int);
    assert forall|k: int| 0 <= k < r@.len() implies #[trigger] r@[k] == swept[k] by {
        assert(same[k] == swept[k]);
    }
    if is_leftover(files@[i]) {
        assert(swept.contains(i));
        let k = choose|k: int| 0 <= k < swept.len() && swept[k] == i;
        assert(r@[k] == i);
    }
}

/// A scan counts the bytes of the files that it takes over: one file more makes its
/// bytes more where it holds a track, and nothing more where it does not.
pub proof fn law_a_scan_counts_its_files(
    cache: &mut PlaybackCache,
    files: &Vec<ScannedFile>,
    r: Vec<usize>,
    other: &mut PlaybackCache,
    more: &Vec<ScannedFile>,
    s: Vec<usize>,
    file: ScannedFile,
    id: u64,
)
    requires
        call_ensures(PlaybackCache::rebuild_state, (cache, files), r),
        call_ensures(PlaybackCache::rebuild_state, (other, more), s),
        more@ == files@.push(file),
    ensures
        holds_track(file, id) ==> final(other).current_size == final(cache).current_size
            + file.size,
        (forall|k: u64| !(#[trigger] holds_track(file, k))) ==> final(other).current_size == final(cache).current_size,
        files@.len() == 0 ==> final(cache).current_size == 0,
{
    lemma_verdict(file);
    assert(more@.drop_last() =~= files@);
    if forall|k: u64| !(#[trigger] holds_track(file, k)) {
        match crate::playback_cache::verdict_on(file) {
            crate::playback_cache::ScanVerdict::Adopt(k) => {
                assert(holds_track(file, k));
            },
            _ => {},
        }
    }
}

/// A file that was written for a track is found again by a scan as that track's.
pub proof fn law_a_cached_file_is_found_again(
    cache: &PlaybackCache,
    id: u64,
    path: String,
    file: ScannedFile,
)
    requires
        call_ensures(PlaybackCache::track_path, (cache, id), path),
        file.is_file,
        file.name is Some,
        cache.cache_dir@.len() > 0,
        path@ == cache.cache_dir@ + (if cache.cache_dir@.last() == '/' {
            Seq::<char>::empty()
        } else {
            seq!['/']
        }) + file.name->0@,
    ensures
        holds_track(file, id),
{
    reveal_strlit(".audio");
    reveal_strlit("/");
    let d = cache.cache_dir@;
    let digits = crate::text::decimal(id as nat);
    crate::text_laws::lemma_decimal_is_read(id);
    let skip: int = d.len() + (if d.last() == '/' {
        0int
    } else {
        1
    });
    assert(file.name->0@ =~= path@.skip(skip));
    assert(digits + ".audio"@ =~= path@.skip(skip));
    assert(names_audio(file.name->0@, digits)) by {
        assert(".audio"@ =~= seq!['.', 'a', 'u', 'd', 'i', 'o']);
    }
}

/// Where room is made, the tracks that go are the ones that were used longest ago, the
/// longest ago first; what stays is unchanged. There is room then, or nothing is left.
/// Nothing goes where there is room already, and the last to go was needed.
pub proof fn law_room_is_made_from_the_oldest(
    cache: &mut PlaybackCache,
    needed: u64,
    r: Vec<u64>,
    id: u64,
)
    requires
        call_ensures(PlaybackCache::evict_if_needed, (cache, needed), r),
    ensures
        makes_room(*old(cache), *final(cache), needed, r@),
        final(cache).entries@.contains_key(id) <==> old(cache).entries@.contains_key(id)
            && !r@.contains(id),
        final(cache).entries@.contains_key(id) ==> final(cache).entries@[id] == old(cache).entries@[id],
        r@.contains(id) ==> old(cache).entries@.contains_key(id),
{
    lemma_evicted(*old(cache), *final(cache), needed, r@);
    if r@.contains(id) {
        let k = choose|k: int| 0 <= k < r@.len() && r@[k] == id;
        assert(old(cache).index().contains_key(r@[k]));
    }
}

/// `evicted` went from `before`, oldest first, so that `needed` bytes fit into `after`.
pub open spec fn makes_room(
    before: PlaybackCache,
    after: PlaybackCache,
    needed: u64,
    evicted: Seq<u64>,
) -> bool {
    &&& after.cache_dir == before.cache_dir
    &&& after.max_size_bytes == before.max_size_bytes
    &&& forall|id: u64| #[trigger]
        after.entries@.contains_key(id) <==> before.entries@.contains_key(id) && !evicted.contains(
            id,
        )
    &&& forall|id: u64|
        after.entries@.contains_key(id) ==> #[trigger] after.entries@[id] == before.entries@[id]
    &&& forall|i: int|
        0 <= i < evicted.len() ==> before.entries@.contains_key(#[trigger] evicted[i])
    &&& forall|i: int, j: int|
        #![trigger evicted[i], evicted[j]]
        0 <= i < j < evicted.len() ==> evicted[i] != evicted[j]
            && before.entries@[evicted[i]].last_accessed
            <= before.entries@[evicted[j]].last_accessed
    &&& forall|i: int, id: u64|
        #![trigger evicted[i], after.entries@.contains_key(id)]
        0 <= i < evicted.len() && after.entries@.contains_key(id)
            ==> before.entries@[evicted[i]].last_accessed <= before.entries@[id].last_accessed
    &&& after.current_size + needed <= after.max_size_bytes || forall|id: u64|
        !(#[trigger] after.entries@.contains_key(id))
    &&& before.current_size + needed <= before.max_size_bytes ==> evicted.len() == 0
        && after.current_size == before.current_size
    &&& evicted.len() > 0 ==> after.current_size
        + before.entries@[evicted.last()].size_bytes + needed > before.max_size_bytes
    &&& evicted.len() == 0 ==> after.current_size == before.current_size
    &&& evicted.len() == 1 ==> after.current_size == before.current_size
        - before.entries@[evicted[0]].size_bytes
}

proof fn lemma_evicted(
    before: PlaybackCache,
    after: PlaybackCache,
    needed: u64,
    evicted: Seq<u64>,
)
    requires
        before.evicted_to(after, needed, evicted),
    ensures
        makes_room(before, after, needed, evicted),
{
    broadcast use vstd::seq_lib::group_to_multiset_ensures;

    assert forall|id: u64| #[trigger]
        after.entries@.contains_key(id) <==> before.entries@.contains_key(id) && !evicted.contains(
            id,
        ) by {
        assert(evicted.to_set().contains(id) <==> evicted.contains(id));
        assert(after.index().contains_key(id) <==> before.entries@.remove_keys(
            evicted.to_set(),
        ).contains_key(id));
    }
    assert forall|id: u64| after.entries@.contains_key(id) implies #[trigger] after.entries@[id]
        == before.entries@[id] by {
        assert(after.index().contains_key(id));
    }
    assert forall|i: int| 0 <= i < evicted.len() implies before.entries@.contains_key(
        #[trigger] evicted[i],
    ) by {
        assert(before.index().contains_key(evicted[i]));
    }
    assert forall|i: int, id: u64|
        #![trigger evicted[i], after.entries@.contains_key(id)]
        0 <= i < evicted.len() && after.entries@.contains_key(
            id,
        ) implies before.entries@[evicted[i]].last_accessed <= before.entries@[id].last_accessed by {
        assert(after.index().contains_key(id));
        assert(after.entries@[id] == before.entries@[id]);
    }
    assert forall|i: int, j: int|
        #![trigger evicted[i], evicted[j]]
        0 <= i < j < evicted.len() implies evicted[i] != evicted[j]
        && before.entries@[evicted[i]].last_accessed <= before.entries@[evicted[j]].last_accessed by {
        assert(before.index()[evicted[i]].last_accessed
            <= before.index()[evicted[j]].last_accessed);
    }
    if after.index().is_empty() {
        assert forall|id: u64| !(#[trigger] after.entries@.contains_key(id)) by {
            assert(!after.index().dom().contains(id));
        }
    }
    reveal_with_fuel(crate::playback_cache::evicted_bytes, 2);
    if evicted.len() == 1 {
        assert(evicted.drop_last() =~= Seq::<u64>::empty());
    }
}

/// A scan and an eviction together: of two tracks that a scan took over, the one whose
/// file was accessed earlier goes first. It goes wherever the other goes, and before it.
pub proof fn law_a_scanned_track_goes_by_its_access_time(
    cache: &mut PlaybackCache,
    files: &Vec<ScannedFile>,
    swept: Vec<usize>,
    full: &mut PlaybackCache,
    needed: u64,
    evicted: Vec<u64>,
    i: int,
    early: u64,
    j: int,
    late: u64,
    place: int,
)
    requires
        call_ensures(PlaybackCache::rebuild_state, (cache, files), swept),
        *old(full) == *final(cache),
        call_ensures(PlaybackCache::evict_if_needed, (full, needed), evicted),
        is_last_of(files@, i, early),
        is_last_of(files@, j, late),
        files@[i].accessed < files@[j].accessed,
        0 <= place < evicted@.len(),
        evicted@[place] == late,
    ensures
        exists|k: int| 0 <= k < place && #[trigger] evicted@[k] == early,
        !final(full).entries@.contains_key(early),
{
    lemma_scanned_at(*final(cache), files, early, i);
    lemma_scanned_at(*final(cache), files, late, j);
    lemma_evicted(*old(full), *final(full), needed, evicted@);
    assert(old(full).entries@.contains_key(early));
    if final(full).entries@.contains_key(early) {
        assert(old(full).entries@[evicted@[place]].last_accessed
            <= old(full).entries@[early].last_accessed);
    }
    assert(evicted@.contains(early));
    let k = choose|k: int| 0 <= k < evicted@.len() && evicted@[k] == early;
    if k > place {
        assert(old(full).entries@[evicted@[place]].last_accessed
            <= old(full).entries@[evicted@[k]].last_accessed);
    }
}

proof fn lemma_scanned_at(
    after: PlaybackCache,
    files: &Vec<ScannedFile>,
    id: u64,
    i: int,
)
    requires
        after.index() == crate::playback_cache::scanned_entries(files@),
        is_last_of(files@, i, id),
    ensures
        after.entries@.contains_key(id),
        after.entries@[id].last_accessed == files@[i].accessed,
{
    lemma_scanned(files@, id);
    let index = crate::playback_cache::scanned_entries(files@);
    if !index.contains_key(id) {
        assert(!holds_track(files@[i], id));
    }
    let k = choose|k: int|
        #![trigger is_last_of(files@, k, id)]
        is_last_of(files@, k, id) && index[id].track_id == id && index[id].size_bytes
            == files@[k].size && index[id].last_accessed == files@[k].accessed;
    if i < k {
        assert(!holds_track(files@[k], id));
    }
    if k < i {
        assert(!holds_track(files@[i], id));
    }
}

/// A read hands over the bytes of the file and is noted as a use at that time. A file
/// that has gone takes its track along, with its bytes; a failed read changes nothing.
/// No other track is touched.
pub proof fn law_a_read_is_a_use(
    cache: &mut PlaybackCache,
    id: u64,
    read: CacheRead,
    now: u64,
    r: Option<Vec<u8>>,
    other: u64,
)
    requires
        call_ensures(PlaybackCache::get, (cache, id, read, now), r),
    ensures
        read is Data ==> r == Some(read->Data_0),
        !(read is Data) ==> r is None,
        read is Data && old(cache).entries@.contains_key(id) ==> {
            &&& final(cache).entries@.contains_key(id)
            &&& final(cache).entries@[id].last_accessed == now
            &&& final(cache).entries@[id].size_bytes == old(cache).entries@[id].size_bytes
            &&& final(cache).entries@[id].track_id == old(cache).entries@[id].track_id
        },
        read is Data && !old(cache).entries@.contains_key(id) ==> !final(cache).entries@.contains_key(id),
        read is Missing ==> !final(cache).entries@.contains_key(id),
        read is Missing && old(cache).entries@.contains_key(id) ==> final(cache).current_size
            == old(cache).current_size - old(cache).entries@[id].size_bytes,
        read is Missing && !old(cache).entries@.contains_key(id) ==> final(cache).current_size
            == old(cache).current_size,
        !(read is Missing) ==> final(cache).current_size == old(cache).current_size,
        read is Failed ==> final(cache).entries@ == old(cache).entries@,
        other != id ==> final(cache).entries@.contains_key(other) == old(cache).entries@.contains_key(other) && final(cache).entries@[other] == old(cache).entries@[other],
        final(cache).cache_dir == old(cache).cache_dir,
        final(cache).max_size_bytes == old(cache).max_size_bytes,
{
    assert(final(cache).entries@ == final(cache).index());
}

/// The file of a track lies in the cache directory and is named by the track's number;
/// a write goes to a file of its own beside it.
pub proof fn law_a_track_has_its_own_file(
    cache: &PlaybackCache,
    id: u64,
    path: String,
    part: String,
    other: u64,
    other_path: String,
    other_part: String,
)
    requires
        call_ensures(PlaybackCache::track_path, (cache, id), path),
        call_ensures(PlaybackCache::part_path, (cache, id), part),
        call_ensures(PlaybackCache::track_path, (cache, other), other_path),
        call_ensures(PlaybackCache::part_path, (cache, other), other_part),
    ensures
        is_file_of(cache.cache_dir@, id, seq!['.', 'a', 'u', 'd', 'i', 'o'], path@),
        is_file_of(cache.cache_dir@, id, seq!['.', 'p', 'a', 'r', 't'], part@),
        path@ != other_part@,
        id != other ==> path@ != other_path@ && part@ != other_part@,
{
    reveal_strlit(".audio");
    reveal_strlit(".part");
    reveal_strlit("/");
    assert("/"@ =~= seq!['/']);
    let d = cache.cache_dir@;
    assert(".audio"@ =~= seq!['.', 'a', 'u', 'd', 'i', 'o']);
    assert(".part"@ =~= seq!['.', 'p', 'a', 'r', 't']);
    assert(path@.last() == 'o');
    assert(other_part@.last() == 't');
    lemma_files(d, id, ".audio"@, path@);
    lemma_files(d, id, ".part"@, part@);
    lemma_files(d, other, ".audio"@, other_path@);
    lemma_files(d, other, ".part"@, other_part@);
    crate::text_laws::lemma_decimal_is_read(id);
    crate::text_laws::lemma_decimal_is_read(other);
}

/// `path` is the number of the track and this ending, in the directory `dir`.
pub open spec fn is_file_of(dir: Seq<char>, id: u64, ending: Seq<char>, path: Seq<char>) -> bool {
    let slash: Seq<char> = if dir.len() == 0 || dir.last() == '/' {
        Seq::empty()
    } else {
        seq!['/']
    };
    path == dir + slash + crate::text::decimal(id as nat) + ending
}

proof fn lemma_files(dir: Seq<char>, id: u64, ending: Seq<char>, path: Seq<char>)
    requires
        path == crate::playback_cache::joined_path(
            dir,
            crate::playback_cache::file_name(id, ending),
        ),
    ensures
        is_file_of(dir, id, ending, path),
        ({
            let front: int = dir.len() + (if dir.len() == 0 || dir.last() == '/' {
                0int
            } else {
                1
            });
            path.subrange(front, path.len() - ending.len()) == crate::text::decimal(id as nat)
        }),
{
    reveal_strlit("/");
    assert("/"@ =~= seq!['/']);
    let slash: Seq<char> = if dir.len() == 0 || dir.last() == '/' {
        Seq::empty()
    } else {
        seq!['/']
    };
    assert(path =~= dir + slash + crate::text::decimal(id as nat) + ending);
    let front: int = (dir.len() + slash.len()) as int;
    assert(path.subrange(front, path.len() - ending.len()) =~= crate::text::decimal(id as nat));
}

/// A track is in the cache if and only if it is noted there, and its path is given
/// where its file exists too: the path of that track.
pub proof fn law_a_cached_track_is_found(
    cache: &PlaybackCache,
    id: u64,
    held: bool,
    on_disk: bool,
    r: Option<String>,
    path: String,
)
    requires
        call_ensures(PlaybackCache::contains, (cache, id), held),
        call_ensures(PlaybackCache::path_if_present, (cache, id, on_disk), r),
        call_ensures(PlaybackCache::track_path, (cache, id), path),
    ensures
        held <==> cache.entries@.contains_key(id),
        r is Some <==> cache.entries@.contains_key(id) && on_disk,
        r is Some ==> r->0@ == path@,
{
}

/// A write is begun where the track can fit into the whole cache: room is made for it,
/// and it goes to the track's own file for writes. A larger one changes nothing.
pub proof fn law_a_write_begins_with_room(
    cache: &mut PlaybackCache,
    id: u64,
    size: u64,
    r: Option<(String, Vec<u64>)>,
)
    requires
        call_ensures(PlaybackCache::begin_write, (cache, id, size), r),
    ensures
        r is None <==> size > old(cache).max_size_bytes,
        r is None ==> *final(cache) == *old(cache),
        r is Some ==> is_file_of(
            old(cache).cache_dir@,
            id,
            seq!['.', 'p', 'a', 'r', 't'],
            (r->0).0@,
        ) && makes_room(*old(cache), *final(cache), size, (r->0).1@),
{
    reveal_strlit(".part");
    if r is Some {
        assert(".part"@ =~= seq!['.', 'p', 'a', 'r', 't']);
        lemma_files(old(cache).cache_dir@, id, ".part"@, (r->0).0@);
        lemma_evicted(*old(cache), *final(cache), size, (r->0).1@);
    }
}

/// The track is noted in `after` with this size, as used at this time; nothing else
/// is different, and the bytes of the cache go up by what it takes more than before.
pub open spec fn notes_track(
    before: PlaybackCache,
    after: PlaybackCache,
    id: u64,
    size: u64,
    now: u64,
) -> bool {
    &&& after.entries@.contains_key(id)
    &&& after.entries@[id].track_id == id
    &&& after.entries@[id].size_bytes == size
    &&& after.entries@[id].last_accessed == now
    &&& forall|other: u64|
        other != id ==> (#[trigger] after.entries@.contains_key(other)
            == before.entries@.contains_key(other))
    &&& forall|other: u64| other != id ==> #[trigger] after.entries@[other] == before.entries@[other]
    &&& before.entries@.contains_key(id) ==> after.current_size
        + before.entries@[id].size_bytes == before.current_size + size
    &&& !before.entries@.contains_key(id) ==> after.current_size == before.current_size + size
    &&& after.cache_dir == before.cache_dir
    &&& after.max_size_bytes == before.max_size_bytes
}

/// A write that was finished and moved into place is noted with the size that was
/// written and the time; its path is the track's own. One that could not be moved
/// leaves the cache as it was.
pub proof fn law_a_finished_write_is_noted(
    cache: &mut PlaybackCache,
    id: u64,
    size: u64,
    renamed: bool,
    now: u64,
    r: Option<String>,
    direct: &mut PlaybackCache,
)
    requires
        call_ensures(PlaybackCache::commit_write, (cache, id, size, renamed, now), r),
        call_ensures(PlaybackCache::insert_written, (direct, id, size, now), ()),
    ensures
        r is Some <==> renamed,
        !renamed ==> *final(cache) == *old(cache),
        renamed ==> notes_track(*old(cache), *final(cache), id, size, now) && is_file_of(
            old(cache).cache_dir@,
            id,
            seq!['.', 'a', 'u', 'd', 'i', 'o'],
            r->0@,
        ),
        notes_track(*old(direct), *final(direct), id, size, now),
{
    reveal_strlit(".audio");
    assert(".audio"@ =~= seq!['.', 'a', 'u', 'd', 'i', 'o']);
    if renamed {
        lemma_files(old(cache).cache_dir@, id, ".audio"@, r->0@);
        lemma_recorded(*old(cache), *final(cache), id, size, now);
    }
    lemma_recorded(*old(direct), *final(direct), id, size, now);
}

proof fn lemma_recorded(
    before: PlaybackCache,
    after: PlaybackCache,
    id: u64,
    size: u64,
    now: u64,
)
    requires
        before.recorded_to(after, id, size, now),
    ensures
        notes_track(before, after, id, size, now),
{
    assert(after.entries@ == after.index());
    assert(before.entries@ == before.index());
}

/// A track larger than the whole cache is not taken. One that is noted and lies on
/// disk at this size is only noted as used; for any other, room is made.
pub proof fn law_an_insertion_is_planned(
    cache: &mut PlaybackCache,
    id: u64,
    size: u64,
    on_disk: Option<u64>,
    now: u64,
    r: InsertPlan,
    other: u64,
)
    requires
        call_ensures(PlaybackCache::insert, (cache, id, size, on_disk, now), r),
    ensures
        r is TooLarge <==> size > old(cache).max_size_bytes,
        r is TooLarge ==> *final(cache) == *old(cache),
        r is AlreadyCached <==> size <= old(cache).max_size_bytes && on_disk == Some(size) && old(cache).entries@.contains_key(id),
        r is AlreadyCached ==> {
            &&& final(cache).entries@.contains_key(id)
            &&& final(cache).entries@[id].last_accessed == now
            &&& final(cache).entries@[id].size_bytes == old(cache).entries@[id].size_bytes
            &&& final(cache).current_size == old(cache).current_size
            &&& other != id ==> final(cache).entries@.contains_key(other) == old(cache).entries@.contains_key(other) && final(cache).entries@[other] == old(cache).entries@[other]
        },
        r is Write ==> makes_room(*old(cache), *final(cache), size, r->evicted@),
{
    assert(final(cache).entries@ == final(cache).index());
    match r {
        InsertPlan::Write { evicted } => {
            lemma_evicted(*old(cache), *final(cache), size, evicted@);
        },
        _ => {},
    }
}

/// Clearing removes every track that is noted, each once, and leaves an empty cache in
/// the same place.
pub proof fn law_clearing_leaves_nothing(cache: &mut PlaybackCache, r: Vec<u64>, id: u64)
    requires
        call_ensures(PlaybackCache::clear, (cache,), r),
    ensures
        r@.contains(id) <==> old(cache).entries@.contains_key(id),
        forall|i: int, j: int| 0 <= i < j < r@.len() ==> r@[i] != r@[j],
        !final(cache).entries@.contains_key(id),
        final(cache).current_size == 0,
        final(cache).cache_dir == old(cache).cache_dir,
        final(cache).max_size_bytes == old(cache).max_size_bytes,
{
    assert(r@.contains(id) <==> old(cache).index().contains_key(id));
    assert(final(cache).entries@ == final(cache).index());
}

/// A new cache is empty, has the directory and the budget that it was made with, and
/// its figures are those of what it holds.
pub proof fn law_a_cache_tells_what_it_holds(
    dir: String,
    budget: u64,
    fresh: PlaybackCache,
    cache: &PlaybackCache,
    stats: PlaybackCacheStats,
    place: &String,
    id: u64,
)
    requires
        call_ensures(PlaybackCache::with_path, (dir, budget), fresh),
        call_ensures(PlaybackCache::stats, (cache,), stats),
        call_ensures(PlaybackCache::cache_dir, (cache,), place),
    ensures
        !fresh.entries@.contains_key(id),
        fresh.current_size == 0,
        fresh.cache_dir == dir,
        fresh.max_size_bytes == budget,
        stats.cached_tracks == cache.entries@.dom().len(),
        stats.current_size_bytes == cache.current_size,
        stats.max_size_bytes == cache.max_size_bytes,
        *place == cache.cache_dir,
{
    assert(fresh.entries@ == fresh.index());
}

/// The bytes of the entries add up one by one.
pub proof fn law_the_bytes_add_up(entries: Map<u64, CacheEntry>, id: u64, entry: CacheEntry)
    requires
        entries.dom().finite(),
    ensures
        crate::playback_cache::total_bytes(Map::<u64, CacheEntry>::empty()) == 0,
        !entries.contains_key(id) ==> crate::playback_cache::total_bytes(entries.insert(id, entry))
            == crate::playback_cache::total_bytes(entries) + entry.size_bytes,
        entries.contains_key(id) ==> crate::playback_cache::total_bytes(entries)
            == crate::playback_cache::total_bytes(entries.remove(id)) + entries[id].size_bytes,
{
    if entries.contains_key(id) {
        crate::playback_cache::lemma_total_remove(entries, id);
    } else {
        crate::playback_cache::lemma_total_insert(entries, id, entry);
        assert(entries.remove(id) =~= entries);
    }
}

} // verus!
