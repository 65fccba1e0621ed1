use qbz::playback_cache::{CacheRead, InsertPlan, PlaybackCache, ScannedFile};
use std::collections::BTreeMap;

/// A cache with a directory of its own: files by path, with the time each was
/// last written.
struct Disk {
    cache: PlaybackCache,
    files: BTreeMap<String, (Vec<u8>, u64)>,
    now: u64,
}

impl Disk {
    fn new(max_bytes: u64) -> Self {
        Disk {
            cache: PlaybackCache::with_path("/cache".to_string(), max_bytes),
            files: BTreeMap::new(),
            now: 0,
        }
    }

    fn insert(&mut self, track_id: u64, data: &[u8]) {
        self.now += 1;
        let path = self.cache.track_path(track_id);
        let on_disk = self.files.get(&path).map(|f| f.0.len() as u64);
        match self.cache.insert(track_id, data.len() as u64, on_disk, self.now) {
            InsertPlan::TooLarge | InsertPlan::AlreadyCached => {},
            InsertPlan::Write { evicted } => {
                self.remove(&evicted);
                let part = self.cache.part_path(track_id);
                self.files.insert(part.clone(), (data.to_vec(), self.now));
                let written = self.files.remove(&part).expect("written");
                self.files.insert(path, written);
                self.cache.insert_written(track_id, data.len() as u64, self.now);
            },
        }
    }

    fn remove(&mut self, tracks: &[u64]) {
        for id in tracks {
            self.files.remove(&self.cache.track_path(*id));
        }
    }

    fn get(&mut self, track_id: u64) -> Option<Vec<u8>> {
        self.now += 1;
        let read = match self.files.get(&self.cache.track_path(track_id)) {
            Some((data, _)) => CacheRead::Data(data.clone()),
            None => CacheRead::Missing,
        };
        self.cache.get(track_id, read, self.now)
    }

    /// Start over from what is on the disk.
    fn reopen(&mut self) {
        let names: Vec<String> = self.files.keys().cloned().collect();
        let scan: Vec<ScannedFile> = names
            .iter()
            .map(|path| ScannedFile {
                name: path.strip_prefix("/cache/").map(str::to_string),
                is_file: true,
                size: self.files[path].0.len() as u64,
                accessed: self.files[path].1,
            })
            .collect();
        for swept in self.cache.rebuild_state(&scan) {
            self.files.remove(&names[swept]);
        }
    }
}

#[test]
fn insert_leaves_no_partial_file() {
    let mut disk = Disk::new(10 * 1024 * 1024);
    disk.insert(42, &[7u8; 4096]);
    assert_eq!(disk.get(42).map(|d| d.len()), Some(4096));
    assert!(disk.files.keys().all(|path| !path.ends_with(".part")));
    assert_eq!(disk.files.keys().collect::<Vec<_>>(), ["/cache/42.audio"]);
}

#[test]
fn rebuild_sweeps_an_interrupted_write() {
    let mut disk = Disk::new(10 * 1024 * 1024);
    disk.insert(1, &[1u8; 1024]);
    disk.files.insert("/cache/999.part".to_string(), (vec![0u8; 512], 0));
    disk.reopen();
    assert!(disk.cache.contains(1), "the complete track is adopted");
    assert!(!disk.files.contains_key("/cache/999.part"), "the partial file is swept");
    assert_eq!(disk.cache.stats().current_size_bytes, 1024);
}

#[test]
fn insert_evicts_to_stay_under_the_budget() {
    let mut disk = Disk::new(8192);
    disk.insert(1, &[0u8; 4096]);
    disk.insert(2, &[0u8; 4096]);
    disk.insert(3, &[0u8; 4096]);
    assert!(!disk.cache.contains(1), "the oldest track is evicted");
    assert!(disk.cache.contains(3));
    assert!(disk.cache.stats().current_size_bytes <= 8192);
    assert!(!disk.files.contains_key("/cache/1.audio"), "its file is deleted too");
}

#[test]
fn insert_does_not_rewrite_an_identical_file() {
    let mut disk = Disk::new(10 * 1024 * 1024);
    let data = [7u8; 4096];
    disk.insert(1, &data);
    let first = disk.files["/cache/1.audio"].1;
    disk.insert(1, &data);
    let second = disk.files["/cache/1.audio"].1;
    assert_eq!(first, second, "the file was not rewritten");
    assert!(disk.cache.contains(1));
    assert_eq!(disk.cache.stats().current_size_bytes, 4096, "counted once");
}

#[test]
fn insert_overwrites_a_file_of_a_different_size() {
    let mut disk = Disk::new(10 * 1024 * 1024);
    disk.insert(1, &[7u8; 4096]);
    disk.insert(1, &[9u8; 2048]);
    assert_eq!(disk.files["/cache/1.audio"].0, vec![9u8; 2048]);
    assert_eq!(disk.cache.stats().current_size_bytes, 2048);
}

#[test]
fn a_read_saves_a_track_from_eviction() {
    let mut disk = Disk::new(8192);
    disk.insert(1, &[0u8; 4096]);
    disk.insert(2, &[0u8; 4096]);
    assert!(disk.get(1).is_some());
    disk.insert(3, &[0u8; 4096]);
    assert!(disk.cache.contains(1));
    assert!(!disk.cache.contains(2), "the one that was not used is evicted");
}

#[test]
fn a_file_that_is_gone_leaves_the_index() {
    let mut disk = Disk::new(8192);
    disk.insert(1, &[0u8; 100]);
    disk.files.clear();
    assert!(disk.get(1).is_none());
    assert!(!disk.cache.contains(1));
    assert_eq!(disk.cache.stats().current_size_bytes, 0);
    // One that could not be read stays.
    disk.insert(2, &[0u8; 100]);
    assert!(disk.cache.get(2, CacheRead::Failed, 9).is_none());
    assert!(disk.cache.contains(2));
}

#[test]
fn a_track_larger_than_the_cache_is_left_alone() {
    let mut disk = Disk::new(100);
    disk.insert(1, &[0u8; 100]);
    disk.insert(2, &[0u8; 101]);
    assert!(disk.cache.contains(1) && !disk.cache.contains(2));
    assert_eq!(disk.cache.begin_write(3, 101), None);
    assert!(disk.cache.contains(1));
}

#[test]
fn a_streamed_track_is_published_by_its_rename() {
    let mut disk = Disk::new(100);
    disk.insert(1, &[0u8; 60]);
    let (part, evicted) = disk.cache.begin_write(2, 60).expect("it fits");
    assert_eq!(part, "/cache/2.part");
    assert_eq!(evicted, [1]);
    disk.remove(&evicted);
    assert_eq!(disk.cache.commit_write(2, 58, false, 7), None);
    assert!(!disk.cache.contains(2));
    assert_eq!(disk.cache.commit_write(2, 58, true, 7).as_deref(), Some("/cache/2.audio"));
    assert!(disk.cache.contains(2));
    assert_eq!(disk.cache.stats().current_size_bytes, 58);
    assert_eq!(disk.cache.path_if_present(2, true).as_deref(), Some("/cache/2.audio"));
    assert_eq!(disk.cache.path_if_present(2, false), None);
    assert_eq!(disk.cache.path_if_present(1, true), None);
}

fn file(name: &str, size: u64) -> ScannedFile {
    ScannedFile { name: Some(name.to_string()), is_file: true, size, accessed: 5 }
}

#[test]
fn a_scan_adopts_tracks_and_nothing_else() {
    let mut cache = PlaybackCache::with_path("dir/".to_string(), 1_000);
    let swept = cache.rebuild_state(&vec![
        file("17.audio", 10),
        file("x.audio", 20),
        file("18.flac", 30),
        ScannedFile { is_file: false, ..file("19.audio", 40) },
        ScannedFile { name: None, ..file("", 50) },
        file("20.part", 60),
        file("18446744073709551615.audio", 70),
        file("18446744073709551616.audio", 80),
        file(".part", 90),
    ]);
    assert_eq!(swept, [5, 8]);
    assert_eq!(cache.stats().cached_tracks, 2);
    assert_eq!(cache.stats().current_size_bytes, 80);
    assert_eq!(cache.stats().max_size_bytes, 1_000);
    assert!(cache.contains(17) && cache.contains(u64::MAX));
    assert_eq!(cache.track_path(17), "dir/17.audio");
    assert_eq!(cache.cache_dir(), "dir/");
    let mut cleared = cache.clear();
    cleared.sort();
    assert_eq!(cleared, [17, u64::MAX]);
    assert_eq!(cache.stats().current_size_bytes, 0);
    assert!(!cache.contains(17));
}
