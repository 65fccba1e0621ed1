//! The cloud queue: its version, its items and its snapshot.

use vstd::prelude::*;

verus! {

/// Version of the cloud queue, bumped on every accepted mutation.
#[derive(Debug, Clone, Copy, PartialEq, Eq, Structural)]
pub struct QueueVersion {
    pub major: u64,
    pub minor: u64,
}

impl QueueVersion {
    pub fn new(major: u64, minor: u64) -> (r: Self)
        ensures
            r.major == major,
            r.minor == minor,
    {
        Self { major, minor }
    }

    /// The version after one more minor bump; the last one stays where it is.
    pub fn next_minor(self) -> (r: Self)
        ensures
            r.major == self.major,
            self.minor < u64::MAX ==> r.minor == self.minor + 1,
            self.minor == u64::MAX ==> r.minor == u64::MAX,
    {
        Self { major: self.major, minor: self.minor.saturating_add(1) }
    }
}

impl Default for QueueVersion {
    fn default() -> (r: Self)
        ensures
            r.major == 0,
            r.minor == 0,
    {
        Self { major: 0, minor: 0 }
    }
}

/// One entry of the cloud queue.
#[derive(Debug, Clone, PartialEq, Eq)]
pub struct QueueItem {
    pub track_context_uuid: String,
    pub track_id: u64,
    pub queue_item_id: u64,
}

/// What a [`QueueItem`] holds.
pub ghost struct QueueItemView {
    pub track_context_uuid: Seq<char>,
    pub track_id: u64,
    pub queue_item_id: u64,
}

impl View for QueueItem {
    type V = QueueItemView;

    open spec fn view(&self) -> QueueItemView {
        QueueItemView {
            track_context_uuid: self.track_context_uuid@,
            track_id: self.track_id,
            queue_item_id: self.queue_item_id,
        }
    }
}

/// What a list of queue items holds.
pub open spec fn items_view(items: Seq<QueueItem>) -> Seq<QueueItemView> {
    items.map_values(|item: QueueItem| item@)
}

impl QueueItem {
    /// Whether two items hold the same values.
    pub fn same(&self, other: &QueueItem) -> (r: bool)
        ensures
            r == (self@ == other@),
    {
        self.track_id == other.track_id && self.queue_item_id == other.queue_item_id
            && self.track_context_uuid == other.track_context_uuid
    }

    /// A copy holding the same values.
    pub fn copy(&self) -> (r: QueueItem)
        ensures
            r@ == self@,
    {
        QueueItem {
            track_context_uuid: self.track_context_uuid.clone(),
            track_id: self.track_id,
            queue_item_id: self.queue_item_id,
        }
    }
}

/// Snapshot of the cloud queue.
#[derive(Debug, Clone, PartialEq, Eq)]
pub struct QConnectQueueState {
    pub version: QueueVersion,
    pub queue_items: Vec<QueueItem>,
    pub shuffle_mode: bool,
    pub shuffle_order: Option<Vec<usize>>,
    pub autoplay_mode: bool,
    pub autoplay_loading: bool,
    pub autoplay_items: Vec<QueueItem>,
    pub updated_at_ms: u64,
    /// Last queue hash the server reported with a queue-state confirmation.
    pub last_server_queue_hash: Option<Vec<u8>>,
    /// Index the controller selected inside the queue it just pushed. A
    /// selection never outlives the push that carried it.
    pub selected_queue_position: Option<u64>,
}

/// What a [`QConnectQueueState`] holds.
pub ghost struct QueueStateView {
    pub version: QueueVersion,
    pub queue_items: Seq<QueueItemView>,
    pub shuffle_mode: bool,
    pub shuffle_order: Option<Seq<usize>>,
    pub autoplay_mode: bool,
    pub autoplay_loading: bool,
    pub autoplay_items: Seq<QueueItemView>,
    pub updated_at_ms: u64,
    pub last_server_queue_hash: Option<Seq<u8>>,
    pub selected_queue_position: Option<u64>,
}

/// The view of an optional vector.
pub open spec fn opt_seq<T>(v: Option<Vec<T>>) -> Option<Seq<T>> {
    match v {
        Some(x) => Some(x@),
        None => None,
    }
}

impl View for QConnectQueueState {
    type V = QueueStateView;

    open spec fn view(&self) -> QueueStateView {
        QueueStateView {
            version: self.version,
            queue_items: items_view(self.queue_items@),
            shuffle_mode: self.shuffle_mode,
            shuffle_order: opt_seq(self.shuffle_order),
            autoplay_mode: self.autoplay_mode,
            autoplay_loading: self.autoplay_loading,
            autoplay_items: items_view(self.autoplay_items@),
            updated_at_ms: self.updated_at_ms,
            last_server_queue_hash: opt_seq(self.last_server_queue_hash),
            selected_queue_position: self.selected_queue_position,
        }
    }
}

/// Whether two item lists hold the same values in the same order.
pub fn same_items(a: &Vec<QueueItem>, b: &Vec<QueueItem>) -> (r: bool)
    ensures
        r == (items_view(a@) == items_view(b@)),
{
    if a.len() != b.len() {
        assert(items_view(a@).len() != items_view(b@).len());
        return false;
    }
    let n: usize = a.len();
    let mut i: usize = 0;
    while i < n
        invariant
            n == a@.len(),
            n == b@.len(),
            i <= n,
            forall|k: int| 0 <= k < i ==> (#[trigger] a@[k])@ == b@[k]@,
        decreases n - i,
    {
        if !a[i].same(&b[i]) {
            assert(items_view(a@)[i as int] != items_view(b@)[i as int]);
            return false;
        }
        i = i + 1;
    }
    assert(items_view(a@) =~= items_view(b@));
    true
}

/// Whether two index lists are the same.
pub fn same_indices(x: &Vec<usize>, y: &Vec<usize>) -> (r: bool)
    ensures
        r == (x@ == y@),
{
    if x.len() != y.len() {
        return false;
    }
    let n: usize = x.len();
    let mut i: usize = 0;
    while i < n
        invariant
            n == x@.len(),
            n == y@.len(),
            i <= n,
            forall|k: int| 0 <= k < i ==> x@[k] == y@[k],
        decreases n - i,
    {
        if x[i] != y[i] {
            assert(x@[i as int] != y@[i as int]);
            return false;
        }
        i = i + 1;
    }
    assert(x@ =~= y@);
    true
}

/// Whether two optional index lists are the same.
pub fn same_order(a: &Option<Vec<usize>>, b: &Option<Vec<usize>>) -> (r: bool)
    ensures
        r == (opt_seq(*a) == opt_seq(*b)),
{
    match (a, b) {
        (None, None) => true,
        (Some(x), Some(y)) => same_indices(x, y),
        _ => false,
    }
}

/// A copy of an item list.
pub fn copy_items(items: &Vec<QueueItem>) -> (r: Vec<QueueItem>)
    ensures
        items_view(r@) == items_view(items@),
{
    let mut out: Vec<QueueItem> = Vec::new();
    let mut i: usize = 0;
    while i < items.len()
        invariant
            i <= items@.len(),
            out@.len() == i,
            forall|k: int| 0 <= k < i ==> (#[trigger] out@[k])@ == items@[k]@,
        decreases items@.len() - i,
    {
        out.push(items[i].copy());
        i = i + 1;
    }
    assert(items_view(out@) =~= items_view(items@));
    out
}

/// A copy of a vector of plain values.
pub fn copy_vec<T: Copy>(v: &Vec<T>) -> (r: Vec<T>)
    ensures
        r@ == v@,
{
    let mut out: Vec<T> = Vec::new();
    let mut i: usize = 0;
    while i < v.len()
        invariant
            i <= v@.len(),
            out@ == v@.subrange(0, i as int),
        decreases v@.len() - i,
    {
        out.push(v[i]);
        i = i + 1;
        assert(out@ =~= v@.subrange(0, i as int));
    }
    assert(out@ =~= v@);
    out
}

/// A copy of an optional vector of plain values.
pub fn copy_opt_vec<T: Copy>(v: &Option<Vec<T>>) -> (r: Option<Vec<T>>)
    ensures
        opt_seq(r) == opt_seq(*v),
{
    match v {
        Some(x) => Some(copy_vec(x)),
        None => None,
    }
}

impl QConnectQueueState {
    /// A copy holding the same values.
    pub fn copy(&self) -> (r: QConnectQueueState)
        ensures
            r@ == self@,
    {
        QConnectQueueState {
            version: self.version,
            queue_items: copy_items(&self.queue_items),
            shuffle_mode: self.shuffle_mode,
            shuffle_order: copy_opt_vec(&self.shuffle_order),
            autoplay_mode: self.autoplay_mode,
            autoplay_loading: self.autoplay_loading,
            autoplay_items: copy_items(&self.autoplay_items),
            updated_at_ms: self.updated_at_ms,
            last_server_queue_hash: copy_opt_vec(&self.last_server_queue_hash),
            selected_queue_position: self.selected_queue_position,
        }
    }
}

impl Default for QConnectQueueState {
    fn default() -> (r: Self)
        ensures
            r.version.major == 0,
            r.version.minor == 0,
            r@.queue_items.len() == 0,
            !r.shuffle_mode,
            r.shuffle_order is None,
            !r.autoplay_mode,
            !r.autoplay_loading,
            r@.autoplay_items.len() == 0,
            r.updated_at_ms == 0,
            r.last_server_queue_hash is None,
            r.selected_queue_position is None,
    {
        Self {
            version: QueueVersion::new(0, 0),
            queue_items: Vec::new(),
            shuffle_mode: false,
            shuffle_order: None,
            autoplay_mode: false,
            autoplay_loading: false,
            autoplay_items: Vec::new(),
            updated_at_ms: 0,
            last_server_queue_hash: None,
            selected_queue_position: None,
        }
    }
}

/// A confirmed mutation of the cloud queue.
#[allow(inconsistent_fields)]
#[derive(Debug, Clone, PartialEq, Eq)]
pub enum QueueEvent {
    QueueStateReplaced { action_uuid: Option<String>, state: QConnectQueueState },
    TracksAdded {
        action_uuid: Option<String>,
        version: QueueVersion,
        tracks: Vec<QueueItem>,
        shuffle_seed: Option<u64>,
        autoplay_reset: bool,
        autoplay_loading: bool,
    },
    TracksLoaded {
        action_uuid: Option<String>,
        version: QueueVersion,
        tracks: Vec<QueueItem>,
        queue_position: Option<u64>,
        shuffle_mode: Option<bool>,
        shuffle_seed: Option<u64>,
        shuffle_pivot_queue_item_id: Option<u64>,
        autoplay_reset: bool,
        autoplay_loading: bool,
    },
    TracksInserted {
        action_uuid: Option<String>,
        version: QueueVersion,
        tracks: Vec<QueueItem>,
        insert_after: Option<u64>,
        shuffle_seed: Option<u64>,
        autoplay_reset: bool,
        autoplay_loading: bool,
    },
    TracksRemoved {
        action_uuid: Option<String>,
        version: QueueVersion,
        queue_item_ids: Vec<u64>,
        autoplay_reset: bool,
        autoplay_loading: bool,
    },
    TracksReordered {
        action_uuid: Option<String>,
        version: QueueVersion,
        queue_item_ids: Vec<u64>,
        insert_after: Option<u64>,
        autoplay_reset: bool,
        autoplay_loading: bool,
    },
    QueueCleared { action_uuid: Option<String>, version: QueueVersion },
    ShuffleModeSet {
        action_uuid: Option<String>,
        version: QueueVersion,
        shuffle_mode: bool,
        shuffle_seed: Option<u64>,
        shuffle_pivot_queue_item_id: Option<u64>,
        autoplay_reset: bool,
        autoplay_loading: bool,
    },
    AutoplayModeSet {
        action_uuid: Option<String>,
        version: QueueVersion,
        autoplay_mode: bool,
        autoplay_reset: bool,
        autoplay_loading: bool,
    },
    AutoplayTracksLoaded {
        action_uuid: Option<String>,
        version: QueueVersion,
        tracks: Vec<QueueItem>,
    },
    AutoplayTracksRemoved {
        action_uuid: Option<String>,
        version: QueueVersion,
        queue_item_ids: Vec<u64>,
    },
    QueueError {
        action_uuid: Option<String>,
        version: Option<QueueVersion>,
        code: String,
        message: String,
    },
}

} // verus!
