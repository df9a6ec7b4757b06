//! Choice of the one disk whose usage the sample reports.
//!
//! The volume mounted at the filesystem root is reported whenever there is
//! one. Without it the volume of the largest capacity is reported, the
//! earliest of them where several share that capacity.

use vstd::prelude::*;

verus! {

/// A mounted volume as the host enumerates it.
#[derive(Debug, PartialEq, Eq)]
pub struct Volume {
    /// Where the volume is mounted.
    pub mount_point: String,
    /// Capacity in bytes.
    pub total: u64,
    /// Bytes still available.
    pub available: u64,
}

/// Used and total bytes of the reported disk; both are zero when the host has
/// no volume at all.
#[derive(Clone, Copy, Debug, PartialEq, Eq, Structural)]
pub struct DiskUsage {
    pub used: u64,
    pub total: u64,
}

/// A volume as contracts see it.
pub struct VolumeView {
    pub mount_point: Seq<char>,
    pub total: u64,
    pub available: u64,
}

impl View for Volume {
    type V = VolumeView;

    open spec fn view(&self) -> VolumeView {
        VolumeView {
            mount_point: self.mount_point@,
            total: self.total,
            available: self.available,
        }
    }
}

/// An enumeration of volumes as contracts see it.
pub open spec fn views(volumes: Seq<Volume>) -> Seq<VolumeView> {
    volumes.map_values(|volume: Volume| volume@)
}

impl Clone for Volume {
    fn clone(&self) -> (copy: Self)
        ensures
            copy == *self,
    {
        Volume {
            mount_point: self.mount_point.clone(),
            total: self.total,
            available: self.available,
        }
    }
}

impl VolumeView {
    /// The volume is mounted at the filesystem root, `/`.
    pub open spec fn is_root(&self) -> bool {
        self.mount_point =~= seq!['/']
    }

    /// Capacity less what is available, and zero where the host reports more
    /// available than the capacity.
    pub open spec fn used(&self) -> u64 {
        if self.available >= self.total {
            0
        } else {
            (self.total - self.available) as u64
        }
    }

    /// What the sample reports when this volume is the chosen one.
    pub open spec fn usage(&self) -> DiskUsage {
        DiskUsage { used: self.used(), total: self.total }
    }
}

impl Volume {
    /// Tells whether the volume is mounted at the filesystem root.
    pub fn mounted_at_root(&self) -> (root: bool)
        ensures
            root == self@.is_root(),
    {
        let text = self.mount_point.as_str();
        text.unicode_len() == 1 && text.get_char(0) == '/'
    }

    /// Used and total bytes of this volume.
    pub fn measure(&self) -> (usage: DiskUsage)
        ensures
            usage == self@.usage(),
            usage.used <= usage.total,
    {
        DiskUsage { used: self.total.saturating_sub(self.available), total: self.total }
    }
}

/// Some volume of `volumes` is mounted at the root.
pub open spec fn has_root(volumes: Seq<VolumeView>) -> bool {
    exists|i: int| 0 <= i < volumes.len() && #[trigger] volumes[i].is_root()
}

/// `i` is the earliest volume mounted at the root.
pub open spec fn is_first_root(volumes: Seq<VolumeView>, i: int) -> bool {
    &&& 0 <= i < volumes.len()
    &&& volumes[i].is_root()
    &&& forall|j: int| 0 <= j < i ==> !#[trigger] volumes[j].is_root()
}

/// `i` is the earliest volume of the largest capacity.
pub open spec fn is_first_largest(volumes: Seq<VolumeView>, i: int) -> bool {
    &&& 0 <= i < volumes.len()
    &&& forall|j: int| 0 <= j < volumes.len() ==> (#[trigger] volumes[j]).total <= volumes[i].total
    &&& forall|j: int| 0 <= j < i ==> (#[trigger] volumes[j]).total < volumes[i].total
}

/// `i` is the volume that the policy reports: the earliest root volume, or,
/// where none is mounted at the root, the earliest of the largest.
pub open spec fn is_selected(volumes: Seq<VolumeView>, i: int) -> bool {
    if has_root(volumes) {
        is_first_root(volumes, i)
    } else {
        is_first_largest(volumes, i)
    }
}

/// The index of the reported volume, and `None` for an empty enumeration.
pub open spec fn selection(volumes: Seq<VolumeView>) -> Option<int> {
    if volumes.len() == 0 {
        None
    } else {
        Some(choose|i: int| is_selected(volumes, i))
    }
}

/// The usage that the sample reports for an enumeration.
pub open spec fn selected_usage(volumes: Seq<VolumeView>) -> DiskUsage {
    match selection(volumes) {
        None => DiskUsage { used: 0, total: 0 },
        Some(i) => volumes[i].usage(),
    }
}

/// At most one index is selected.
pub proof fn lemma_selected_unique(volumes: Seq<VolumeView>, i: int, j: int)
    requires
        is_selected(volumes, i),
        is_selected(volumes, j),
    ensures
        i == j,
{
    if !has_root(volumes) {
        // Of two largest volumes the later is not the earliest.
        if i < j {
            assert(volumes[j].total <= volumes[i].total);
        } else if j < i {
            assert(volumes[i].total <= volumes[j].total);
        }
    }
}

/// Where a volume is mounted at the root, one of them is the earliest.
proof fn lemma_first_root_exists(volumes: Seq<VolumeView>, k: int)
    requires
        0 <= k < volumes.len(),
        volumes[k].is_root(),
    ensures
        exists|i: int| is_first_root(volumes, i),
    decreases k,
{
    if exists|j: int| 0 <= j < k && #[trigger] volumes[j].is_root() {
        let j = choose|j: int| 0 <= j < k && #[trigger] volumes[j].is_root();
        lemma_first_root_exists(volumes, j);
    } else {
        assert(is_first_root(volumes, k));
    }
}

/// Among the first `n` volumes, one is the earliest of the largest.
proof fn lemma_first_largest_among(volumes: Seq<VolumeView>, n: int) -> (b: int)
    requires
        0 < n <= volumes.len(),
    ensures
        is_first_largest(volumes.take(n), b),
    decreases n,
{
    if n == 1 {
        0
    } else {
        let b = lemma_first_largest_among(volumes, n - 1);
        assert(forall|j: int| 0 <= j < n - 1 ==> volumes.take(n - 1)[j] == volumes.take(n)[j]);
        if volumes[n - 1].total > volumes[b].total {
            n - 1
        } else {
            b
        }
    }
}

/// The selection of an enumeration is the one index that the policy selects:
/// every enumeration that is not empty has exactly one.
pub proof fn lemma_selection_is_selected(volumes: Seq<VolumeView>, i: int)
    ensures
        selection(volumes) == Some(i) <==> is_selected(volumes, i),
        is_selected(volumes, i) ==> 0 <= i < volumes.len(),
{
    if volumes.len() > 0 {
        if has_root(volumes) {
            let k = choose|k: int| 0 <= k < volumes.len() && #[trigger] volumes[k].is_root();
            lemma_first_root_exists(volumes, k);
            let w = choose|w: int| is_first_root(volumes, w);
            assert(is_selected(volumes, w));
        } else {
            let w = lemma_first_largest_among(volumes, volumes.len() as int);
            assert(volumes.take(volumes.len() as int) =~= volumes);
            assert(is_selected(volumes, w));
        }
        let c = choose|c: int| is_selected(volumes, c);
        if is_selected(volumes, i) {
            lemma_selected_unique(volumes, i, c);
        }
    }
}

/// A volume mounted at the root is reported wherever it stands in the
/// enumeration and whatever the capacities are: the selection is the earliest
/// such volume.
pub proof fn lemma_root_always_wins(volumes: Seq<VolumeView>, i: int)
    requires
        0 <= i < volumes.len(),
        volumes[i].is_root(),
    ensures
        selection(volumes) matches Some(k) && 0 <= k <= i && volumes[k].is_root(),
        (forall|j: int| 0 <= j < i ==> !#[trigger] volumes[j].is_root()) ==> selection(volumes)
            == Some(i),
{
    let k = choose|k: int| is_selected(volumes, k);
    lemma_selection_is_selected(volumes, k);
}

/// Where no volume is mounted at the root, the largest capacity wins, and
/// among volumes of that capacity the earliest.
pub proof fn lemma_largest_wins_without_root(volumes: Seq<VolumeView>, i: int)
    requires
        !has_root(volumes),
        0 <= i < volumes.len(),
    ensures
        selection(volumes) matches Some(k) && 0 <= k < volumes.len() && volumes[i].total
            <= volumes[k].total && (volumes[i].total == volumes[k].total ==> k <= i),
{
    let k = choose|k: int| is_selected(volumes, k);
    lemma_selection_is_selected(volumes, k);
}

/// The reported usage never shows more used than there is, and is all zeros
/// where there is no volume to choose.
pub proof fn lemma_selected_usage_bounded(volumes: Seq<VolumeView>)
    ensures
        selected_usage(volumes).used <= selected_usage(volumes).total,
        volumes.len() == 0 ==> selected_usage(volumes) == (DiskUsage { used: 0, total: 0 }),
{
}

/// Finds the volume to report.
pub fn select_index(volumes: &Vec<Volume>) -> (chosen: Option<usize>)
    ensures
        match chosen {
            None => selection(views(volumes@)) is None,
            Some(i) => i < volumes@.len() && selection(views(volumes@)) == Some(i as int),
        },
{
    let ghost all = views(volumes@);
    let mut best: Option<usize> = None;
    let mut i: usize = 0;
    while i < volumes.len()
        invariant
            all == views(volumes@),
            0 <= i <= volumes.len(),
            forall|j: int| 0 <= j < i ==> !#[trigger] all[j].is_root(),
            i == 0 <==> best is None,
            best matches Some(b) ==> {
                &&& b < i
                &&& forall|j: int| 0 <= j < i ==> (#[trigger] all[j]).total <= all[b as int].total
                &&& forall|j: int| 0 <= j < b ==> (#[trigger] all[j]).total < all[b as int].total
            },
        decreases volumes.len() - i,
    {
        if volumes[i].mounted_at_root() {
            proof {
                lemma_selection_is_selected(all, i as int);
            }
            return Some(i);
        }
        match best {
            None => {
                best = Some(i);
            },
            Some(b) => {
                if volumes[i].total > volumes[b].total {
                    best = Some(i);
                }
            },
        }
        i = i + 1;
    }
    proof {
        if let Some(b) = best {
            lemma_selection_is_selected(all, b as int);
        }
    }
    best
}

/// Used and total bytes of the one disk that stands for the host: the root
/// volume where there is one, else the largest; zeros where nothing is mounted.
pub fn select_disk(volumes: &Vec<Volume>) -> (usage: DiskUsage)
    ensures
        usage == selected_usage(views(volumes@)),
        usage.used <= usage.total,
{
    match select_index(volumes) {
        None => DiskUsage { used: 0, total: 0 },
        Some(i) => volumes[i].measure(),
    }
}

} // verus!
