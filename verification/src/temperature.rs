//! The one temperature that a sample reports: the peak over all sensors.
//!
//! A sensor that could not be read reports a value that is no number. Such
//! readings are left out; what remains is reduced to its maximum, so that one
//! cold sensor never hides a hot one.

use crate::binary32::Binary32;
use vstd::prelude::*;

verus! {

/// Some reading is a number.
pub open spec fn has_valid(readings: Seq<Binary32>) -> bool {
    exists|i: int| 0 <= i < readings.len() && #[trigger] readings[i].is_finite()
}

/// `i` is the earliest of the highest valid readings.
pub open spec fn is_peak(readings: Seq<Binary32>, i: int) -> bool {
    &&& 0 <= i < readings.len()
    &&& readings[i].is_finite()
    &&& forall|j: int|
        0 <= j < readings.len() && (#[trigger] readings[j]).is_finite() ==> readings[j].rank()
            <= readings[i].rank()
    &&& forall|j: int|
        0 <= j < i && (#[trigger] readings[j]).is_finite() ==> readings[j].rank()
            < readings[i].rank()
}

/// The index of the reported reading, and `None` where no reading is valid.
pub open spec fn peak_index(readings: Seq<Binary32>) -> Option<int> {
    if has_valid(readings) {
        Some(choose|i: int| is_peak(readings, i))
    } else {
        None
    }
}

/// The reported temperature: absent where no reading is valid.
pub open spec fn peak(readings: Seq<Binary32>) -> Option<Binary32> {
    match peak_index(readings) {
        None => None,
        Some(i) => Some(readings[i]),
    }
}

/// At most one index is the peak.
pub proof fn lemma_peak_unique(readings: Seq<Binary32>, i: int, j: int)
    requires
        is_peak(readings, i),
        is_peak(readings, j),
    ensures
        i == j,
{
}

/// Among the first `n` readings, one is the peak, unless none of them is
/// valid.
proof fn lemma_peak_among(readings: Seq<Binary32>, n: int) -> (found: Option<int>)
    requires
        0 <= n <= readings.len(),
    ensures
        match found {
            None => !has_valid(readings.take(n)),
            Some(b) => is_peak(readings.take(n), b),
        },
    decreases n,
{
    if n == 0 {
        None
    } else {
        let found = lemma_peak_among(readings, n - 1);
        assert(forall|j: int| 0 <= j < n - 1 ==> readings.take(n - 1)[j] == readings.take(n)[j]);
        if !readings[n - 1].is_finite() {
            found
        } else {
            match found {
                None => Some(n - 1),
                Some(b) => if readings[n - 1].rank() > readings[b].rank() {
                    Some(n - 1)
                } else {
                    Some(b)
                },
            }
        }
    }
}

/// The peak index of a list of readings is the one index that is the peak:
/// every list with a valid reading has exactly one.
pub proof fn lemma_peak_index_is_peak(readings: Seq<Binary32>, i: int)
    ensures
        peak_index(readings) == Some(i) <==> is_peak(readings, i),
        is_peak(readings, i) ==> has_valid(readings),
{
    if has_valid(readings) {
        lemma_peak_among(readings, readings.len() as int);
        assert(readings.take(readings.len() as int) =~= readings);
        let c = choose|c: int| is_peak(readings, c);
        if is_peak(readings, i) {
            lemma_peak_unique(readings, i, c);
        }
    }
}

/// Reduces the sensors' readings to the one that a sample reports: the highest
/// of those that are numbers, the earliest where two rank alike, and nothing
/// where none is a number.
pub fn peak_reading(readings: &Vec<Binary32>) -> (reported: Option<Binary32>)
    ensures
        reported == peak(readings@),
{
    let mut best: Option<usize> = None;
    let mut i: usize = 0;
    while i < readings.len()
        invariant
            0 <= i <= readings.len(),
            best is None ==> forall|j: int| 0 <= j < i ==> !(#[trigger] readings@[j]).is_finite(),
            best matches Some(b) ==> {
                &&& b < i
                &&& readings@[b as int].is_finite()
                &&& forall|j: int|
                    0 <= j < i && (#[trigger] readings@[j]).is_finite() ==> readings@[j].rank()
                        <= readings@[b as int].rank()
                &&& forall|j: int|
                    0 <= j < b && (#[trigger] readings@[j]).is_finite() ==> readings@[j].rank()
                        < readings@[b as int].rank()
            },
        decreases readings.len() - i,
    {
        let reading = readings[i];
        if reading.finite() {
            match best {
                None => {
                    best = Some(i);
                },
                Some(b) => {
                    if reading.outranks(readings[b]) {
                        best = Some(i);
                    }
                },
            }
        }
        i = i + 1;
    }
    match best {
        None => None,
        Some(b) => {
            proof {
                lemma_peak_index_is_peak(readings@, b as int);
            }
            Some(readings[b])
        },
    }
}

} // verus!
