//! The dynamic mixer: sums any number of converted streams sample-by-sample
//! into one stream, with soft clipping on the summed result.  An exhausted
//! input contributes silence from then on; the mixer never waits for an
//! input.

use crate::clamp_amp;
use crate::samples_bounded;
use crate::AMP_MAX;
use vstd::prelude::*;

verus! {

/// What a stream contributes at a frame index: its own sample while it
/// lasts, silence once it is exhausted.
pub open spec fn sample_at(s: Seq<i64>, i: int) -> int {
    if 0 <= i < s.len() {
        s[i] as int
    } else {
        0
    }
}

/// The sum of all streams' contributions at one frame index, counting the
/// streams from position `j` on.
pub open spec fn sum_at_from(streams: Seq<Seq<i64>>, j: int, i: int) -> int
    decreases streams.len() - j,
{
    if j < 0 || j >= streams.len() {
        0
    } else {
        sample_at(streams[j], i) + sum_at_from(streams, j + 1, i)
    }
}

/// The sum of all streams' contributions at one frame index.
pub open spec fn sum_at(streams: Seq<Seq<i64>>, i: int) -> int {
    sum_at_from(streams, 0, i)
}

/// The longest of the streams: the mixed output runs until every input is
/// exhausted.
pub open spec fn max_len(streams: Seq<Seq<i64>>) -> nat
    decreases streams.len(),
{
    if streams.len() == 0 {
        0
    } else {
        let rest = max_len(streams.skip(1));
        if streams[0].len() >= rest {
            streams[0].len()
        } else {
            rest
        }
    }
}

/// Mix two streams: each output frame is the clamped sum of the two inputs'
/// contributions at that index, and a fully exhausted input contributes zero
/// from its end on.  Summing amplitudes `x` and `y` at one frame index yields
/// exactly `clamp_amp(x + y)`.
pub fn mix_streams(a: &Vec<i64>, b: &Vec<i64>) -> (r: Vec<i64>)
    requires
        samples_bounded(a@),
        samples_bounded(b@),
    ensures
        r@.len() == (if a@.len() >= b@.len() {
            a@.len()
        } else {
            b@.len()
        }),
        forall|i: int|
            0 <= i < r@.len() ==> #[trigger] r@[i] == clamp_amp(
                sample_at(a@, i) + sample_at(b@, i),
            ),
        samples_bounded(r@),
{
    let n: usize = if a.len() >= b.len() {
        a.len()
    } else {
        b.len()
    };
    let mut out: Vec<i64> = Vec::new();
    let mut i: usize = 0;
    while i < n
        invariant
            samples_bounded(a@),
            samples_bounded(b@),
            i <= n,
            out@.len() == i,
            forall|j: int|
                0 <= j < i ==> #[trigger] out@[j] == clamp_amp(sample_at(a@, j) + sample_at(b@, j)),
            samples_bounded(out@),
        decreases n - i,
    {
        let x: i64 = if i < a.len() {
            a[i]
        } else {
            0
        };
        let y: i64 = if i < b.len() {
            b[i]
        } else {
            0
        };
        let s: i64 = x + y;
        let c: i64 = if s > AMP_MAX {
            AMP_MAX
        } else if s < -AMP_MAX {
            -AMP_MAX
        } else {
            s
        };
        out.push(c);
        i += 1;
    }
    out
}

/// Mix any number of streams: each output frame is the arithmetic sum of all
/// inputs' contributions at that index, clamped once on the summed result.
/// The output runs until the last input is exhausted, and an exhausted input
/// contributes silence for the rest.
pub fn mix_all(streams: &Vec<Vec<i64>>) -> (r: Vec<i64>)
    requires
        forall|k: int| 0 <= k < streams@.len() ==> samples_bounded((#[trigger] streams@[k])@),
    ensures
        r@.len() == max_len(streams@.map_values(|v: Vec<i64>| v@)),
        forall|i: int|
            0 <= i < r@.len() ==> #[trigger] r@[i] == clamp_amp(
                sum_at(streams@.map_values(|v: Vec<i64>| v@), i),
            ),
        samples_bounded(r@),
{
    let ghost views: Seq<Seq<i64>> = streams@.map_values(|v: Vec<i64>| v@);
    let mut n: usize = 0;
    let mut k: usize = 0;
    while k < streams.len()
        invariant
            views == streams@.map_values(|v: Vec<i64>| v@),
            k <= streams@.len(),
            n == max_len(views.take(k as int)),
        decreases streams@.len() - k,
    {
        proof {
            assert(views.len() == streams@.len());
            assert(views[k as int] == streams@[k as int]@);
            lemma_max_len_take(views, k as int);
        }
        if streams[k].len() > n {
            n = streams[k].len();
        }
        k += 1;
    }
    proof {
        assert(views.take(views.len() as int) =~= views);
    }
    let mut out: Vec<i64> = Vec::new();
    let mut i: usize = 0;
    while i < n
        invariant
            forall|k: int| 0 <= k < streams@.len() ==> samples_bounded((#[trigger] streams@[k])@),
            views == streams@.map_values(|v: Vec<i64>| v@),
            i <= n,
            out@.len() == i,
            forall|j: int| 0 <= j < i ==> #[trigger] out@[j] == clamp_amp(sum_at(views, j)),
            samples_bounded(out@),
        decreases n - i,
    {
        let mut acc: i128 = 0;
        let mut k: usize = 0;
        while k < streams.len()
            invariant
                forall|k2: int|
                    0 <= k2 < streams@.len() ==> samples_bounded((#[trigger] streams@[k2])@),
                views == streams@.map_values(|v: Vec<i64>| v@),
                k <= streams@.len(),
                acc == sum_at(views, i as int) - sum_at_from(views, k as int, i as int),
                -((k as int) * AMP_MAX as int) <= acc <= (k as int) * AMP_MAX as int,
            decreases streams@.len() - k,
        {
            let row: &Vec<i64> = &streams[k];
            let x: i64 = if i < row.len() {
                row[i]
            } else {
                0
            };
            proof {
                assert(sum_at_from(views, k as int, i as int) == sample_at(views[k as int], i as int)
                    + sum_at_from(views, k as int + 1, i as int));
                assert(sample_at(views[k as int], i as int) == x as int);
                assert((k as int + 1) * AMP_MAX as int == (k as int) * AMP_MAX as int
                    + AMP_MAX as int) by (nonlinear_arith);
            }
            acc = acc + (x as i128);
            k += 1;
        }
        let s: i128 = acc;
        let c: i64 = if s > AMP_MAX as i128 {
            AMP_MAX
        } else if s < -(AMP_MAX as i128) {
            -AMP_MAX
        } else {
            s as i64
        };
        proof {
            assert(c as int == clamp_amp(sum_at(views, i as int)));
        }
        out.push(c);
        i += 1;
    }
    out
}

proof fn lemma_max_len_take(views: Seq<Seq<i64>>, k: int)
    requires
        0 <= k < views.len(),
    ensures
        max_len(views.take(k + 1)) == (if views[k].len() >= max_len(views.take(k)) {
            views[k].len()
        } else {
            max_len(views.take(k))
        }),
    decreases k,
{
    if k == 0 {
        assert(views.take(1).skip(1) =~= Seq::<Seq<i64>>::empty());
        assert(views.take(0) =~= Seq::<Seq<i64>>::empty());
        assert(max_len(views.take(1)) == (if views.take(1)[0].len() >= max_len(
            views.take(1).skip(1),
        ) {
            views.take(1)[0].len()
        } else {
            max_len(views.take(1).skip(1))
        }));
    } else {
        assert(views.take(k + 1).skip(1) =~= views.skip(1).take(k));
        assert(views.take(k).skip(1) =~= views.skip(1).take(k - 1));
        lemma_max_len_take(views.skip(1), k - 1);
        assert(views.skip(1)[k - 1] == views[k]);
    }
}

} // verus!
