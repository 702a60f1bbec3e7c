//! PCM mixer: combines the decoded sample buffers of all speakers of
//! one tick into a single buffer of 16-bit signed samples.

use vstd::prelude::*;

verus! {

/// A mathematical sample value clamped (saturated) to the signed
/// 16-bit range; overflowing sums saturate instead of wrapping.
pub open spec fn clamp16(v: int) -> int {
    if v < -32768 {
        -32768
    } else if v > 32767 {
        32767
    } else {
        v
    }
}

/// What a buffer contributes at output index `i`: its own sample while
/// `i` is inside the buffer, zero past its end (short buffers count as
/// zero-padded).
pub open spec fn sample_at(b: Seq<i16>, i: int) -> int {
    if 0 <= i < b.len() {
        b[i] as int
    } else {
        0
    }
}

/// The unsaturated sum of the samples all buffers contribute at output
/// index `i`.
pub open spec fn sum_at(bufs: Seq<Seq<i16>>, i: int) -> int
    decreases bufs.len(),
{
    if bufs.len() == 0 {
        0
    } else {
        sum_at(bufs.drop_last(), i) + sample_at(bufs.last(), i)
    }
}

/// The mixer's output length: the first buffer's length (shorter
/// buffers are zero-padded up to it, longer ones truncated to it), and
/// zero when no buffer was handed in.
pub open spec fn mix_len(bufs: Seq<Seq<i16>>) -> int {
    if bufs.len() == 0 {
        0
    } else {
        bufs[0].len() as int
    }
}

/// The fully mixed output: one saturated sum per output index.
pub open spec fn mixed(bufs: Seq<Seq<i16>>) -> Seq<int> {
    Seq::new(mix_len(bufs) as nat, |i: int| clamp16(sum_at(bufs, i)))
}

/// The fully mixed output as 16-bit samples.
pub open spec fn mixed_i16(bufs: Seq<Seq<i16>>) -> Seq<i16> {
    Seq::new(mix_len(bufs) as nat, |i: int| clamp16(sum_at(bufs, i)) as i16)
}

proof fn lemma_sum_at_take_step(bufs: Seq<Seq<i16>>, j: int, i: int)
    requires
        0 <= j < bufs.len(),
    ensures
        sum_at(bufs.take(j + 1), i) == sum_at(bufs.take(j), i) + sample_at(bufs[j], i),
{
    assert(bufs.take(j + 1).drop_last() =~= bufs.take(j));
    assert(bufs.take(j + 1).last() == bufs[j]);
}

proof fn lemma_sum_at_bound(bufs: Seq<Seq<i16>>, i: int)
    ensures
        -bufs.len() * 32768 <= sum_at(bufs, i) <= bufs.len() * 32767,
    decreases bufs.len(),
{
    if bufs.len() > 0 {
        lemma_sum_at_bound(bufs.drop_last(), i);
        assert(-(bufs.len() - 1) * 32768 - 32768 == -bufs.len() * 32768) by (nonlinear_arith);
        assert((bufs.len() - 1) * 32767 + 32767 == bufs.len() * 32767) by (nonlinear_arith);
    }
}

/// Mix the buffers of one tick: the output holds, at each index below
/// the first buffer's length, the sum of all buffers' samples there,
/// saturated to the 16-bit signed range.
pub fn mix(data: &Vec<Vec<i16>>) -> (out: Vec<i16>)
    ensures
        out@.len() == mix_len(data.deep_view()),
        forall|i: int| 0 <= i < out@.len() ==> out@[i] as int == clamp16(
            sum_at(data.deep_view(), i),
        ),
        out@.map_values(|s: i16| s as int) == mixed(data.deep_view()),
        out@ == mixed_i16(data.deep_view()),
{
    let ghost bufs = data.deep_view();
    let n: usize = if data.len() == 0 {
        0
    } else {
        data[0].len()
    };
    assert(n == mix_len(bufs));
    let mut out: Vec<i16> = Vec::new();
    let mut i: usize = 0;
    while i < n
        invariant
            0 <= i <= n,
            n == mix_len(bufs),
            bufs == data.deep_view(),
            out@.len() == i,
            forall|k: int| 0 <= k < i ==> out@[k] as int == clamp16(sum_at(bufs, k)),
        decreases n - i,
    {
        let mut acc: i128 = 0;
        let mut j: usize = 0;
        while j < data.len()
            invariant
                0 <= j <= data.len(),
                bufs == data.deep_view(),
                acc == sum_at(bufs.take(j as int), i as int),
                -(j as int) * 32768 <= acc <= (j as int) * 32767,
            decreases data.len() - j,
        {
            let b: &Vec<i16> = &data[j];
            let s: i16 = if i < b.len() {
                b[i]
            } else {
                0i16
            };
            assert(s as int == sample_at(bufs[j as int], i as int));
            proof {
                lemma_sum_at_take_step(bufs, j as int, i as int);
                assert(-(j as int) * 32768 - 32768 == -(j + 1) * 32768) by (nonlinear_arith);
                assert((j as int) * 32767 + 32767 == (j + 1) * 32767) by (nonlinear_arith);
            }
            acc = acc + s as i128;
            j = j + 1;
        }
        assert(bufs.take(data@.len() as int) =~= bufs);
        let clamped: i16 = if acc < -32768 {
            -32768i16
        } else if acc > 32767 {
            32767i16
        } else {
            acc as i16
        };
        assert(clamped as int == clamp16(sum_at(bufs, i as int)));
        out.push(clamped);
        i = i + 1;
    }
    proof {
        assert(out@.map_values(|s: i16| s as int) =~= mixed(bufs));
        assert(out@ =~= mixed_i16(bufs));
    }
    out
}

proof fn lemma_sum_at_uniform(bufs: Seq<Seq<i16>>, s: i16, n: nat, i: int)
    requires
        forall|j: int| 0 <= j < bufs.len() ==> (#[trigger] bufs[j]).len() == n,
        forall|j: int, k: int| 0 <= j < bufs.len() && 0 <= k < n ==> #[trigger] bufs[j][k] == s,
        0 <= i < n,
    ensures
        sum_at(bufs, i) == bufs.len() * s,
    decreases bufs.len(),
{
    if bufs.len() == 0 {
        assert(0 * s == 0) by (nonlinear_arith);
    } else {
        lemma_sum_at_uniform(bufs.drop_last(), s, n, i);
        assert(bufs.last() == bufs[bufs.len() - 1]);
        assert(sample_at(bufs.last(), i) == s as int);
        assert((bufs.len() - 1) * s + s == bufs.len() * s) by (nonlinear_arith);
    }
}

/// Law: mixing any number of equal-length buffers whose every sample is
/// `s` yields, at every index, the sum of all those samples saturated
/// to the 16-bit signed range.
pub proof fn lemma_mix_uniform_buffers(bufs: Seq<Seq<i16>>, s: i16, n: nat, i: int)
    requires
        bufs.len() > 0,
        forall|j: int| 0 <= j < bufs.len() ==> (#[trigger] bufs[j]).len() == n,
        forall|j: int, k: int| 0 <= j < bufs.len() && 0 <= k < n ==> #[trigger] bufs[j][k] == s,
        0 <= i < n,
    ensures
        mix_len(bufs) == n,
        mixed(bufs)[i] == clamp16(bufs.len() * s),
        mixed_i16(bufs)[i] == clamp16(bufs.len() * s) as i16,
{
    lemma_sum_at_uniform(bufs, s, n, i);
}

} // verus!
