//! Per-channel delays, in samples, from the distances of a sound source to
//! each microphone.
use vstd::prelude::*;
use vstd::assert_seqs_equal;

use crate::Error;

verus! {

/// The smallest of `s`; 0 for an empty sequence.
pub open spec fn min_of(s: Seq<u64>) -> u64
    decreases s.len(),
{
    if s.len() == 0 {
        0
    } else if s.len() == 1 {
        s[0]
    } else {
        let m = min_of(s.drop_last());
        if s.last() < m {
            s.last()
        } else {
            m
        }
    }
}

/// `extra * rate / speed` rounded to the nearest integer, halves upward.
pub open spec fn rounded_delay(extra: int, rate: int, speed: int) -> int {
    (2 * (extra * rate) + speed) / (2 * speed)
}

/// The delay of the microphone at distance `d`, where the nearest is at
/// `nearest`, saturated at `u64::MAX`.
pub open spec fn delay_for(d: u64, nearest: u64, rate: u32, speed: u64) -> u64 {
    let v = rounded_delay(d - nearest, rate as int, speed as int);
    if v > u64::MAX {
        u64::MAX
    } else {
        v as u64
    }
}

/// The delays of all microphones at `distances`.
pub open spec fn delays_spec(distances: Seq<u64>, rate: u32, speed: u64) -> Seq<u64> {
    Seq::new(distances.len(), |c: int| delay_for(distances[c], min_of(distances), rate, speed))
}

proof fn lemma_min_of(s: Seq<u64>)
    requires
        s.len() > 0,
    ensures
        forall|i: int| 0 <= i < s.len() ==> min_of(s) <= #[trigger] s[i],
        exists|i: int| 0 <= i < s.len() && min_of(s) == #[trigger] s[i],
    decreases s.len(),
{
    if s.len() > 1 {
        lemma_min_of(s.drop_last());
        let m = min_of(s.drop_last());
        let j = choose|j: int| 0 <= j < s.len() - 1 && m == #[trigger] s.drop_last()[j];
        assert(s[j] == s.drop_last()[j]);
        assert forall|i: int| 0 <= i < s.len() implies min_of(s) <= #[trigger] s[i] by {
            if i < s.len() - 1 {
                assert(s[i] == s.drop_last()[i]);
            }
        }
    } else {
        assert(min_of(s) == s[0]);
    }
}

/// The smallest distance; 0 where there is none.
pub fn min_distance(distances: &[u64]) -> (r: u64)
    ensures
        r == min_of(distances@),
{
    let n = distances.len();
    if n == 0 {
        return 0;
    }
    let mut m: u64 = distances[0];
    let mut i: usize = 1;
    while i < n
        invariant
            n == distances@.len(),
            1 <= i <= n,
            m == min_of(distances@.subrange(0, i as int)),
        decreases n - i,
    {
        proof {
            let t = distances@.subrange(0, i + 1);
            assert(t.drop_last() =~= distances@.subrange(0, i as int));
            assert(t.last() == distances@[i as int]);
        }
        if distances[i] < m {
            m = distances[i];
        }
        i = i + 1;
    }
    assert(distances@.subrange(0, n as int) =~= distances@);
    m
}

/// The delay, in samples, of a microphone `extra` length units further from
/// the source than the nearest one, where sound travels `sound_speed` units
/// per second and `sample_rate` samples are taken per second.
pub fn delay_samples(extra: u64, sample_rate: u32, sound_speed: u64) -> (r: u64)
    requires
        sound_speed > 0,
    ensures
        r == delay_for(extra, 0, sample_rate, sound_speed),
{
    assert(extra as int * sample_rate as int <= u64::MAX as int * u32::MAX as int)
        by (nonlinear_arith);
    let p: u128 = extra as u128 * sample_rate as u128;
    let v: u128 = (2 * p + sound_speed as u128) / (2 * sound_speed as u128);
    if v > u64::MAX as u128 {
        u64::MAX
    } else {
        v as u64
    }
}

/// The delay of each microphone, in samples: where the source is
/// `distances[c]` length units from microphone `c`, the nearest microphone
/// gets none and each other one the time sound takes to cover its extra
/// distance, rounded to the nearest sample. Speed is in length units per
/// second; a speed of zero is refused.
pub fn delays_from_distances(distances: &[u64], sample_rate: u32, sound_speed: u64) -> (r: Result<
    Vec<u64>,
    Error,
>)
    ensures
        sound_speed == 0 ==> r == Err::<Vec<u64>, Error>(Error::InvalidInput),
        sound_speed > 0 ==> (r matches Ok(d) && d@ == delays_spec(distances@, sample_rate, sound_speed)),
{
    if sound_speed == 0 {
        return Err(Error::InvalidInput);
    }
    let nearest = min_distance(distances);
    let n = distances.len();
    if n > 0 {
        proof {
            lemma_min_of(distances@);
        }
    }
    let mut r: Vec<u64> = Vec::with_capacity(n);
    let mut i: usize = 0;
    while i < n
        invariant
            n == distances@.len(),
            sound_speed > 0,
            nearest == min_of(distances@),
            n > 0 ==> forall|k: int| 0 <= k < n ==> nearest <= #[trigger] distances@[k],
            i <= n,
            r@.len() == i,
            forall|k: int|
                0 <= k < i ==> r@[k] == delays_spec(distances@, sample_rate, sound_speed)[k],
        decreases n - i,
    {
        let d = delay_samples(distances[i] - nearest, sample_rate, sound_speed);
        r.push(d);
        i = i + 1;
    }
    proof {
        assert_seqs_equal!(r@, delays_spec(distances@, sample_rate, sound_speed));
    }
    Ok(r)
}

} // verus!

verus! {

/// The nearest microphone gets no delay, and a microphone never gets a
/// shorter delay than one nearer to the source.
pub proof fn lemma_delays_monotone(distances: Seq<u64>, rate: u32, speed: u64)
    requires
        speed > 0,
    ensures
        forall|i: int|
            0 <= i < distances.len() && distances[i] == min_of(distances) ==> #[trigger] delays_spec(
                distances,
                rate,
                speed,
            )[i] == 0,
        forall|i: int, j: int|
            0 <= i < distances.len() && 0 <= j < distances.len() && distances[i] <= distances[j]
                ==> #[trigger] delays_spec(distances, rate, speed)[i] <= #[trigger] delays_spec(
                distances,
                rate,
                speed,
            )[j],
{
    if distances.len() > 0 {
        lemma_min_of(distances);
    }
    let m = min_of(distances);
    assert forall|i: int|
        0 <= i < distances.len() && distances[i] == m implies #[trigger] delays_spec(
        distances,
        rate,
        speed,
    )[i] == 0 by {
        let s = speed as int;
        assert(rounded_delay(0, rate as int, s) == s / (2 * s));
        assert(s / (2 * s) == 0) by (nonlinear_arith)
            requires
                s > 0,
        ;
    }
    assert forall|i: int, j: int|
        0 <= i < distances.len() && 0 <= j < distances.len() && distances[i] <= distances[j]
            implies #[trigger] delays_spec(distances, rate, speed)[i]
        <= #[trigger] delays_spec(distances, rate, speed)[j] by {
        let a = distances[i] - m;
        let b = distances[j] - m;
        let r = rate as int;
        let s = speed as int;
        assert(2 * (a * r) + s <= 2 * (b * r) + s) by (nonlinear_arith)
            requires
                0 <= a <= b,
                r >= 0,
        ;
        vstd::arithmetic::div_mod::lemma_div_is_ordered(2 * (a * r) + s, 2 * (b * r) + s, 2 * s);
    }
}

/// Where the source is as far from every microphone, no microphone gets a
/// delay.
pub proof fn lemma_equal_distances_no_delay(distances: Seq<u64>, rate: u32, speed: u64)
    requires
        speed > 0,
        forall|i: int, j: int|
            0 <= i < distances.len() && 0 <= j < distances.len() ==> distances[i]
                == distances[j],
    ensures
        forall|i: int| 0 <= i < distances.len() ==> #[trigger] delays_spec(distances, rate, speed)[i] == 0,
{
    lemma_delays_monotone(distances, rate, speed);
    if distances.len() > 0 {
        lemma_min_of(distances);
        let k = choose|k: int| 0 <= k < distances.len() && min_of(distances) == #[trigger] distances[k];
        assert forall|i: int| 0 <= i < distances.len() implies #[trigger] delays_spec(
            distances,
            rate,
            speed,
        )[i] == 0 by {
            assert(distances[i] == distances[k]);
        }
    }
}

} // verus!
