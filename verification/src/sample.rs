//! A random walk of candles for demonstrations.
//!
//! Each candle opens where the one before it closed, the first at 100.00. Its
//! high lies less than 5.00 above the open, its low less than 5.00 below, its
//! close between the two, each by a random fraction. Candles are an hour
//! apart.

use vstd::prelude::*;
use crate::candle::Candle;

verus! {

/// The open of the first candle: 100.00.
pub const FIRST_OPEN: i64 = 10_000;

/// The bound on the rise of the high and the fall of the low: 5.00.
pub const SWING: u64 = 500;

/// The bound on the volume: 1000.00.
pub const VOLUME_SPAN: u64 = 100_000;

/// The seconds between one candle and the next.
pub const HOUR: i64 = 3_600;

/// The random numbers behind one candle. Each stands for the fraction
/// `n / 2^32` of one.
#[derive(Clone, Copy, Debug, PartialEq, Eq, Structural)]
pub struct Draws {
    pub rise: u32,
    pub fall: u32,
    pub close: u32,
    pub volume: u32,
}

/// The fraction `draw / 2^32` of `span`, rounded down.
pub open spec fn portion(draw: u32, span: int) -> int {
    (draw * span) / 0x1_0000_0000
}

/// The candle that opens at `open` at the time `time` and moves as `d` says.
pub open spec fn sampled(open: i64, time: i64, d: Draws) -> Candle {
    let high = open + portion(d.rise, SWING as int);
    let low = open - portion(d.fall, SWING as int);
    Candle {
        open,
        low: low as i64,
        high: high as i64,
        close: (low + portion(d.close, high - low)) as i64,
        volume: Some(portion(d.volume, VOLUME_SPAN as int) as u64),
        time,
    }
}

/// The walk that starts at the time `start` and takes one candle for each
/// element of `draws`.
pub open spec fn walk(start: i64, draws: Seq<Draws>) -> Seq<Candle>
    decreases draws.len(),
{
    if draws.len() == 0 {
        Seq::<Candle>::empty()
    } else {
        let before = walk(start, draws.drop_last());
        let open = if before.len() == 0 {
            FIRST_OPEN
        } else {
            before.last().close
        };
        before.push(sampled(open, (start + HOUR * before.len()) as i64, draws.last()))
    }
}

/// A portion of a span that is not negative lies in it: at least zero and,
/// for a positive span, below it.
pub proof fn lemma_portion_bounds(draw: u32, span: int)
    requires
        span >= 0,
    ensures
        0 <= portion(draw, span) <= span,
        span > 0 ==> portion(draw, span) < span,
{
    assert(0 <= draw * span <= 0xffff_ffff * span) by (nonlinear_arith)
        requires
            0 <= draw <= 0xffff_ffff,
            span >= 0,
    ;
}

/// A sampled candle has its open and its close between its low and its high,
/// and both within `SWING` of the open.
pub proof fn lemma_sampled_ordered(open: i64, time: i64, d: Draws)
    requires
        i64::MIN + SWING <= open <= i64::MAX - SWING,
    ensures
        sampled(open, time, d).ordered(),
        open - SWING < sampled(open, time, d).low,
        sampled(open, time, d).high < open + SWING,
{
    lemma_portion_bounds(d.rise, SWING as int);
    lemma_portion_bounds(d.fall, SWING as int);
    let high = open + portion(d.rise, SWING as int);
    let low = open - portion(d.fall, SWING as int);
    lemma_portion_bounds(d.close, high - low);
}

/// A walk of no more than `u32::MAX` candles has one candle for each element
/// of `draws`, an hour apart from `start`; the first opens at `FIRST_OPEN`
/// and each later one where the one before it closed; and every candle has
/// its open and close between its low and high.
pub proof fn lemma_walk(start: i64, draws: Seq<Draws>)
    requires
        draws.len() <= u32::MAX,
        start + HOUR * draws.len() <= i64::MAX,
    ensures
        walk(start, draws).len() == draws.len(),
        forall|i: int|
            0 <= i < draws.len() ==> {
                let c = #[trigger] walk(start, draws)[i];
                &&& c.ordered()
                &&& c.time == start + HOUR * i
                &&& c.open == if i == 0 {
                    FIRST_OPEN
                } else {
                    walk(start, draws)[i - 1].close
                }
                &&& FIRST_OPEN - SWING * (i + 1) < c.low
                &&& c.high < FIRST_OPEN + SWING * (i + 1)
            },
    decreases draws.len(),
{
    if draws.len() > 0 {
        let front = draws.drop_last();
        lemma_walk(start, front);
        let before = walk(start, front);
        let open = if before.len() == 0 {
            FIRST_OPEN
        } else {
            before.last().close
        };
        lemma_sampled_ordered(open, (start + HOUR * before.len()) as i64, draws.last());
        assert forall|i: int| 0 <= i < draws.len() implies {
            let c = #[trigger] walk(start, draws)[i];
            &&& c.ordered()
            &&& c.time == start + HOUR * i
            &&& c.open == if i == 0 {
                FIRST_OPEN
            } else {
                walk(start, draws)[i - 1].close
            }
            &&& FIRST_OPEN - SWING * (i + 1) < c.low
            &&& c.high < FIRST_OPEN + SWING * (i + 1)
        } by {
            if i < front.len() {
                assert(walk(start, draws)[i] == before[i]);
            }
        }
    }
}

/// The fraction `draw / 2^32` of `span`.
fn take_portion(draw: u32, span: u64) -> (r: u64)
    requires
        span <= 0xffff_ffff,
    ensures
        r == portion(draw, span as int),
        r <= span,
{
    proof {
        lemma_portion_bounds(draw, span as int);
    }
    assert(draw * span <= 0xffff_ffff * 0xffff_ffff) by (nonlinear_arith)
        requires
            0 <= draw <= 0xffff_ffff,
            0 <= span <= 0xffff_ffff,
    ;
    ((draw as u64) * span) / 0x1_0000_0000
}

impl Candle {
    /// The candle `sampled(open, time, d)`.
    pub fn from_draws(open: i64, time: i64, d: Draws) -> (c: Candle)
        requires
            i64::MIN + SWING <= open <= i64::MAX - SWING,
        ensures
            c == sampled(open, time, d),
    {
        let high: i64 = open + take_portion(d.rise, SWING) as i64;
        let low: i64 = open - take_portion(d.fall, SWING) as i64;
        let close: i64 = low + take_portion(d.close, (high - low) as u64) as i64;
        Candle {
            open,
            low,
            high,
            close,
            volume: Some(take_portion(d.volume, VOLUME_SPAN)),
            time,
        }
    }
}

/// The walk from `start` over `draws`.
pub fn candles_from_draws(start: i64, draws: &Vec<Draws>) -> (out: Vec<Candle>)
    requires
        draws.len() <= u32::MAX,
        start + HOUR * draws.len() <= i64::MAX,
    ensures
        out@ == walk(start, draws@),
{
    let mut out: Vec<Candle> = Vec::new();
    let mut open: i64 = FIRST_OPEN;
    let mut time: i64 = start;
    let mut i: usize = 0;
    assert(draws@.take(0) =~= Seq::<Draws>::empty());
    while i < draws.len()
        invariant
            i <= draws.len(),
            draws.len() <= u32::MAX,
            start + HOUR * draws.len() <= i64::MAX,
            out@ == walk(start, draws@.take(i as int)),
            out.len() == i,
            time == start + HOUR * i,
            open == if i == 0 {
                FIRST_OPEN
            } else {
                out@.last().close
            },
            FIRST_OPEN - SWING * i <= open <= FIRST_OPEN + SWING * i,
        decreases draws.len() - i,
    {
        let d = draws[i];
        proof {
            assert(draws@.take(i + 1).drop_last() =~= draws@.take(i as int));
            assert(draws@.take(i + 1).last() == d);
            lemma_sampled_ordered(open, time, d);
        }
        let c = Candle::from_draws(open, time, d);
        out.push(c);
        open = c.close;
        i = i + 1;
        time = time + HOUR;
    }
    assert(draws@.take(i as int) =~= draws@);
    out
}

/// Calls `rand::thread_rng` and `rand::Rng::gen` for a `u32`. The number is
/// random: nothing is said of it.
#[verifier::external_body]
fn random_u32() -> u32 {
    rand::Rng::gen::<u32>(&mut rand::thread_rng())
}

/// A random walk of `count` candles from the time `start`: the walk over some
/// sequence of `count` draws.
pub fn sample_candles(start: i64, count: u32) -> (out: Vec<Candle>)
    requires
        start + HOUR * count <= i64::MAX,
    ensures
        exists|draws: Seq<Draws>| draws.len() == count && out@ == #[trigger] walk(start, draws),
{
    let mut draws: Vec<Draws> = Vec::new();
    let mut i: u32 = 0;
    while i < count
        invariant
            i <= count,
            draws.len() == i,
        decreases count - i,
    {
        let rise: u32 = random_u32();
        let fall: u32 = random_u32();
        let close: u32 = random_u32();
        let volume: u32 = random_u32();
        draws.push(Draws { rise, fall, close, volume });
        i = i + 1;
    }
    candles_from_draws(start, &draws)
}

} // verus!
