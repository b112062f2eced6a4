//! The sampling session: active seed, the frame at which its epoch began and
//! the history of samples taken since.
use vstd::prelude::*;
use crate::seed::{generate_seed, is_word_seed, seed_byte_seq};
use vstd::utf8::valid_utf8;

verus! {

/// Frames of elapsed time per unit of noise-domain travel; also the spacing
/// of the vertical gridlines.
pub const NOISE_STEP: u64 = 500;

/// Seed of a freshly created session.
pub const DEFAULT_SEED: u32 = 0;

/// One recorded sample. Its noise-domain position is `frames / NOISE_STEP`,
/// `frames` being the frames elapsed in the epoch when it was taken; `y` is
/// the sample mapped to screen space.
#[derive(Clone, Copy, Debug, PartialEq)]
pub struct SamplePoint<Y> {
    pub frames: u64,
    pub y: Y,
}

/// The state that one frame of the graph reads and writes.
pub struct Model<Y> {
    seed: u32,
    frame_start: u64,
    points: Vec<SamplePoint<Y>>,
}

/// The mathematical value of a `Model`.
pub struct ModelView<Y> {
    pub seed: u32,
    pub frame_start: u64,
    pub points: Seq<SamplePoint<Y>>,
}

impl<Y> ModelView<Y> {
    /// Frames elapsed in the current epoch at frame counter `frame`.
    pub open spec fn elapsed(self, frame: u64) -> int {
        frame - self.frame_start
    }

    /// The session after one update at frame counter `frame` whose sample
    /// mapped to `y`.
    pub open spec fn step(self, frame: u64, y: Y) -> ModelView<Y> {
        ModelView {
            points: self.points.push(SamplePoint { frames: (frame - self.frame_start) as u64, y }),
            ..self
        }
    }

    /// The session after one update per entry of `frames`, in order, the
    /// `i`-th sample mapping to `ys[i]`.
    pub open spec fn steps(self, frames: Seq<u64>, ys: Seq<Y>) -> ModelView<Y>
        decreases frames.len(),
    {
        if frames.len() == 0 {
            self
        } else {
            self.steps(frames.drop_last(), ys.drop_last()).step(frames.last(), ys[frames.len() - 1])
        }
    }

    /// The session re-seeded with `seed` at frame counter `frame`.
    pub open spec fn reseeded(self, seed: u32, frame: u64) -> ModelView<Y> {
        ModelView { seed, frame_start: frame, points: Seq::empty() }
    }
}

impl<Y> Model<Y> {
    /// The mathematical value of the session.
    pub closed spec fn state(&self) -> ModelView<Y> {
        ModelView { seed: self.seed, frame_start: self.frame_start, points: self.points@ }
    }
}

impl<Y: Copy> Model<Y> {
    /// A session at startup: default seed, epoch at frame zero, no samples.
    pub fn new() -> (r: Self)
        ensures
            r.state().seed == DEFAULT_SEED,
            r.state().frame_start == 0,
            r.state().points.len() == 0,
    {
        Model { seed: DEFAULT_SEED, frame_start: 0, points: Vec::new() }
    }

    /// The active seed.
    pub fn seed(&self) -> (r: u32)
        ensures
            r == self.state().seed,
    {
        self.seed
    }

    /// The frame counter at which the current epoch began.
    pub fn frame_start(&self) -> (r: u64)
        ensures
            r == self.state().frame_start,
    {
        self.frame_start
    }

    /// The samples of the current epoch, oldest first.
    pub fn points(&self) -> (r: &[SamplePoint<Y>])
        ensures
            r@ == self.state().points,
    {
        self.points.as_slice()
    }

    /// Number of samples in the current epoch.
    pub fn len(&self) -> (r: usize)
        ensures
            r == self.state().points.len(),
    {
        self.points.len()
    }

    /// Frames elapsed in the current epoch at frame counter `frame`; the
    /// noise-domain position is this divided by `NOISE_STEP`.
    pub fn domain_frames(&self, frame: u64) -> (r: u64)
        requires
            self.state().frame_start <= frame,
        ensures
            r == self.state().elapsed(frame),
    {
        frame - self.frame_start
    }

    /// Records the sample taken at frame counter `frame`, mapped to `y`.
    pub fn on_frame(&mut self, frame: u64, y: Y)
        requires
            old(self).state().frame_start <= frame,
        ensures
            final(self).state() == old(self).state().step(frame, y),
    {
        let frames = frame - self.frame_start;
        self.points.push(SamplePoint { frames, y });
    }

    /// Starts a new epoch at frame counter `frame` under `seed`, with an
    /// empty history.
    pub fn reseed(&mut self, seed: u32, frame: u64)
        ensures
            final(self).state() == old(self).state().reseeded(seed, frame),
    {
        self.seed = seed;
        self.frame_start = frame;
        self.points = Vec::new();
    }

    /// Starts a new epoch at frame counter `frame` under a seed packed from a
    /// fresh random word.
    pub fn reseed_random(&mut self, frame: u64)
        ensures
            final(self).state() == old(self).state().reseeded(final(self).state().seed, frame),
            is_word_seed(final(self).state().seed),
            valid_utf8(seed_byte_seq(final(self).state().seed)),
    {
        let seed = generate_seed();
        self.reseed(seed, frame);
    }

    /// The most recent sample, if any.
    pub fn latest(&self) -> (r: Option<SamplePoint<Y>>)
        ensures
            self.state().points.len() == 0 ==> r is None,
            self.state().points.len() > 0 ==> r == Some(self.state().points.last()),
    {
        if self.points.len() == 0 {
            None
        } else {
            Some(self.points[self.points.len() - 1])
        }
    }
}

/// Updates only ever append: after one update per entry of `frames` the
/// history has grown by exactly that many samples, the earlier ones are kept
/// in place, and the sample of the `i`-th update stands at index
/// `old length + i`, recording the frames elapsed in the epoch at that update.
pub proof fn lemma_history_growth<Y>(m: ModelView<Y>, frames: Seq<u64>, ys: Seq<Y>)
    requires
        frames.len() == ys.len(),
    ensures
        m.steps(frames, ys).seed == m.seed,
        m.steps(frames, ys).frame_start == m.frame_start,
        m.steps(frames, ys).points.len() == m.points.len() + frames.len(),
        m.steps(frames, ys).points.subrange(0, m.points.len() as int) == m.points,
        forall|i: int|
            0 <= i < frames.len() ==> #[trigger] m.steps(frames, ys).points[m.points.len() + i]
                == (SamplePoint { frames: (frames[i] - m.frame_start) as u64, y: ys[i] }),
    decreases frames.len(),
{
    if frames.len() > 0 {
        let (fs, vs) = (frames.drop_last(), ys.drop_last());
        lemma_history_growth(m, fs, vs);
        let prev = m.steps(fs, vs);
        assert(m.steps(frames, ys) == prev.step(frames.last(), ys[frames.len() - 1]));
        assert(m.steps(frames, ys).points.subrange(0, m.points.len() as int) =~= m.points);
        assert forall|i: int| 0 <= i < frames.len() implies #[trigger] m.steps(frames, ys).points[m.points.len() + i]
            == (SamplePoint { frames: (frames[i] - m.frame_start) as u64, y: ys[i] }) by {
            if i < fs.len() {
                assert(prev.points[m.points.len() + i] == (SamplePoint {
                    frames: (fs[i] - m.frame_start) as u64,
                    y: vs[i],
                }));
            }
        }
    } else {
        assert(m.steps(frames, ys).points.subrange(0, m.points.len() as int) =~= m.points);
    }
}

/// A re-seed empties the history and restarts the epoch at the frame of the
/// re-seed, so the next update there samples the noise at its origin.
pub proof fn lemma_reseed_restarts<Y>(m: ModelView<Y>, seed: u32, frame: u64, y: Y)
    ensures
        m.reseeded(seed, frame).seed == seed,
        m.reseeded(seed, frame).points.len() == 0,
        m.reseeded(seed, frame).elapsed(frame) == 0,
        m.reseeded(seed, frame).step(frame, y).points == seq![SamplePoint { frames: 0u64, y }],
{
    assert(m.reseeded(seed, frame).step(frame, y).points =~= seq![SamplePoint { frames: 0u64, y }]);
}

} // verus!
