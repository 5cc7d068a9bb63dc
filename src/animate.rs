use vstd::prelude::*;

verus! {

/// The frames of an animation clip, as indices into a sprite sheet.
#[derive(Debug)]
pub struct AnimationIndices {
    pub index: usize,
    pub sprite_indices: Vec<usize>,
}

/// The position of the first occurrence of `v` among the first `n` frames.
pub open spec fn frame_position(frames: Seq<usize>, v: usize, n: nat) -> Option<int>
    decreases n,
{
    if n == 0 {
        None
    } else {
        match frame_position(frames, v, (n - 1) as nat) {
            Some(i) => Some(i),
            None => if frames[n - 1] == v {
                Some(n - 1)
            } else {
                None
            },
        }
    }
}

/// The frame `steps` frames after the sprite `current`, wrapping round the
/// clip; a sprite that is not in the clip counts as its first frame.
pub open spec fn next_frame(frames: Seq<usize>, current: usize, steps: u32) -> usize
    recommends
        frames.len() > 0,
{
    let from = match frame_position(frames, current, frames.len()) {
        Some(i) => i,
        None => 0,
    };
    frames[(from + steps) % (frames.len() as int)]
}

proof fn lemma_frame_position_stable(frames: Seq<usize>, v: usize, m: nat, n: nat)
    requires
        m <= n,
        frame_position(frames, v, m) is Some,
    ensures
        frame_position(frames, v, n) == frame_position(frames, v, m),
    decreases n - m,
{
    if m < n {
        lemma_frame_position_stable(frames, v, m, (n - 1) as nat);
    }
}

fn position(frames: &Vec<usize>, v: usize) -> (r: Option<usize>)
    ensures
        r matches Some(i) ==> frame_position(frames@, v, frames@.len()) == Some(i as int) && i
            < frames@.len(),
        r is None ==> frame_position(frames@, v, frames@.len()) is None,
{
    let mut k: usize = 0;
    while k < frames.len()
        invariant
            k <= frames@.len(),
            frame_position(frames@, v, k as nat) is None,
        decreases frames@.len() - k,
    {
        if frames[k] == v {
            proof {
                lemma_frame_position_stable(frames@, v, k as nat + 1, frames@.len());
            }
            return Some(k);
        }
        k = k + 1;
    }
    None
}

impl AnimationIndices {
    /// The sprite to show once `steps` frame times have passed since sprite
    /// `current` was shown.
    pub fn advance(&self, current: usize, steps: u32) -> (r: usize)
        requires
            self.sprite_indices@.len() > 0,
        ensures
            r == next_frame(self.sprite_indices@, current, steps),
    {
        let frames = &self.sprite_indices;
        let from: usize = match position(frames, current) {
            Some(i) => i,
            None => 0,
        };
        let next = ((from as u128 + steps as u128) % (frames.len() as u128)) as usize;
        frames[next]
    }
}

} // verus!
