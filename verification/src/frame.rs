//! The driver's side: solid frames and the step that consumes one command.
//!
//! The driver owns the strip. Each iteration it pops one command from the
//! channel, builds a frame in which every pixel carries that command's color,
//! and hands the frame to the hardware in one atomic write. No partial frame
//! is ever observable: a frame is built complete before it leaves this
//! module.

use vstd::prelude::*;

use crate::channel::CommandQueue;
use crate::channel::CHANNEL_CAPACITY;
use crate::color::ColorCommand;
use crate::http::seq_starts_with;
use crate::http::write_token;
use crate::listener::body_line;
use crate::listener::decision_of;
use crate::parse::parse_color;

verus! {

/// A frame of `n` pixels, every one carrying the color `c`.
pub open spec fn solid_frame(c: ColorCommand, n: nat) -> Seq<ColorCommand> {
    Seq::new(n, |i: int| c)
}

/// A fixed-length sequence of pixel colors, written to the hardware in one
/// atomic call. In this design every frame is solid: all pixels equal.
pub struct LedFrame {
    pixels: Vec<ColorCommand>,
}

impl View for LedFrame {
    type V = Seq<ColorCommand>;

    closed spec fn view(&self) -> Seq<ColorCommand> {
        self.pixels@
    }
}

impl LedFrame {
    /// Builds the frame that fills a strip of `strip_len` pixels with `c`.
    pub fn solid(c: ColorCommand, strip_len: usize) -> (f: LedFrame)
        ensures
            f@ == solid_frame(c, strip_len as nat),
    {
        let mut pixels: Vec<ColorCommand> = Vec::new();
        let mut i: usize = 0;
        while i < strip_len
            invariant
                0 <= i <= strip_len,
                pixels@.len() == i,
                forall|k: int| 0 <= k < i ==> pixels@[k] == c,
            decreases strip_len - i,
        {
            pixels.push(c);
            i = i + 1;
        }
        proof {
            assert(pixels@ =~= solid_frame(c, strip_len as nat));
        }
        LedFrame { pixels }
    }

    /// How many pixels the frame holds.
    pub fn len(&self) -> (n: usize)
        ensures
            n == self@.len(),
    {
        self.pixels.len()
    }

    /// The pixel colors, in strip order, for the one hardware write.
    pub fn pixels(&self) -> (s: &[ColorCommand])
        ensures
            s@ == self@,
    {
        self.pixels.as_slice()
    }
}

/// One driver iteration, up to the hardware write: pops the oldest command
/// and builds the solid frame it calls for. Returns `None` — the suspension
/// point — when no command is queued, leaving the channel unchanged.
pub fn driver_step(q: &mut CommandQueue, strip_len: usize) -> (r: Option<LedFrame>)
    requires
        old(q).wf(),
    ensures
        final(q).wf(),
        r is Some <==> old(q)@.len() > 0,
        r is Some ==> r->Some_0@ == solid_frame(old(q)@[0], strip_len as nat) && final(q)@ == old(
            q,
        )@.subrange(1, old(q)@.len() as int),
        r is None ==> final(q)@ == old(q)@,
{
    match q.try_pop() {
        Some(c) => Some(LedFrame::solid(c, strip_len)),
        None => None,
    }
}

/// Law: a solid frame renders every pixel in the commanded color.
pub proof fn lemma_solid_frame_uniform(c: ColorCommand, n: nat)
    ensures
        solid_frame(c, n).len() == n,
        forall|i: int| 0 <= i < n ==> solid_frame(c, n)[i] == c,
{
}

/// Law: the whole pipeline, for a well-formed write request. Its decision
/// carries exactly the one parsed command; enqueueing that command on a
/// channel with room appends it and nothing else; and the frame the driver
/// builds from it colors every pixel of a strip of any length with it.
pub proof fn lemma_write_request_pipeline(
    s: Seq<u8>,
    c: ColorCommand,
    q: Seq<ColorCommand>,
    n: nat,
)
    requires
        seq_starts_with(s, write_token()),
        body_line(s) is Some,
        parse_color(body_line(s)->Some_0) == Some(c),
        q.len() < CHANNEL_CAPACITY,
    ensures
        decision_of(s).command == Some(c),
        q.push(c) == q + seq![c],
        q.push(c)[q.len() as int] == c,
        forall|i: int| 0 <= i < n ==> solid_frame(c, n)[i] == c,
{
    assert(q.push(c) =~= q + seq![c]);
}

} // verus!
