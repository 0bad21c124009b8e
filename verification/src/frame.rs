//! The frame loop: its state machine, the fixed per-frame command list,
//! and an end-to-end run over a script of key observations.
//!
//! Each iteration the loop handles input, checks the window's close flag,
//! and — while it is clear — performs one fixed cycle: clear to the
//! background colour, bind the program and the layout descriptor, issue
//! one indexed draw of the six quad indices, present, and process pending
//! events. The colour is held in milli fixed point (`n` stands for
//! `n / 1000`), as in `geometry`.

use vstd::prelude::*;

verus! {

use crate::input::KeyEvent;
use crate::input::process_input;
use crate::input::requests_close;
use crate::window::WindowState;

/// The loop's two states.
#[derive(PartialEq, Eq, Structural, Clone, Copy, Debug)]
pub enum LoopState {
    Running,
    Closing,
}

/// Where one observation of the close flag takes the loop: to `Closing`
/// as soon as the flag is seen set, and `Closing` is never left.
pub open spec fn next_state(state: LoopState, close_requested: bool) -> LoopState {
    if state is Closing || close_requested {
        LoopState::Closing
    } else {
        LoopState::Running
    }
}

/// One transition of the loop's state machine.
pub fn loop_step(state: LoopState, close_requested: bool) -> (r: LoopState)
    ensures
        r == next_state(state, close_requested),
{
    if close_requested {
        LoopState::Closing
    } else {
        state
    }
}

/// The fixed background colour, RGBA in milli units: (0.2, 0.3, 0.3, 1.0).
#[derive(PartialEq, Eq, Structural, Clone, Copy, Debug)]
pub struct ColorMilli {
    pub red: i32,
    pub green: i32,
    pub blue: i32,
    pub alpha: i32,
}

/// The colour every frame is cleared to: a dark teal, (0.2, 0.3, 0.3, 1.0).
pub open spec fn clear_color_spec() -> ColorMilli {
    ColorMilli { red: 200, green: 300, blue: 300, alpha: 1000 }
}

/// The colour every frame is cleared to: a dark teal.
pub fn clear_color() -> (c: ColorMilli)
    ensures
        c == clear_color_spec(),
{
    ColorMilli { red: 200, green: 300, blue: 300, alpha: 1000 }
}

/// The primitive topology a draw call assembles.
#[derive(PartialEq, Eq, Structural, Clone, Copy, Debug)]
pub enum PrimitiveTopology {
    Triangles,
}

/// The integer type the index buffer's entries are read as.
#[derive(PartialEq, Eq, Structural, Clone, Copy, Debug)]
pub enum IndexKind {
    UnsignedInt,
}

/// One GPU or presentation operation of a frame cycle.
#[derive(PartialEq, Eq, Structural, Clone, Copy, Debug)]
pub enum RenderOp {
    /// Set the clear colour, RGBA in milli units.
    SetClearColor { red: i32, green: i32, blue: i32, alpha: i32 },
    /// Clear the colour buffer.
    ClearColorBuffer,
    /// Bind the linked program.
    UseProgram,
    /// Bind the layout descriptor that carries the mesh.
    BindLayout,
    /// Draw `index_count` indices of the given kind under the given
    /// topology.
    DrawIndexed { index_count: u32, topology: PrimitiveTopology, index_kind: IndexKind },
    /// Present the finished frame.
    SwapBuffers,
    /// Process pending OS and input events.
    PollEvents,
}

/// The operations of one frame cycle, in order.
pub open spec fn frame_ops_seq() -> Seq<RenderOp> {
    seq![
        RenderOp::SetClearColor {
            red: clear_color_spec().red,
            green: clear_color_spec().green,
            blue: clear_color_spec().blue,
            alpha: clear_color_spec().alpha,
        },
        RenderOp::ClearColorBuffer,
        RenderOp::UseProgram,
        RenderOp::BindLayout,
        RenderOp::DrawIndexed {
            index_count: 6,
            topology: PrimitiveTopology::Triangles,
            index_kind: IndexKind::UnsignedInt,
        },
        RenderOp::SwapBuffers,
        RenderOp::PollEvents,
    ]
}

/// The fixed command list one frame cycle executes.
pub fn frame_ops() -> (v: Vec<RenderOp>)
    ensures
        v@ == frame_ops_seq(),
{
    let mut v: Vec<RenderOp> = Vec::new();
    let c = clear_color();
    v.push(RenderOp::SetClearColor { red: c.red, green: c.green, blue: c.blue, alpha: c.alpha });
    v.push(RenderOp::ClearColorBuffer);
    v.push(RenderOp::UseProgram);
    v.push(RenderOp::BindLayout);
    v.push(
        RenderOp::DrawIndexed {
            index_count: 6,
            topology: PrimitiveTopology::Triangles,
            index_kind: IndexKind::UnsignedInt,
        },
    );
    v.push(RenderOp::SwapBuffers);
    v.push(RenderOp::PollEvents);
    proof {
        assert(v@ =~= frame_ops_seq());
    }
    v
}

/// The operations of `n` frame cycles, one `frame_ops_seq` after another.
pub open spec fn cycles_seq(n: int) -> Seq<RenderOp>
    decreases n,
{
    if n <= 0 {
        Seq::empty()
    } else {
        cycles_seq(n - 1) + frame_ops_seq()
    }
}

/// Runs the loop over a script of key observations, one per iteration,
/// and returns the number of frame cycles performed together with every
/// operation executed. Iteration `i` first hands `events[i]` to the input
/// handler, then performs one full cycle (`frame_ops`); the loop stops as
/// soon as its top-of-iteration check sees the close flag set.
///
/// The outcome is exact: no cycle runs if closure was already requested;
/// otherwise exactly one clear+draw+present cycle runs per iteration up
/// to and including the one whose event first requests closure, and the
/// operation log is exactly that many copies of the frame cycle.
pub fn run_frames(window: &mut WindowState, events: &Vec<KeyEvent>) -> (r: (usize, Vec<RenderOp>))
    requires
        old(window).close_requested || exists|k: int|
            0 <= k < events@.len() && requests_close(events@[k]),
    ensures
        final(window).close_requested,
        r.1@ == cycles_seq(r.0 as int),
        old(window).close_requested ==> r.0 == 0,
        !old(window).close_requested ==> {
            &&& 1 <= r.0 <= events@.len()
            &&& requests_close(events@[r.0 - 1])
            &&& forall|j: int| 0 <= j < r.0 - 1 ==> !requests_close(events@[j])
        },
{
    let mut frames: usize = 0;
    let mut ops: Vec<RenderOp> = Vec::new();
    while !window.should_close()
        invariant
            frames <= events@.len(),
            ops@ == cycles_seq(frames as int),
            old(window).close_requested ==> window.close_requested && frames == 0,
            window.close_requested == (old(window).close_requested || (frames >= 1
                && requests_close(events@[frames - 1]))),
            forall|j: int| 0 <= j < frames - 1 ==> !requests_close(events@[j]),
            !window.close_requested ==> forall|j: int|
                0 <= j < frames ==> !requests_close(events@[j]),
            old(window).close_requested || exists|k: int|
                0 <= k < events@.len() && requests_close(events@[k]),
        decreases events@.len() - frames,
    {
        proof {
            let k = choose|k: int| 0 <= k < events@.len() && requests_close(events@[k]);
            assert(frames <= k);
        }
        let n = events.len();
        let ev = events[frames];
        process_input(window, ev);
        let mut cycle = frame_ops();
        ops.append(&mut cycle);
        proof {
            assert(frames < n);
            assert(ops@ == cycles_seq(frames + 1));
        }
        frames = frames + 1;
    }
    (frames, ops)
}

} // verus!
