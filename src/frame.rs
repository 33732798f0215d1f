use vstd::prelude::*;
use crate::surface::{Size, SurfaceConfig};
use crate::uniform::{decode, encode, lemma_uniform_round_trip, UniformBuffer, MATRIX_WORDS, UNIFORM_BYTES};

verus! {

/// Angles are counted in whole units of one ten-thousandth of a radian, so
/// that accumulation is exact.
pub const ANGLE_UNITS_PER_RADIAN: u64 = 10000;

/// Rotation about the X axis per update, in angle units.
pub const RATE_X: u64 = 1;

/// Rotation about the Y axis per update, in angle units.
pub const RATE_Y: u64 = 3;

/// Vertices drawn per frame: two triangles forming the quad.
pub const QUAD_VERTICES: u32 = 6;

/// Instances drawn per frame.
pub const QUAD_INSTANCES: u32 = 1;

/// The quad's rotation about the X and Y axes, in angle units.
#[derive(Clone, Copy, Debug, PartialEq, Eq, Structural)]
pub struct AnimationState {
    pub rotation_x: u64,
    pub rotation_y: u64,
}

impl AnimationState {
    /// The state after one more update.
    pub open spec fn step(self) -> AnimationState {
        AnimationState {
            rotation_x: (self.rotation_x + RATE_X) as u64,
            rotation_y: (self.rotation_y + RATE_Y) as u64,
        }
    }

    /// The state after `n` more updates.
    pub open spec fn steps(self, n: nat) -> AnimationState
        decreases n,
    {
        if n == 0 {
            self
        } else {
            self.steps((n - 1) as nat).step()
        }
    }

    /// Whether one more update keeps both angles within 64 bits.
    pub open spec fn can_step(self) -> bool {
        &&& self.rotation_x + RATE_X <= u64::MAX
        &&& self.rotation_y + RATE_Y <= u64::MAX
    }

    /// Both angles at zero.
    pub fn new() -> (r: AnimationState)
        ensures
            r.rotation_x == 0,
            r.rotation_y == 0,
    {
        AnimationState { rotation_x: 0, rotation_y: 0 }
    }

    /// The state one update ahead, leaving this one as it is.
    pub fn stepped(&self) -> (r: AnimationState)
        requires
            self.can_step(),
        ensures
            r == self.step(),
    {
        AnimationState { rotation_x: self.rotation_x + RATE_X, rotation_y: self.rotation_y + RATE_Y }
    }

    /// Advances each angle by its rate.
    pub fn advance(&mut self)
        requires
            old(self).can_step(),
        ensures
            *final(self) == old(self).step(),
            final(self).rotation_x == old(self).rotation_x + RATE_X,
            final(self).rotation_y == old(self).rotation_y + RATE_Y,
    {
        self.rotation_x = self.rotation_x + RATE_X;
        self.rotation_y = self.rotation_y + RATE_Y;
    }
}

/// `n` updates from zero angles leave exactly `n` times each rate, with no
/// drift, as long as the Y angle fits in 64 bits.
pub proof fn lemma_updates_accumulate(n: nat)
    requires
        n * RATE_Y <= u64::MAX,
    ensures
        (AnimationState { rotation_x: 0, rotation_y: 0 }).steps(n) == (AnimationState {
            rotation_x: (n * RATE_X) as u64,
            rotation_y: (n * RATE_Y) as u64,
        }),
    decreases n,
{
    if n > 0 {
        lemma_updates_accumulate((n - 1) as nat);
    }
}

/// A lost or outdated surface is configured again at the size it already
/// has, so recovery leaves the configuration as it was.
pub proof fn lemma_recovery_keeps_size(config: SurfaceConfig)
    ensures
        config.reconfigured(config.size()) == config,
{
}

/// The errors that acquiring a frame from the surface can report.
#[derive(Clone, Copy, Debug, PartialEq, Eq, Structural)]
pub enum SurfaceFault {
    Lost,
    Outdated,
    OutOfMemory,
    Timeout,
}

/// What the driver does after a frame.
#[derive(Clone, Copy, Debug, PartialEq, Eq, Structural)]
pub enum FrameStep {
    /// The frame was presented; go on.
    Continue,
    /// Apply the surface configuration at this size before the next frame.
    Reconfigure(Size),
    /// The frame was dropped; go on with the next one.
    DropFrame,
    /// Stop the run loop.
    Exit,
}

/// A command recorded inside a frame's render pass.
#[derive(Clone, Copy, Debug, PartialEq, Eq, Structural)]
pub enum PassCommand {
    SetPipeline,
    SetBindGroup(u32),
    Draw { vertices: u32, instances: u32 },
}

/// The commands of every frame's single render pass, which opens by
/// clearing the target: bind the pipeline and the bind group at index 0, and
/// draw the quad once. The pass is then closed, submitted and presented.
pub open spec fn frame_plan() -> Seq<PassCommand> {
    seq![
        PassCommand::SetPipeline,
        PassCommand::SetBindGroup(0),
        PassCommand::Draw { vertices: QUAD_VERTICES, instances: QUAD_INSTANCES },
    ]
}

/// The commands to record in the render pass of a frame whose target was
/// acquired.
pub fn frame_commands() -> (r: Vec<PassCommand>)
    ensures
        r@ == frame_plan(),
{
    let r = vec![
        PassCommand::SetPipeline,
        PassCommand::SetBindGroup(0),
        PassCommand::Draw { vertices: QUAD_VERTICES, instances: QUAD_INSTANCES },
    ];
    assert(r@ =~= frame_plan());
    r
}

/// The surface configuration, the animation and the record of the uniform
/// buffer, driven through resize, update and the outcome of each render.
#[derive(Clone, Debug, PartialEq)]
pub struct State {
    pub config: SurfaceConfig,
    pub animation: AnimationState,
    pub uniform: UniformBuffer,
}

impl State {
    /// A controller for a configured surface, with both angles at zero and
    /// a uniform buffer of zero bytes.
    pub fn new(config: SurfaceConfig) -> (r: State)
        ensures
            r.config == config,
            r.animation == (AnimationState { rotation_x: 0, rotation_y: 0 }),
            r.uniform@ == Seq::new(UNIFORM_BYTES as nat, |i: int| 0u8),
    {
        State { config, animation: AnimationState::new(), uniform: UniformBuffer::new() }
    }

    /// A new window size: the configuration takes it unless a dimension is
    /// zero. True when the surface must be configured again.
    pub fn resize(&mut self, new_size: Size) -> (apply: bool)
        ensures
            apply == !new_size.is_zero_area(),
            final(self).animation == old(self).animation,
            final(self).uniform == old(self).uniform,
            final(self).config == old(self).config.reconfigured(new_size),
            new_size.is_zero_area() ==> final(self).config == old(self).config,
            !new_size.is_zero_area() ==> final(self).config == (SurfaceConfig {
                width: new_size.width,
                height: new_size.height,
                ..old(self).config
            }),
    {
        self.config.reconfigure(new_size)
    }

    /// Advances the animation by one update and writes the matrix for the
    /// new angles, given as sixteen column-major words, into the uniform
    /// buffer at offset zero. Returns the bytes written, which read back as
    /// the same words.
    pub fn update(&mut self, matrix: &Vec<u32>) -> (written: Vec<u8>)
        requires
            old(self).animation.can_step(),
            matrix@.len() == MATRIX_WORDS,
        ensures
            final(self).animation == old(self).animation.step(),
            final(self).config == old(self).config,
            written@ == encode(matrix@),
            final(self).uniform@ == written@,
            written@.len() == UNIFORM_BYTES,
            decode(final(self).uniform@) == matrix@,
    {
        self.animation.advance();
        let written = self.uniform.write_matrix(matrix);
        proof {
            lemma_uniform_round_trip(matrix@, written@);
        }
        written
    }

    /// The viewport size the projection's aspect ratio is taken from: the
    /// configured size, with a zero height read as one.
    pub fn aspect_size(&self) -> (r: Size)
        ensures
            r.width == self.config.width,
            r.height == (if self.config.height == 0 { 1 } else { self.config.height }),
    {
        let h: u32 = if self.config.height == 0 { 1 } else { self.config.height };
        Size::new(self.config.width, h)
    }

    /// Decides what follows a render. A presented frame goes on. A lost or
    /// outdated surface is configured again at the current size (when that
    /// size has no zero dimension). Running out of memory stops the loop. A
    /// timeout drops the frame. Nothing but the configuration's own
    /// reapplication touches the state, and the animation never changes.
    pub fn finish_frame(&mut self, outcome: Option<SurfaceFault>) -> (r: FrameStep)
        ensures
            *final(self) == *old(self),
            outcome is None ==> r == FrameStep::Continue,
            (outcome == Some(SurfaceFault::Lost) || outcome == Some(SurfaceFault::Outdated)) ==> r
                == (if old(self).config.size().is_zero_area() {
                    FrameStep::DropFrame
                } else {
                    FrameStep::Reconfigure(old(self).config.size())
                }),
            outcome == Some(SurfaceFault::OutOfMemory) ==> r == FrameStep::Exit,
            outcome == Some(SurfaceFault::Timeout) ==> r == FrameStep::DropFrame,
    {
        match outcome {
            None => FrameStep::Continue,
            Some(SurfaceFault::Lost) | Some(SurfaceFault::Outdated) => {
                let size = self.config.current_size();
                if self.config.reconfigure(size) {
                    FrameStep::Reconfigure(size)
                } else {
                    FrameStep::DropFrame
                }
            },
            Some(SurfaceFault::OutOfMemory) => FrameStep::Exit,
            Some(SurfaceFault::Timeout) => FrameStep::DropFrame,
        }
    }
}

} // verus!
