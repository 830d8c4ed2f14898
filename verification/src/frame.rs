//! One iteration of the frame loop: whether the drained input ends the
//! loop, the commands that draw the frame, and what the result of the
//! present means.

use crate::presentation::Depth;
use crate::presentation::Format;
use crate::presentation::Viewport;
use vstd::prelude::*;

verus! {

/// A key, as far as the loop tells keys apart.
#[derive(Clone, Copy, Debug, PartialEq, Eq, Structural)]
pub enum Key {
    Escape,
    Other,
}

/// A window or input event, as far as the loop tells events apart.
#[derive(Clone, Copy, Debug, PartialEq, Eq, Structural)]
pub enum InputEvent {
    /// The windowing layer asks the program to close.
    Quit,
    /// A key went down; some key-down events carry no key.
    KeyDown { key: Option<Key> },
    /// Anything else.
    Other,
}

/// The state of the frame loop.
#[derive(Clone, Copy, Debug, PartialEq, Eq, Structural)]
pub enum LoopState {
    Running,
    Terminated,
}

/// A colour in four 8-bit channels; 255 is full intensity.
#[derive(Clone, Copy, Debug, PartialEq, Eq, Structural)]
pub struct Color {
    pub red: u8,
    pub green: u8,
    pub blue: u8,
    pub alpha: u8,
}

/// How the input assembler groups vertices.
#[derive(Clone, Copy, Debug, PartialEq, Eq, Structural)]
pub enum Topology {
    PointList,
    LineList,
    TriangleList,
    TriangleStrip,
}

/// One command recorded on the immediate context.
#[derive(Clone, Copy, Debug, PartialEq, Eq, Structural)]
pub enum RenderCommand {
    ClearRenderTarget { color: Color },
    /// Clears the depth-stencil view; `stencil` is the value handed over
    /// for the stencil channel, which is written only where `clear_stencil`.
    ClearDepthStencil { clear_depth: bool, clear_stencil: bool, depth: Depth, stencil: u8 },
    /// Binds the render-target view and the depth-stencil view as outputs.
    SetRenderTargets,
    SetPrimitiveTopology { topology: Topology },
    SetIndexBuffer { format: Format, offset: u32 },
    /// Binds the vertex shader, with no class instances.
    SetVertexShader,
    /// Binds the pixel shader, with no class instances.
    SetPixelShader,
    SetViewport { viewport: Viewport },
    DrawIndexedInstanced {
        index_count: u32,
        instance_count: u32,
        start_index: u32,
        base_vertex: i32,
        start_instance: u32,
    },
}

/// How a frame is presented.
#[derive(Clone, Copy, Debug, PartialEq, Eq, Structural)]
pub struct PresentParams {
    /// The number of vertical blanks to wait for.
    pub sync_interval: u32,
    pub flags: u32,
}

/// The status with which a present succeeds.
pub const PRESENT_OK: i32 = 0;

/// Whether `event` asks the loop to end: a quit event, or a key-down of
/// Escape.
pub open spec fn is_quit_event(event: InputEvent) -> bool {
    event == InputEvent::Quit || event == (InputEvent::KeyDown { key: Some(Key::Escape) })
}

/// Whether any of `events` asks the loop to end.
pub open spec fn wants_quit(events: Seq<InputEvent>) -> bool {
    exists|i: int| 0 <= i < events.len() && is_quit_event(#[trigger] events[i])
}

/// The state of a running loop once `events` are drained.
pub open spec fn state_after(events: Seq<InputEvent>) -> LoopState {
    if wants_quit(events) {
        LoopState::Terminated
    } else {
        LoopState::Running
    }
}

/// The colour every frame is cleared to: a dark grey, a fifth of full
/// intensity, opaque.
pub open spec fn clear_color_spec() -> Color {
    Color { red: 51, green: 51, blue: 51, alpha: 255 }
}

/// The one draw of a frame: three indices from the first, one instance.
pub open spec fn triangle_draw() -> RenderCommand {
    RenderCommand::DrawIndexedInstanced {
        index_count: 3,
        instance_count: 1,
        start_index: 0,
        base_vertex: 0,
        start_instance: 0,
    }
}

/// The commands of one frame, in the order they are recorded: clear both
/// targets, bind them, set up the input assembler, the shaders and the
/// viewport, draw.
pub open spec fn frame_commands_for(viewport: Viewport) -> Seq<RenderCommand> {
    seq![
        RenderCommand::ClearRenderTarget { color: clear_color_spec() },
        RenderCommand::ClearDepthStencil {
            clear_depth: true,
            clear_stencil: false,
            depth: Depth::Far,
            stencil: 1,
        },
        RenderCommand::SetRenderTargets,
        RenderCommand::SetPrimitiveTopology { topology: Topology::TriangleList },
        RenderCommand::SetIndexBuffer { format: Format::R32Uint, offset: 0 },
        RenderCommand::SetVertexShader,
        RenderCommand::SetPixelShader,
        RenderCommand::SetViewport { viewport },
        triangle_draw(),
    ]
}

/// A frame is presented at the next vertical blank.
pub open spec fn present_params_spec() -> PresentParams {
    PresentParams { sync_interval: 1, flags: 0 }
}

/// Whether `command` draws.
pub open spec fn is_draw(command: RenderCommand) -> bool {
    command is DrawIndexedInstanced
}

/// Whether `command` clears a target.
pub open spec fn is_clear(command: RenderCommand) -> bool {
    command is ClearRenderTarget || command is ClearDepthStencil
}

/// The number of draws among `commands`.
pub open spec fn draw_count(commands: Seq<RenderCommand>) -> nat
    decreases commands.len(),
{
    if commands.len() == 0 {
        0
    } else {
        draw_count(commands.drop_last()) + if is_draw(commands.last()) {
            1nat
        } else {
            0nat
        }
    }
}

impl InputEvent {
    /// Whether this event asks the loop to end.
    pub fn is_quit(self) -> (b: bool)
        ensures
            b == is_quit_event(self),
    {
        match self {
            InputEvent::Quit => true,
            InputEvent::KeyDown { key: Some(Key::Escape) } => true,
            _ => false,
        }
    }
}

/// Whether any of the drained `events` asks the loop to end.
pub fn quit_requested(events: &Vec<InputEvent>) -> (b: bool)
    ensures
        b == wants_quit(events@),
{
    let mut i: usize = 0;
    while i < events.len()
        invariant
            i <= events.len(),
            forall|j: int| 0 <= j < i ==> !is_quit_event(#[trigger] events@[j]),
        decreases events.len() - i,
    {
        if events[i].is_quit() {
            return true;
        }
        i += 1;
    }
    false
}

impl LoopState {
    /// The state after `events` were drained: a terminated loop stays
    /// terminated, a running one ends on the first event that asks for it.
    pub fn after_events(self, events: &Vec<InputEvent>) -> (next: LoopState)
        ensures
            self == LoopState::Terminated ==> next == LoopState::Terminated,
            self == LoopState::Running ==> next == state_after(events@),
    {
        match self {
            LoopState::Terminated => LoopState::Terminated,
            LoopState::Running => if quit_requested(events) {
                LoopState::Terminated
            } else {
                LoopState::Running
            },
        }
    }
}

/// The colour every frame is cleared to.
pub fn clear_color() -> (color: Color)
    ensures
        color == clear_color_spec(),
{
    Color { red: 51, green: 51, blue: 51, alpha: 255 }
}

/// How every frame is presented.
pub fn present_params() -> (params: PresentParams)
    ensures
        params == present_params_spec(),
{
    PresentParams { sync_interval: 1, flags: 0 }
}

/// The commands that draw one frame into `viewport`.
pub fn frame_commands(viewport: Viewport) -> (commands: Vec<RenderCommand>)
    ensures
        commands@ == frame_commands_for(viewport),
{
    let mut commands: Vec<RenderCommand> = Vec::new();
    commands.push(RenderCommand::ClearRenderTarget { color: clear_color() });
    commands.push(
        RenderCommand::ClearDepthStencil {
            clear_depth: true,
            clear_stencil: false,
            depth: Depth::Far,
            stencil: 1,
        },
    );
    commands.push(RenderCommand::SetRenderTargets);
    commands.push(RenderCommand::SetPrimitiveTopology { topology: Topology::TriangleList });
    commands.push(RenderCommand::SetIndexBuffer { format: Format::R32Uint, offset: 0 });
    commands.push(RenderCommand::SetVertexShader);
    commands.push(RenderCommand::SetPixelShader);
    commands.push(RenderCommand::SetViewport { viewport });
    commands.push(
        RenderCommand::DrawIndexedInstanced {
            index_count: 3,
            instance_count: 1,
            start_index: 0,
            base_vertex: 0,
            start_instance: 0,
        },
    );
    assert(commands@ =~= frame_commands_for(viewport));
    commands
}

/// Whether a present with this status succeeded; any other status is
/// fatal.
pub fn present_succeeded(status: i32) -> (ok: bool)
    ensures
        ok == (status == PRESENT_OK),
{
    status == PRESENT_OK
}

/// A frame holds exactly one draw: the last command, an indexed draw of
/// three indices from index 0 with one instance.
pub proof fn lemma_frame_draws_once(viewport: Viewport)
    ensures
        draw_count(frame_commands_for(viewport)) == 1,
        frame_commands_for(viewport).last() == triangle_draw(),
        forall|i: int|
            0 <= i < frame_commands_for(viewport).len() && is_draw(
                #[trigger] frame_commands_for(viewport)[i],
            ) ==> frame_commands_for(viewport)[i] == triangle_draw(),
{
    let c = frame_commands_for(viewport);
    let c8 = c.drop_last();
    let c7 = c8.drop_last();
    let c6 = c7.drop_last();
    let c5 = c6.drop_last();
    let c4 = c5.drop_last();
    let c3 = c4.drop_last();
    let c2 = c3.drop_last();
    let c1 = c2.drop_last();
    let c0 = c1.drop_last();
    assert(c0.len() == 0);
    assert(draw_count(c0) == 0);
    assert(draw_count(c1) == 0);
    assert(draw_count(c2) == 0);
    assert(draw_count(c3) == 0);
    assert(draw_count(c4) == 0);
    assert(draw_count(c5) == 0);
    assert(draw_count(c6) == 0);
    assert(draw_count(c7) == 0);
    assert(draw_count(c8) == 0);
}

/// Both targets are cleared before the draw of a frame, and nothing is
/// cleared after it.
pub proof fn lemma_frame_clears_before_draw(viewport: Viewport)
    ensures
        forall|i: int, j: int|
            0 <= i < frame_commands_for(viewport).len() && 0 <= j < frame_commands_for(
                viewport,
            ).len() && is_clear(#[trigger] frame_commands_for(viewport)[i]) && is_draw(
                #[trigger] frame_commands_for(viewport)[j],
            ) ==> i < j,
        frame_commands_for(viewport)[0] is ClearRenderTarget,
        frame_commands_for(viewport)[1] is ClearDepthStencil,
{
}

} // verus!
