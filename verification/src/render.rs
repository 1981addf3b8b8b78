//! The render loop: its state machine, the events it reacts to, and the
//! command plans it issues for startup and for every frame.
//!
//! The driver polls the windowing system, feeds each event through
//! `handle_window_event`, and executes the command plans in order. All
//! decisions — when to close, what a frame does, what setup does — are
//! made here.

use vstd::prelude::*;
use crate::shader::LinkedProgram;

verus! {

/// The loop's state: it renders while `Running`; `Closing` is terminal.
#[derive(Clone, Copy, Debug, PartialEq, Eq, Structural)]
pub enum LoopState {
    Running,
    Closing,
}

/// A key, as far as the loop cares: Escape closes, every other key is
/// alike in having no effect.
#[derive(Clone, Copy, Debug, PartialEq, Eq, Structural)]
pub enum KeyCode {
    Escape,
    Other,
}

/// What happened to a key.
#[derive(Clone, Copy, Debug, PartialEq, Eq, Structural)]
pub enum KeyAction {
    Press,
    Release,
    Repeat,
}

/// An input event delivered by the windowing system.
#[derive(Clone, Copy, Debug, PartialEq, Eq, Structural)]
pub enum WindowEvent {
    /// A key changed state.
    Key { key: KeyCode, action: KeyAction },
    /// Any event the loop does not react to.
    Other,
}

/// Whether an event asks the loop to close: exactly an Escape press.
pub open spec fn requests_close(event: WindowEvent) -> bool {
    event == (WindowEvent::Key { key: KeyCode::Escape, action: KeyAction::Press })
}

/// The loop state after one event: an Escape press closes, and a loop
/// once closing stays closing; nothing else changes the state.
pub open spec fn step_spec(state: LoopState, event: WindowEvent) -> LoopState {
    if requests_close(event) || state == LoopState::Closing {
        LoopState::Closing
    } else {
        state
    }
}

/// React to one input event: on an Escape press the loop state moves to
/// `Closing`; every other event leaves the state as it was.
pub fn handle_window_event(state: &mut LoopState, event: WindowEvent)
    ensures
        *final(state) == step_spec(*old(state), event),
{
    match event {
        WindowEvent::Key { key: KeyCode::Escape, action: KeyAction::Press } => {
            *state = LoopState::Closing;
        },
        _ => {},
    }
}

/// The windowing system reported that the user worked the window's own
/// close control: the loop state moves to `Closing` unconditionally.
pub fn os_close_requested(state: &mut LoopState)
    ensures
        *final(state) == LoopState::Closing,
{
    *state = LoopState::Closing;
}

/// Pressing Escape closes the loop within the one event step that
/// delivers it, whatever state the loop was in.
pub proof fn lemma_escape_press_closes(state: LoopState)
    ensures
        step_spec(
            state,
            WindowEvent::Key { key: KeyCode::Escape, action: KeyAction::Press },
        ) == LoopState::Closing,
{
}

/// The window's close control and the Escape key end in the same
/// terminal state, and that state absorbs every further event: there is
/// one exit path, taken once.
pub proof fn lemma_close_paths_agree(escape_event: WindowEvent)
    requires
        requests_close(escape_event),
    ensures
        step_spec(LoopState::Running, escape_event) == LoopState::Closing,
        forall|event: WindowEvent|
            step_spec(LoopState::Closing, event) == LoopState::Closing,
{
}

/// No event other than an Escape press ever closes a running loop.
pub proof fn lemma_only_escape_closes(event: WindowEvent)
    requires
        !requests_close(event),
    ensures
        step_spec(LoopState::Running, event) == LoopState::Running,
{
}

/// One graphics command, as the driver executes it. Buffer contents are
/// not carried here: an upload command means uploading the fixed data of
/// `crate::geometry`, and a describe command means applying the fixed
/// attribute layout, so identical commands always move identical data.
#[derive(Clone, Copy, Debug, PartialEq, Eq, Structural)]
pub enum GlCommand {
    /// Select the linked shader program.
    UseProgram { program_id: u32 },
    /// Upload the fixed vertex data with a static, upload-once hint.
    UploadVertexData,
    /// Upload the fixed index data with a static, upload-once hint.
    UploadIndexData,
    /// Describe and enable one attribute of the fixed layout.
    DescribeAttribute { location: u32 },
    /// Bind the vertex-layout object prepared during setup.
    BindVertexLayout,
    /// Clear the color buffer to the fixed background color, given as
    /// IEEE 754 bit patterns of the four channels.
    ClearFrame { red_bits: u32, green_bits: u32, blue_bits: u32, alpha_bits: u32 },
    /// One indexed draw of `index_count` indices, taken three at a time
    /// as triangles.
    DrawTriangles { index_count: u32 },
    /// Present the finished frame by swapping buffers.
    PresentFrame,
}

/// Whether a command writes the vertex buffer.
pub open spec fn writes_vertex_data(command: GlCommand) -> bool {
    command is UploadVertexData
}

/// Whether a command is a draw call.
pub open spec fn is_draw(command: GlCommand) -> bool {
    command is DrawTriangles
}

/// The background color, as bit patterns: a dark slate blue, opaque.
pub open spec fn clear_color_spec() -> GlCommand {
    GlCommand::ClearFrame {
        red_bits: 0x3DCC_CCCDu32,
        green_bits: 0x3E4C_CCCDu32,
        blue_bits: 0x3E99_999Au32,
        alpha_bits: 0x3F80_0000u32,
    }
}

/// What setup does, once, before the first frame: select the program,
/// upload both buffers, then describe the two vertex attributes.
pub open spec fn setup_spec(program_id: u32) -> Seq<GlCommand> {
    seq![
        GlCommand::UseProgram { program_id },
        GlCommand::BindVertexLayout,
        GlCommand::UploadVertexData,
        GlCommand::UploadIndexData,
        GlCommand::DescribeAttribute { location: 0 },
        GlCommand::DescribeAttribute { location: 1 },
    ]
}

/// What every frame does: clear, bind the prepared layout, draw the one
/// triangle through its three indices, present.
pub open spec fn frame_spec() -> Seq<GlCommand> {
    seq![
        clear_color_spec(),
        GlCommand::BindVertexLayout,
        GlCommand::DrawTriangles { index_count: 3 },
        GlCommand::PresentFrame,
    ]
}

/// The setup commands. They exist only for a linked program, so a run
/// whose shader build failed never reaches any of them.
pub fn setup_commands(program: &LinkedProgram) -> (v: Vec<GlCommand>)
    ensures
        v@ == setup_spec(program.id),
{
    let mut v: Vec<GlCommand> = Vec::new();
    v.push(GlCommand::UseProgram { program_id: program.id });
    v.push(GlCommand::BindVertexLayout);
    v.push(GlCommand::UploadVertexData);
    v.push(GlCommand::UploadIndexData);
    v.push(GlCommand::DescribeAttribute { location: 0 });
    v.push(GlCommand::DescribeAttribute { location: 1 });
    proof {
        assert(v@ =~= setup_spec(program.id));
    }
    v
}

/// The commands of one render iteration.
pub fn frame_commands() -> (v: Vec<GlCommand>)
    ensures
        v@ == frame_spec(),
{
    let mut v: Vec<GlCommand> = Vec::new();
    v.push(GlCommand::ClearFrame {
        red_bits: 0x3DCC_CCCD,
        green_bits: 0x3E4C_CCCD,
        blue_bits: 0x3E99_999A,
        alpha_bits: 0x3F80_0000,
    });
    v.push(GlCommand::BindVertexLayout);
    v.push(GlCommand::DrawTriangles { index_count: 3 });
    v.push(GlCommand::PresentFrame);
    proof {
        assert(v@ =~= frame_spec());
    }
    v
}

/// Each render iteration issues exactly one draw call, and that call
/// covers exactly the three indices of the one triangle.
pub proof fn lemma_one_draw_per_frame()
    ensures
        is_draw(frame_spec()[2]),
        forall|i: int|
            0 <= i < frame_spec().len() && is_draw(#[trigger] frame_spec()[i]) ==> i == 2,
        frame_spec()[2] == (GlCommand::DrawTriangles { index_count: 3 }),
        frame_spec()[2]->index_count == crate::geometry::index_data_spec().len(),
        frame_spec()[2]->index_count / 3 == 1,
{
}

/// Everything a whole run executes: setup once, then one frame plan per
/// render iteration.
pub open spec fn run_trace(program_id: u32, frames: nat) -> Seq<GlCommand>
    decreases frames,
{
    if frames == 0 {
        setup_spec(program_id)
    } else {
        run_trace(program_id, (frames - 1) as nat) + frame_spec()
    }
}

/// Every run, however many frames it renders, begins with the setup
/// commands: setup happens once, before the first frame.
pub proof fn lemma_run_begins_with_setup(program_id: u32, frames: nat)
    ensures
        run_trace(program_id, frames).len() >= setup_spec(program_id).len(),
        run_trace(program_id, frames).take(setup_spec(program_id).len() as int)
            == setup_spec(program_id),
    decreases frames,
{
    if frames > 0 {
        lemma_run_begins_with_setup(program_id, (frames - 1) as nat);
        assert(run_trace(program_id, frames).take(setup_spec(program_id).len() as int)
            =~= run_trace(program_id, (frames - 1) as nat).take(
            setup_spec(program_id).len() as int,
        ));
    } else {
        assert(run_trace(program_id, 0).take(setup_spec(program_id).len() as int)
            =~= setup_spec(program_id));
    }
}

/// However long the process runs, the vertex buffer is written exactly
/// once, during setup: the one upload stands at a fixed place in the
/// setup prefix, and no later command writes the buffer again.
pub proof fn lemma_vertex_data_uploaded_once(program_id: u32, frames: nat)
    ensures
        writes_vertex_data(run_trace(program_id, frames)[2]),
        forall|i: int|
            0 <= i < run_trace(program_id, frames).len() && writes_vertex_data(
                #[trigger] run_trace(program_id, frames)[i],
            ) ==> i == 2,
    decreases frames,
{
    if frames > 0 {
        lemma_vertex_data_uploaded_once(program_id, (frames - 1) as nat);
        let prev = run_trace(program_id, (frames - 1) as nat);
        assert forall|i: int|
            0 <= i < run_trace(program_id, frames).len() && writes_vertex_data(
                run_trace(program_id, frames)[i],
            ) implies i == 2 by {
            if i < prev.len() {
                assert(run_trace(program_id, frames)[i] == prev[i]);
            } else {
                assert(run_trace(program_id, frames)[i] == frame_spec()[i - prev.len()]);
            }
        }
    }
}

/// The fixed size of the window.
#[derive(Clone, Copy, Debug, PartialEq, Eq, Structural)]
pub struct WindowConfig {
    pub width: u32,
    pub height: u32,
}

/// The window the renderer asks for: 800 by 600.
pub fn window_config() -> (c: WindowConfig)
    ensures
        c == (WindowConfig { width: 800, height: 600 }),
{
    WindowConfig { width: 800, height: 600 }
}

/// The window's fixed title.
pub fn window_title() -> (t: &'static str)
    ensures
        t@ == "[glad] Rust - OpenGL with GLFW"@,
{
    "[glad] Rust - OpenGL with GLFW"
}

} // verus!
