//! The shader program builder's decisions: reading the driver's compile
//! and link status reports, and deciding whether startup may go on.
//!
//! The driver compiles each stage and links the program; it then hands
//! the reported status values to this module, which alone decides
//! between a linked program and a fatal build error.

use vstd::prelude::*;

verus! {

/// A shader pipeline stage.
#[derive(Clone, Copy, Debug, PartialEq, Eq, Structural)]
pub enum Stage {
    Vertex,
    Fragment,
}

/// Why the shader program build failed.
#[derive(Clone, Copy, Debug, PartialEq, Eq, Structural)]
pub enum BuildError {
    /// A stage's source did not compile.
    CompileFailed { stage: Stage },
    /// The compiled stages did not link into a program.
    LinkFailed,
}

/// The handle of a successfully linked shader program.
#[derive(Clone, Copy, Debug, PartialEq, Eq, Structural)]
pub struct LinkedProgram {
    pub id: u32,
}

/// How the graphics driver reports a compile or link status: zero means
/// failure, any nonzero value means success.
pub open spec fn status_ok(status: i32) -> bool {
    status != 0
}

/// Accept or reject one stage's reported compile status. Succeeds
/// exactly when the driver reported success; a failure names the stage.
pub fn check_compile_status(stage: Stage, status: i32) -> (r: Result<(), BuildError>)
    ensures
        r is Ok <==> status_ok(status),
        r is Err ==> r->Err_0 == (BuildError::CompileFailed { stage }),
{
    if status != 0 {
        Ok(())
    } else {
        Err(BuildError::CompileFailed { stage })
    }
}

/// Accept or reject the reported link status. Succeeds exactly when the
/// driver reported success.
pub fn check_link_status(status: i32) -> (r: Result<(), BuildError>)
    ensures
        r is Ok <==> status_ok(status),
        r is Err ==> r->Err_0 == BuildError::LinkFailed,
{
    if status != 0 {
        Ok(())
    } else {
        Err(BuildError::LinkFailed)
    }
}

/// What the whole build decides, given the three reported statuses and
/// the program handle the driver created: the linked program when every
/// status reports success, else the first failure in build order.
pub open spec fn build_outcome_spec(
    vertex_status: i32,
    fragment_status: i32,
    link_status: i32,
    program_id: u32,
) -> Result<LinkedProgram, BuildError> {
    if !status_ok(vertex_status) {
        Err(BuildError::CompileFailed { stage: Stage::Vertex })
    } else if !status_ok(fragment_status) {
        Err(BuildError::CompileFailed { stage: Stage::Fragment })
    } else if !status_ok(link_status) {
        Err(BuildError::LinkFailed)
    } else {
        Ok(LinkedProgram { id: program_id })
    }
}

/// Decide the outcome of the shader program build. A `LinkedProgram`
/// exists only through this decision, so a build in which any stage or
/// the link failed yields an error and no program at all.
pub fn build_outcome(
    vertex_status: i32,
    fragment_status: i32,
    link_status: i32,
    program_id: u32,
) -> (r: Result<LinkedProgram, BuildError>)
    ensures
        r == build_outcome_spec(vertex_status, fragment_status, link_status, program_id),
        r is Ok <==> status_ok(vertex_status) && status_ok(fragment_status) && status_ok(
            link_status,
        ),
{
    let vertex_check = check_compile_status(Stage::Vertex, vertex_status);
    if let Err(e) = vertex_check {
        return Err(e);
    }
    let fragment_check = check_compile_status(Stage::Fragment, fragment_status);
    if let Err(e) = fragment_check {
        return Err(e);
    }
    let link_check = check_link_status(link_status);
    if let Err(e) = link_check {
        return Err(e);
    }
    Ok(LinkedProgram { id: program_id })
}

/// With valid shader sources the driver reports success everywhere, and
/// the build then produces the linked program handle, never an error.
pub proof fn lemma_valid_sources_link(
    vertex_status: i32,
    fragment_status: i32,
    link_status: i32,
    program_id: u32,
)
    requires
        status_ok(vertex_status),
        status_ok(fragment_status),
        status_ok(link_status),
    ensures
        build_outcome_spec(vertex_status, fragment_status, link_status, program_id)
            == Ok::<LinkedProgram, BuildError>(LinkedProgram { id: program_id }),
{
}

/// Any reported failure aborts the build: no linked program is produced,
/// so nothing downstream of the build can start from a failed compile.
pub proof fn lemma_failed_build_yields_no_program(
    vertex_status: i32,
    fragment_status: i32,
    link_status: i32,
    program_id: u32,
)
    requires
        !status_ok(vertex_status) || !status_ok(fragment_status) || !status_ok(link_status),
    ensures
        build_outcome_spec(vertex_status, fragment_status, link_status, program_id) is Err,
{
}

} // verus!
