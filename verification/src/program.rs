//! Decision logic of the shader-program lifecycle.
//!
//! The GPU calls themselves (create, compile, link, lookup) happen at the
//! host boundary; these functions classify their plain outcomes into the
//! distinct failure modes of [`RenderError`], exactly as the program
//! constructor requires: per-stage compile failures carry the stage name and
//! diagnostic log, link failures the log, and binding lookups fail by name.

use crate::error::RenderError;
use vstd::prelude::*;

verus! {

/// GL enumerant for a vertex shader stage.
pub const VERTEX_SHADER_TYPE: u32 = 35633;

/// GL enumerant for a fragment shader stage.
pub const FRAGMENT_SHADER_TYPE: u32 = 35632;

/// The name of a shader stage enumerant.
pub open spec fn spec_shader_type_name(shader_type: u32) -> Seq<char> {
    if shader_type == VERTEX_SHADER_TYPE {
        "vertex"@
    } else if shader_type == FRAGMENT_SHADER_TYPE {
        "fragment"@
    } else {
        "unknown"@
    }
}

/// Names a shader stage enumerant: "vertex", "fragment", or "unknown".
pub fn shader_type_name(shader_type: u32) -> (r: String)
    ensures
        r@ == spec_shader_type_name(shader_type),
{
    if shader_type == VERTEX_SHADER_TYPE {
        "vertex".to_owned()
    } else if shader_type == FRAGMENT_SHADER_TYPE {
        "fragment".to_owned()
    } else {
        "unknown".to_owned()
    }
}

/// Classifies the outcome of compiling one shader stage.
///
/// `created` says whether the stage object could be created at all, `status`
/// whether compilation succeeded, and `log` is the diagnostic log, if one
/// was available. Succeeds exactly when the stage was created and compiled.
pub fn compile_shader_outcome(shader_type: u32, created: bool, status: bool, log: Option<String>)
    -> (r: Result<(), RenderError>)
    ensures
        !created ==> (r matches Err(e) && e matches RenderError::ShaderCompilationFailed {
            shader_type: st, log: l } && st@ == spec_shader_type_name(shader_type) && l@
            == "Failed to create shader"@),
        created && status ==> r == Ok::<(), RenderError>(()),
        created && !status ==> (r matches Err(e) && e matches
            RenderError::ShaderCompilationFailed { shader_type: st, log: l } && st@
            == spec_shader_type_name(shader_type) && (log matches Some(lg) ==> l == lg) && (
        log is None ==> l@ == "Unknown error"@)),
{
    if !created {
        return Err(
            RenderError::ShaderCompilationFailed {
                shader_type: shader_type_name(shader_type),
                log: "Failed to create shader".to_owned(),
            },
        );
    }
    if status {
        return Ok(());
    }
    let l = match log {
        Some(lg) => lg,
        None => "Unknown error".to_owned(),
    };
    Err(RenderError::ShaderCompilationFailed { shader_type: shader_type_name(shader_type), log: l })
}

/// Classifies the outcome of linking a program.
///
/// `created` says whether the program object could be created at all,
/// `status` whether linking succeeded, and `log` is the diagnostic log, if
/// one was available. Succeeds exactly when the program was created and
/// linked.
pub fn link_program_outcome(created: bool, status: bool, log: Option<String>) -> (r: Result<
    (),
    RenderError,
>)
    ensures
        !created ==> (r matches Err(e) && e matches RenderError::ProgramLinkingFailed { log: l }
            && l@ == "Failed to create program"@),
        created && status ==> r == Ok::<(), RenderError>(()),
        created && !status ==> (r matches Err(e) && e matches RenderError::ProgramLinkingFailed {
            log: l } && (log matches Some(lg) ==> l == lg) && (log is None ==> l@
            == "Unknown error"@)),
{
    if !created {
        return Err(
            RenderError::ProgramLinkingFailed { log: "Failed to create program".to_owned() },
        );
    }
    if status {
        return Ok(());
    }
    let l = match log {
        Some(lg) => lg,
        None => "Unknown error".to_owned(),
    };
    Err(RenderError::ProgramLinkingFailed { log: l })
}

/// Turns the result of a uniform lookup into a binding or the dedicated
/// not-found error carrying the uniform's name.
pub fn resolve_uniform_location<T>(location: Option<T>, name: &str) -> (r: Result<T, RenderError>)
    ensures
        location matches Some(t) ==> (r matches Ok(v) && v == t),
        location is None ==> (r matches Err(e) && e matches
            RenderError::UniformLocationNotFound { name: nm } && nm@ == name@),
{
    match location {
        Some(t) => Ok(t),
        None => Err(RenderError::UniformLocationNotFound { name: name.to_owned() }),
    }
}

} // verus!
