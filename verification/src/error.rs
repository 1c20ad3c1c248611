//! Error types of the rendering core.
//!
//! Resource-creation failures are fatal to the operation that attempted
//! them and bubble up to the caller; a missing image is never an error at
//! draw time — it is absorbed per instance and reflected in the metrics.

use vstd::prelude::*;

verus! {

/// A failure reported by the platform, such as the driver refusing to
/// create a GPU object.
#[derive(Debug)]
pub enum NikoError {
    /// The platform refused an operation; the payload carries its message.
    PlatformError(String),
}

impl NikoError {
    /// The message carried by this error.
    pub fn message(&self) -> (m: &str)
        ensures
            m@ == self->PlatformError_0@,
    {
        match self {
            NikoError::PlatformError(s) => s.as_str(),
        }
    }
}

/// A violation of the shader/program contract; fatal to the draw call that
/// discovered it, never retried.
#[derive(Debug)]
pub enum ShaderError {
    /// The shader source failed to compile; the payload carries the log.
    ShaderCompileError(String),
    /// The active shader lacks an attribute with the given name.
    AttributeNotFound(String),
    /// The active shader lacks a uniform with the given name.
    UniformNotFound(String),
}

impl ShaderError {
    /// The name or log carried by this error.
    pub fn detail(&self) -> (m: &str)
        ensures
            self is ShaderCompileError ==> m@ == self->ShaderCompileError_0@,
            self is AttributeNotFound ==> m@ == self->AttributeNotFound_0@,
            self is UniformNotFound ==> m@ == self->UniformNotFound_0@,
    {
        match self {
            ShaderError::ShaderCompileError(s) => s.as_str(),
            ShaderError::AttributeNotFound(s) => s.as_str(),
            ShaderError::UniformNotFound(s) => s.as_str(),
        }
    }
}

/// The error codes the GPU API can report after a command.
#[derive(Debug, Copy, Clone, Eq, PartialEq, Structural)]
pub enum WebGLError {
    /// An unacceptable value was specified for an enumerated argument.
    InvalidEnum,
    /// A numeric argument is out of range.
    InvalidValue,
    /// The specified command is not allowed for the current state.
    InvalidOperation,
    /// The currently bound framebuffer is not complete.
    InvalidFramebufferOperation,
    /// Not enough memory is left to execute the command.
    OutOfMemory,
    /// The context was lost.
    ContextLost,
    /// An unknown error occurred.
    Unknown,
}

/// The code the GPU API reports when no error is pending.
pub const GL_NO_ERROR: u32 = 0;

/// The code for an invalid enumerated argument.
pub const GL_INVALID_ENUM: u32 = 0x0500;

/// The code for an out-of-range numeric argument.
pub const GL_INVALID_VALUE: u32 = 0x0501;

/// The code for a command not allowed in the current state.
pub const GL_INVALID_OPERATION: u32 = 0x0502;

/// The code for an operation on an incomplete framebuffer.
pub const GL_INVALID_FRAMEBUFFER_OPERATION: u32 = 0x0506;

/// The code for running out of memory.
pub const GL_OUT_OF_MEMORY: u32 = 0x0505;

/// The code a lost context reports once.
pub const GL_CONTEXT_LOST: u32 = 0x9242;

/// Classifies an error code read back from the GPU API: the no-error code
/// passes, every other code maps to its [`WebGLError`].
pub fn check_error_code(code: u32) -> (r: Result<(), WebGLError>)
    ensures
        code == GL_NO_ERROR <==> r is Ok,
        code == GL_INVALID_ENUM ==> r == Err::<(), WebGLError>(WebGLError::InvalidEnum),
        code == GL_INVALID_VALUE ==> r == Err::<(), WebGLError>(WebGLError::InvalidValue),
        code == GL_INVALID_OPERATION ==> r == Err::<(), WebGLError>(WebGLError::InvalidOperation),
        code == GL_INVALID_FRAMEBUFFER_OPERATION
            ==> r == Err::<(), WebGLError>(WebGLError::InvalidFramebufferOperation),
        code == GL_OUT_OF_MEMORY ==> r == Err::<(), WebGLError>(WebGLError::OutOfMemory),
        code == GL_CONTEXT_LOST ==> r == Err::<(), WebGLError>(WebGLError::ContextLost),
        code != GL_NO_ERROR && code != GL_INVALID_ENUM && code != GL_INVALID_VALUE
            && code != GL_INVALID_OPERATION && code != GL_INVALID_FRAMEBUFFER_OPERATION
            && code != GL_OUT_OF_MEMORY && code != GL_CONTEXT_LOST
            ==> r == Err::<(), WebGLError>(WebGLError::Unknown),
{
    if code == GL_NO_ERROR {
        Ok(())
    } else if code == GL_INVALID_ENUM {
        Err(WebGLError::InvalidEnum)
    } else if code == GL_INVALID_VALUE {
        Err(WebGLError::InvalidValue)
    } else if code == GL_INVALID_OPERATION {
        Err(WebGLError::InvalidOperation)
    } else if code == GL_INVALID_FRAMEBUFFER_OPERATION {
        Err(WebGLError::InvalidFramebufferOperation)
    } else if code == GL_OUT_OF_MEMORY {
        Err(WebGLError::OutOfMemory)
    } else if code == GL_CONTEXT_LOST {
        Err(WebGLError::ContextLost)
    } else {
        Err(WebGLError::Unknown)
    }
}

} // verus!
