//! Classification of graphics-API error codes for the diagnostics sink.
//!
//! The surrounding loop reads the raw error code from the graphics API
//! after the draw phase; deciding what the code means, and what to log for
//! it, is plain logic and lives here. Codes follow the OpenGL numbering.

use vstd::prelude::*;

verus! {

/// The error conditions the graphics API can report after a draw, plus
/// `NoError` for the quiet case and `Unknown` for codes outside the
/// catalogue.
#[derive(Clone, Copy, Debug, PartialEq, Eq, Structural)]
pub enum GlError {
    NoError,
    InvalidEnum,
    InvalidValue,
    InvalidOperation,
    StackOverflow,
    StackUnderflow,
    OutOfMemory,
    InvalidFramebufferOperation,
    ContextLost,
    Unknown,
}

/// Which error a raw code denotes: zero is the quiet case, the catalogued
/// codes map to their conditions, anything else is unknown.
pub open spec fn classify_spec(code: u32) -> GlError {
    if code == 0 {
        GlError::NoError
    } else if code == 0x0500 {
        GlError::InvalidEnum
    } else if code == 0x0501 {
        GlError::InvalidValue
    } else if code == 0x0502 {
        GlError::InvalidOperation
    } else if code == 0x0503 {
        GlError::StackOverflow
    } else if code == 0x0504 {
        GlError::StackUnderflow
    } else if code == 0x0505 {
        GlError::OutOfMemory
    } else if code == 0x0506 {
        GlError::InvalidFramebufferOperation
    } else if code == 0x0507 {
        GlError::ContextLost
    } else {
        GlError::Unknown
    }
}

impl GlError {
    /// Classify a raw error code.
    pub fn classify(code: u32) -> (e: GlError)
        ensures
            e == classify_spec(code),
    {
        if code == 0 {
            GlError::NoError
        } else if code == 0x0500 {
            GlError::InvalidEnum
        } else if code == 0x0501 {
            GlError::InvalidValue
        } else if code == 0x0502 {
            GlError::InvalidOperation
        } else if code == 0x0503 {
            GlError::StackOverflow
        } else if code == 0x0504 {
            GlError::StackUnderflow
        } else if code == 0x0505 {
            GlError::OutOfMemory
        } else if code == 0x0506 {
            GlError::InvalidFramebufferOperation
        } else if code == 0x0507 {
            GlError::ContextLost
        } else {
            GlError::Unknown
        }
    }

    /// Whether the condition is worth logging: everything but the quiet
    /// case.
    pub fn is_reportable(&self) -> (r: bool)
        ensures
            r == !(*self matches GlError::NoError),
    {
        !matches!(self, GlError::NoError)
    }

    /// The diagnostic line logged for this condition.
    pub fn label(&self) -> (s: &'static str)
        ensures
            (*self matches GlError::NoError) ==> s@ == "GL_NO_ERROR"@,
            (*self matches GlError::InvalidEnum) ==> s@
                == "GL_INVALID_ENUM: Enumeration parameter is not a legal enumeration!"@,
            (*self matches GlError::InvalidValue) ==> s@
                == "GL_INVALID_VALUE: Value parameter is not a legal value for that function!"@,
            (*self matches GlError::InvalidOperation) ==> s@
                == "GL_INVALID_OPERATION: Illegal state for that command!"@,
            (*self matches GlError::StackOverflow) ==> s@ == "GL_STACK_OVERFLOW"@,
            (*self matches GlError::StackUnderflow) ==> s@ == "GL_STACK_UNDERFLOW"@,
            (*self matches GlError::OutOfMemory) ==> s@ == "GL_OUT_OF_MEMORY"@,
            (*self matches GlError::InvalidFramebufferOperation) ==> s@
                == "GL_INVALID_FRAMEBUFFER_OPERATION"@,
            (*self matches GlError::ContextLost) ==> s@ == "GL_CONTEXT_LOST"@,
            (*self matches GlError::Unknown) ==> s@ == "Unknown Error"@,
    {
        match self {
            GlError::NoError => "GL_NO_ERROR",
            GlError::InvalidEnum => "GL_INVALID_ENUM: Enumeration parameter is not a legal enumeration!",
            GlError::InvalidValue => "GL_INVALID_VALUE: Value parameter is not a legal value for that function!",
            GlError::InvalidOperation => "GL_INVALID_OPERATION: Illegal state for that command!",
            GlError::StackOverflow => "GL_STACK_OVERFLOW",
            GlError::StackUnderflow => "GL_STACK_UNDERFLOW",
            GlError::OutOfMemory => "GL_OUT_OF_MEMORY",
            GlError::InvalidFramebufferOperation => "GL_INVALID_FRAMEBUFFER_OPERATION",
            GlError::ContextLost => "GL_CONTEXT_LOST",
            GlError::Unknown => "Unknown Error",
        }
    }
}

} // verus!
