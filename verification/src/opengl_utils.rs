//! The error probe: classification of the driver's error flag.
//!
//! The driver keeps a single error flag. It records the first error raised
//! since it was last queried; querying it returns the flag and clears it.
//! [`check_opengl_error`] performs that query against the modelled driver
//! state, and [`classify_error_code`] maps the driver's raw numeric codes
//! to [`GlErrorKind`] for callers that hold a code from the real driver.

use vstd::prelude::*;

use crate::driver_state::DriverState;

verus! {

/// The numeric code the driver returns when no error is pending.
pub const GL_NO_ERROR: u32 = 0;

/// Raw driver code for an invalid enumerant argument.
pub const GL_INVALID_ENUM: u32 = 0x0500;

/// Raw driver code for an out-of-range value argument.
pub const GL_INVALID_VALUE: u32 = 0x0501;

/// Raw driver code for an operation illegal in the current state.
pub const GL_INVALID_OPERATION: u32 = 0x0502;

/// Raw driver code for a command that would overflow a stack.
pub const GL_STACK_OVERFLOW: u32 = 0x0503;

/// Raw driver code for a command that would underflow a stack.
pub const GL_STACK_UNDERFLOW: u32 = 0x0504;

/// Raw driver code for memory exhaustion.
pub const GL_OUT_OF_MEMORY: u32 = 0x0505;

/// Raw driver code for an operation on an incomplete framebuffer.
pub const GL_INVALID_FRAMEBUFFER_OPERATION: u32 = 0x0506;

/// The kinds of error the driver's error flag can report.
#[derive(Clone, Copy, Debug, PartialEq, Eq, Structural)]
pub enum GlErrorKind {
    InvalidEnum,
    InvalidValue,
    InvalidOperation,
    InvalidFramebufferOperation,
    OutOfMemory,
    StackUnderflow,
    StackOverflow,
}

/// The unified error type of the library.
///
/// The raw driver surface is inconsistent about misuse — some is fatal,
/// some merely logged, some unchecked — so the library normalizes all of
/// it to one typed result. [`EngineError::is_fatal`] distinguishes
/// programmer errors at the call site from driver rejections a caller may
/// recover from.
#[derive(Clone, Copy, Debug, PartialEq, Eq, Structural)]
pub enum EngineError {
    /// A buffer was constructed over no data: a programmer error.
    EmptyBufferData,
    /// An index buffer was constructed over floating-point elements: a
    /// programmer error.
    FloatIndexElement,
    /// A uniform was set through a name never registered with the program:
    /// a programmer error.
    UnregisteredUniform,
    /// An attribute descriptor was requested at a storage position the
    /// vertex array does not hold.
    AttribIndexOutOfRange,
    /// The driver rejected the operation and raised its error flag.
    Driver(GlErrorKind),
}

impl EngineError {
    /// Whether the error marks a programmer error at the call site, as
    /// opposed to a driver rejection.
    pub open spec fn spec_is_fatal(self) -> bool {
        match self {
            EngineError::EmptyBufferData => true,
            EngineError::FloatIndexElement => true,
            EngineError::UnregisteredUniform => true,
            EngineError::AttribIndexOutOfRange => false,
            EngineError::Driver(_) => false,
        }
    }

    /// Whether the error marks a programmer error at the call site.
    pub fn is_fatal(&self) -> (r: bool)
        ensures
            r == self.spec_is_fatal(),
    {
        match self {
            EngineError::EmptyBufferData => true,
            EngineError::FloatIndexElement => true,
            EngineError::UnregisteredUniform => true,
            EngineError::AttribIndexOutOfRange => false,
            EngineError::Driver(_) => false,
        }
    }
}

/// The classification [`classify_error_code`] computes.
pub open spec fn spec_classify_error_code(code: u32) -> Option<GlErrorKind> {
    if code == GL_INVALID_ENUM {
        Some(GlErrorKind::InvalidEnum)
    } else if code == GL_INVALID_VALUE {
        Some(GlErrorKind::InvalidValue)
    } else if code == GL_INVALID_OPERATION {
        Some(GlErrorKind::InvalidOperation)
    } else if code == GL_INVALID_FRAMEBUFFER_OPERATION {
        Some(GlErrorKind::InvalidFramebufferOperation)
    } else if code == GL_OUT_OF_MEMORY {
        Some(GlErrorKind::OutOfMemory)
    } else if code == GL_STACK_UNDERFLOW {
        Some(GlErrorKind::StackUnderflow)
    } else if code == GL_STACK_OVERFLOW {
        Some(GlErrorKind::StackOverflow)
    } else {
        None
    }
}

/// Classifies a raw error code as the driver documents them. Codes the
/// driver never returns (including the no-error code) classify as `None`.
pub fn classify_error_code(code: u32) -> (r: Option<GlErrorKind>)
    ensures
        r == spec_classify_error_code(code),
{
    if code == GL_INVALID_ENUM {
        Some(GlErrorKind::InvalidEnum)
    } else if code == GL_INVALID_VALUE {
        Some(GlErrorKind::InvalidValue)
    } else if code == GL_INVALID_OPERATION {
        Some(GlErrorKind::InvalidOperation)
    } else if code == GL_INVALID_FRAMEBUFFER_OPERATION {
        Some(GlErrorKind::InvalidFramebufferOperation)
    } else if code == GL_OUT_OF_MEMORY {
        Some(GlErrorKind::OutOfMemory)
    } else if code == GL_STACK_UNDERFLOW {
        Some(GlErrorKind::StackUnderflow)
    } else if code == GL_STACK_OVERFLOW {
        Some(GlErrorKind::StackOverflow)
    } else {
        None
    }
}

/// Queries the driver's error flag: the pending error, if any, is returned
/// and the flag is cleared. Nothing else of the driver state changes.
pub fn check_opengl_error(st: &mut DriverState) -> (r: Option<GlErrorKind>)
    ensures
        r == old(st).error_flag,
        *final(st) == (DriverState { error_flag: None, ..*old(st) }),
{
    let pending = st.error_flag;
    st.error_flag = None;
    pending
}

/// The error probe with its checking behaviour as an explicit, named
/// toggle. Compiling the check only into debug builds would skip it
/// silently in release builds; making the choice a value the front end
/// sets once keeps it visible, and a disabled probe provably touches
/// nothing.
#[derive(Clone, Copy, Debug, PartialEq, Eq, Structural)]
pub struct ErrorProbe {
    pub enabled: bool,
}

impl ErrorProbe {
    /// Builds the probe with checking switched on or off.
    pub fn new(enabled: bool) -> (p: ErrorProbe)
        ensures
            p.enabled == enabled,
    {
        ErrorProbe { enabled }
    }

    /// Diagnostic-only check: with checking enabled, queries and clears the
    /// driver's error flag; disabled, it does nothing at all. It never
    /// raises.
    pub fn check(&self, st: &mut DriverState) -> (r: Option<GlErrorKind>)
        ensures
            self.enabled ==> r == old(st).error_flag && *final(st) == (DriverState {
                error_flag: None,
                ..*old(st)
            }),
            !self.enabled ==> r is None && *final(st) == *old(st),
    {
        if self.enabled {
            check_opengl_error(st)
        } else {
            None
        }
    }
}

} // verus!
