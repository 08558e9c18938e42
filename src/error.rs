use vstd::prelude::*;

verus! {

/// Result of every fallible operation of the library.
pub type BtResult<T> = Result<T, Error>;

/// Errors surfaced by the library.
#[derive(Clone, PartialEq, Eq, Debug)]
pub enum Error {
    /// A non-zero status returned by the trace engine, kept for diagnostics.
    Failure(isize),
    /// The engine handed back no resource where one was expected.
    ResourceBorrow,
    /// The engine could not allocate an object.
    Memory,
    /// A file-system source needs at least one input path.
    CtfSourceRequiresInputs,
    /// The source exposes no output port (the input holds no stream).
    CtfSourceMissingOutputPorts,
    /// The proxy sink exposes no input port.
    ProxySinkMissingInputPort,
    /// A string handed over by the engine is not valid UTF-8.
    Utf8Error,
    /// A UUID handed over by the engine does not have sixteen bytes.
    Uuid,
    /// A trace environment value is neither an integer nor a string.
    EnvValue,
    /// A string meant for the engine holds an interior NUL byte.
    NulError,
    NonExistentMetadataPath(String),
    MetadataPathNotFile(String),
    MetadataFileOpen(String),
    CtfMetadataDecoderCreate,
    CtfMetadataDecoderStatus(isize),
    CtfMessageIterCreate,
    PluginError(String),
}

/// What an engine status code means: zero is success, anything else is a
/// failure that carries the code.
pub open spec fn capi_status(code: i32) -> BtResult<()> {
    if code == 0 {
        Ok(())
    } else {
        Err(Error::Failure(code as isize))
    }
}

/// Turns an engine status code into a result.
pub trait BtResultExt: Sized {
    fn capi_result(self) -> (r: BtResult<()>);
}

impl BtResultExt for i32 {
    fn capi_result(self) -> (r: BtResult<()>)
        ensures
            r == capi_status(self),
    {
        if self == 0 {
            Ok(())
        } else {
            Err(Error::Failure(self as isize))
        }
    }
}

} // verus!
