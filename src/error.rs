use vstd::prelude::*;

verus! {

/// Every way in which creating or opening a segment can fail.
///
/// Where an operating-system call failed, the variant carries its error code
/// (0 when the system gave none).
#[derive(Clone, Copy, Debug, PartialEq, Eq, Structural)]
pub enum ShmemError {
    /// The requested size is zero.
    MapSizeZero,
    /// Opening needs an identifier or a reference file, and neither was given.
    NoLinkOrOsId,
    /// The reference file could not be created.
    LinkCreateFailed(u32),
    /// The identifier could not be written into the reference file.
    LinkWriteFailed(u32),
    /// The reference file already exists and overwriting was not requested.
    LinkExists,
    /// The reference file could not be opened.
    LinkOpenFailed(u32),
    /// The reference file could not be read.
    LinkReadFailed(u32),
    /// A region with this identifier already exists.
    MappingIdExists,
    /// The region could not be created or mapped.
    MapCreateFailed(u32),
    /// The region could not be opened or mapped.
    MapOpenFailed(u32),
    /// Any other failure reported by the operating system.
    UnknownOsError(u32),
    /// A file-backed path was asked for while file-backed mode is off.
    NotInTmpfsMode,
    /// File-backed mode is on but has no base directory.
    NoTmpfsBaseDir,
}

impl ShmemError {
    /// Whether this failure means that the identifier is taken.
    pub fn is_id_taken(&self) -> (r: bool)
        ensures
            r == (*self == ShmemError::MappingIdExists),
    {
        matches!(self, ShmemError::MappingIdExists)
    }

    /// Whether this failure is an "open failed" one, the kind that a
    /// reader racing a writer of the reference file may see.
    pub fn is_open_failure(&self) -> (r: bool)
        ensures
            r == (*self is MapOpenFailed),
    {
        matches!(self, ShmemError::MapOpenFailed(_))
    }
}

} // verus!
