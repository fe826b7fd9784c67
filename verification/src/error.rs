//! The error taxonomy of the updater: one flat enum, each variant naming the
//! step at which an update run aborts.

use vstd::prelude::*;

verus! {

/// Why a manifest document (or a digest string inside one) was rejected.
#[derive(Clone, Copy, Debug, PartialEq, Eq, Structural)]
pub enum ManifestFault {
    /// The top-level JSON value is not an object.
    TopLevelNotObject,
    /// A per-file entry is not an object.
    EntryNotObject,
    /// The `only` key is missing from an entry.
    MissingOnly,
    /// The `only` value is not an array.
    OnlyNotArray,
    /// An element of `only` is not a string.
    ArchNotString,
    /// The `dl` key is missing from an entry.
    MissingDl,
    /// The `dl` value is not a string.
    DlNotString,
    /// The `compHash` key is missing from an entry.
    MissingCompHash,
    /// The `compHash` value is not a string.
    CompHashNotString,
    /// The `hash` key is missing from an entry.
    MissingHash,
    /// The `hash` value is not a string.
    HashNotString,
    /// The `patches` key is missing or its value is not an object.
    PatchesNotObject,
    /// A value inside `patches` is not an object.
    PatchEntryNotObject,
    /// The `filename` key is missing from a patch descriptor, or its value
    /// is not a string.
    MissingPatchFilename,
    /// The `compPatchHash` key is missing from a patch descriptor.
    MissingCompPatchHash,
    /// The `compPatchHash` value is not a string.
    CompPatchHashNotString,
    /// The `patchHash` key is missing from a patch descriptor.
    MissingPatchHash,
    /// The `patchHash` value is not a string.
    PatchHashNotString,
    /// A digest string is not exactly 40 characters long.
    HexBadLength,
    /// A digest string holds a character that is not a hex digit.
    HexBadChar,
}

/// Every way an update run can fail, surfaced on first error.
#[derive(Clone, Copy, Debug, PartialEq, Eq, Structural)]
pub enum Error {
    /// The manifest request failed at the transport level.
    ManifestRequestError,
    /// The manifest request returned a non-2xx status.
    ManifestRequestStatusError(u16),
    /// The manifest body is not valid JSON.
    DeserializeError,
    /// The manifest JSON does not have the expected shape.
    BadManifestFormat(ManifestFault),
    /// An artifact request failed at the transport level.
    DownloadRequestError,
    /// An artifact request returned a non-2xx status.
    DownloadRequestStatusError(u16),
    /// The response body could not be copied into a local file.
    CopyIntoFileError,
    /// A file could not be opened or created: permission denied.
    PermissionDenied,
    /// A file could not be opened or created for another reason.
    UnknownIoError,
    /// A read came up short (a patch blob shorter than its 32-byte header).
    FileReadError,
    /// A read failed partway through a file.
    FileReadFailure,
    /// A write failed.
    FileWriteError,
    /// The atomic rename over the target failed.
    FileRenameError,
    /// A seek failed.
    SeekError,
    /// A bzip2 stream failed to decode, or ended before it had supplied the
    /// bytes the patch engine asked of it.
    DecodeError,
    /// The patch blob does not begin with the `BSDIFF40` magic.
    BadPatchVersion,
    /// A length field of the patch header decodes to a negative value.
    BadPatchSize,
    /// A control triple asks for bytes beyond the end of the new file; the
    /// payload says which of the two checks failed.
    PatchSanityCheckFail(u32),
}

} // verus!
