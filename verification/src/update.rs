//! The update driver, as two state machines.
//!
//! Every decision of an update run — skip an entry, trust a matching digest,
//! patch, re-download, retry, abort — is taken here, in verified code. The
//! I/O those decisions call for (an HTTP GET, hashing a file on disk,
//! extracting an artifact, applying a patch and renaming it into place) is
//! issued as an [`DlOp`] or [`FileOp`] value to an unverified host loop,
//! which performs it and feeds the outcome back as the next event.
//!
//! [`DownloadTask`] is one download-verify-extract cycle with retries, as
//! one compressed artifact is fetched, checked against its digest, extracted
//! and checked again. [`FileTask`] is the whole life of one manifest entry:
//! the architecture filter, the inspection of the installed file, the choice
//! between leaving it, patching it and re-downloading it.

use vstd::prelude::*;
use vstd::slice::slice_to_vec;

use crate::error::Error;
use crate::manifest::{
    arch_supported, entry_arch_check, entry_fields, entry_fields_spec, find_patch,
    find_patch_spec, manifest_hash, manifest_hash_spec, patches_fields, patches_fields_spec,
    scratch_params, scratch_params_spec, Json,
};
use crate::sha::bytes_eq;

verus! {

/// How many times a download is attempted before the driver gives up and
/// carries on with the run.
pub open spec fn max_download_tries() -> int {
    5
}

/// Where one download-verify-extract cycle stands.
#[derive(Clone, Copy, PartialEq, Eq, Structural)]
pub enum DlPhase {
    /// The compressed artifact was asked for.
    Fetching,
    /// The fetched artifact's digest was asked for.
    CheckingComp,
    /// The extraction of the artifact was asked for.
    Extracting,
    /// The extracted artifact's digest was asked for.
    CheckingDecomp,
    /// The cycle is over; no further event is taken.
    Done,
}

/// What an HTTP GET came to, as the host reports it.
#[derive(Clone, Copy, PartialEq, Eq, Structural)]
pub enum FetchOutcome {
    /// The request failed before any status was seen.
    TransportError,
    /// The destination file could not be created; the payload says whether
    /// permission was denied.
    CreateFailed(bool),
    /// The response body could not be copied into the destination file.
    CopyFailed,
    /// The response carried this status; for a 2xx status its body stands
    /// in the asked-for file.
    Status(u16),
}

/// The outcome of the I/O a [`DownloadTask`] last asked for.
pub enum DlEvent {
    /// The fetch ended so.
    Fetched(FetchOutcome),
    /// Hashing the asked-for file yielded this digest, or failed so.
    Hashed(Result<Vec<u8>, Error>),
    /// Extracting the artifact ended so.
    Extracted(Result<(), Error>),
}

/// The spec view of a [`DlEvent`].
pub enum DlEventV {
    /// The fetch ended so.
    Fetched(FetchOutcome),
    /// Hashing yielded this digest, or failed so.
    Hashed(Result<Seq<u8>, Error>),
    /// Extraction ended so.
    Extracted(Result<(), Error>),
}

impl View for DlEvent {
    type V = DlEventV;

    open spec fn view(&self) -> DlEventV {
        match self {
            DlEvent::Fetched(o) => DlEventV::Fetched(*o),
            DlEvent::Hashed(r) => DlEventV::Hashed(
                match r {
                    Ok(d) => Ok(d@),
                    Err(e) => Err(*e),
                },
            ),
            DlEvent::Extracted(r) => DlEventV::Extracted(*r),
        }
    }
}

/// The I/O a [`DownloadTask`] asks of its host.
pub enum DlOp {
    /// GET the CDN artifact of this remote name into the cache or install
    /// directory.
    Fetch { name: Vec<u8>, to_cache: bool },
    /// Hash the file of this name in the cache or install directory.
    HashFile { name: Vec<u8>, to_cache: bool },
    /// Extract (bzip2) the compressed file into the decompressed name,
    /// both in the cache or install directory.
    Extract { comp_name: Vec<u8>, decomp_name: Vec<u8>, to_cache: bool },
    /// The cycle is over with this result; nothing more is asked.
    Finish(Result<(), Error>),
}

/// The spec view of a [`DlOp`].
pub enum DlOpV {
    /// GET this remote name.
    Fetch { name: Seq<u8>, to_cache: bool },
    /// Hash this file.
    HashFile { name: Seq<u8>, to_cache: bool },
    /// Extract this file into that name.
    Extract { comp_name: Seq<u8>, decomp_name: Seq<u8>, to_cache: bool },
    /// The cycle is over with this result.
    Finish(Result<(), Error>),
}

impl View for DlOp {
    type V = DlOpV;

    open spec fn view(&self) -> DlOpV {
        match self {
            DlOp::Fetch { name, to_cache } => DlOpV::Fetch { name: name@, to_cache: *to_cache },
            DlOp::HashFile { name, to_cache } => DlOpV::HashFile {
                name: name@,
                to_cache: *to_cache,
            },
            DlOp::Extract { comp_name, decomp_name, to_cache } => DlOpV::Extract {
                comp_name: comp_name@,
                decomp_name: decomp_name@,
                to_cache: *to_cache,
            },
            DlOp::Finish(r) => DlOpV::Finish(*r),
        }
    }
}

/// The spec view of a [`DownloadTask`].
pub struct DlState {
    /// Does the cycle work in the cache directory (else the install one)?
    pub to_cache: bool,
    /// The remote (and local) name of the compressed artifact.
    pub comp_name: Seq<u8>,
    /// The local name the extraction is written under.
    pub decomp_name: Seq<u8>,
    /// The digest the compressed artifact must have.
    pub comp_sha: Seq<u8>,
    /// The digest the extracted artifact must have.
    pub decomp_sha: Seq<u8>,
    /// How many attempts remain, the current one included.
    pub tries_left: int,
    /// Where the cycle stands.
    pub phase: DlPhase,
}

/// One download-verify-extract cycle with retries.
pub struct DownloadTask {
    /// Does the cycle work in the cache directory (else the install one)?
    pub to_cache: bool,
    /// The remote (and local) name of the compressed artifact.
    pub comp_name: Vec<u8>,
    /// The local name the extraction is written under.
    pub decomp_name: Vec<u8>,
    /// The digest the compressed artifact must have.
    pub comp_sha: Vec<u8>,
    /// The digest the extracted artifact must have.
    pub decomp_sha: Vec<u8>,
    /// How many attempts remain, the current one included.
    pub tries_left: u64,
    /// Where the cycle stands.
    pub phase: DlPhase,
}

impl View for DownloadTask {
    type V = DlState;

    open spec fn view(&self) -> DlState {
        DlState {
            to_cache: self.to_cache,
            comp_name: self.comp_name@,
            decomp_name: self.decomp_name@,
            comp_sha: self.comp_sha@,
            decomp_sha: self.decomp_sha@,
            tries_left: self.tries_left as int,
            phase: self.phase,
        }
    }
}

/// Does the event answer what the cycle last asked for?
pub open spec fn dl_event_fits(phase: DlPhase, ev: DlEventV) -> bool {
    match (phase, ev) {
        (DlPhase::Fetching, DlEventV::Fetched(_)) => true,
        (DlPhase::CheckingComp, DlEventV::Hashed(_)) => true,
        (DlPhase::Extracting, DlEventV::Extracted(_)) => true,
        (DlPhase::CheckingDecomp, DlEventV::Hashed(_)) => true,
        _ => false,
    }
}

/// The same cycle, over.
pub open spec fn dl_done(s: DlState) -> DlState {
    DlState {
        to_cache: s.to_cache,
        comp_name: s.comp_name,
        decomp_name: s.decomp_name,
        comp_sha: s.comp_sha,
        decomp_sha: s.decomp_sha,
        tries_left: s.tries_left,
        phase: DlPhase::Done,
    }
}

/// The same cycle, at `phase`, with `tries_left` attempts remaining.
pub open spec fn dl_at(s: DlState, phase: DlPhase, tries_left: int) -> DlState {
    DlState {
        to_cache: s.to_cache,
        comp_name: s.comp_name,
        decomp_name: s.decomp_name,
        comp_sha: s.comp_sha,
        decomp_sha: s.decomp_sha,
        tries_left: tries_left,
        phase: phase,
    }
}

/// One transition of the download cycle: what the event makes of the state,
/// and what is asked for next.
///
/// A transport error or a non-2xx status is fatal at once. A digest
/// mismatch — of the compressed artifact or of its extraction — spends one
/// attempt: with attempts left the same name is fetched again, and with
/// none left the cycle ends *successfully*: the mismatch surfaces only in
/// whatever is later made of the file, a quirk this driver keeps
/// deliberately. An I/O failure while hashing or extracting is fatal.
pub open spec fn dl_step_spec(s: DlState, ev: DlEventV) -> (DlState, DlOpV)
    recommends
        dl_event_fits(s.phase, ev),
{
    match (s.phase, ev) {
        (DlPhase::Fetching, DlEventV::Fetched(out)) => match out {
            FetchOutcome::TransportError => (
                dl_done(s),
                DlOpV::Finish(Err(Error::DownloadRequestError)),
            ),
            FetchOutcome::CreateFailed(permission) => (
                dl_done(s),
                DlOpV::Finish(
                    Err(
                        if permission {
                            Error::PermissionDenied
                        } else {
                            Error::UnknownIoError
                        },
                    ),
                ),
            ),
            FetchOutcome::CopyFailed => (
                dl_done(s),
                DlOpV::Finish(Err(Error::CopyIntoFileError)),
            ),
            FetchOutcome::Status(code) => if !(200 <= code < 300) {
                (dl_done(s), DlOpV::Finish(Err(Error::DownloadRequestStatusError(code))))
            } else {
                (
                    dl_at(s, DlPhase::CheckingComp, s.tries_left),
                    DlOpV::HashFile { name: s.comp_name, to_cache: s.to_cache },
                )
            },
        },
        (DlPhase::CheckingComp, DlEventV::Hashed(res)) => match res {
            Err(e) => (dl_done(s), DlOpV::Finish(Err(e))),
            Ok(d) => if d == s.comp_sha {
                (
                    dl_at(s, DlPhase::Extracting, s.tries_left),
                    DlOpV::Extract {
                        comp_name: s.comp_name,
                        decomp_name: s.decomp_name,
                        to_cache: s.to_cache,
                    },
                )
            } else if s.tries_left <= 1 {
                (dl_done(s), DlOpV::Finish(Ok(())))
            } else {
                (
                    dl_at(s, DlPhase::Fetching, s.tries_left - 1),
                    DlOpV::Fetch { name: s.comp_name, to_cache: s.to_cache },
                )
            },
        },
        (DlPhase::Extracting, DlEventV::Extracted(res)) => match res {
            Err(e) => (dl_done(s), DlOpV::Finish(Err(e))),
            Ok(_) => (
                dl_at(s, DlPhase::CheckingDecomp, s.tries_left),
                DlOpV::HashFile { name: s.decomp_name, to_cache: s.to_cache },
            ),
        },
        (DlPhase::CheckingDecomp, DlEventV::Hashed(res)) => match res {
            Err(e) => (dl_done(s), DlOpV::Finish(Err(e))),
            Ok(d) => if d == s.decomp_sha {
                (dl_done(s), DlOpV::Finish(Ok(())))
            } else if s.tries_left <= 1 {
                (dl_done(s), DlOpV::Finish(Ok(())))
            } else {
                (
                    dl_at(s, DlPhase::Fetching, s.tries_left - 1),
                    DlOpV::Fetch { name: s.comp_name, to_cache: s.to_cache },
                )
            },
        },
        _ => (s, DlOpV::Finish(Err(Error::UnknownIoError))),
    }
}

impl DownloadTask {
    /// Begins one download cycle: the first attempt is asked for at once.
    pub fn new(
        to_cache: bool,
        comp_name: Vec<u8>,
        decomp_name: Vec<u8>,
        comp_sha: Vec<u8>,
        decomp_sha: Vec<u8>,
        tries: u64,
    ) -> (r: (DownloadTask, DlOp))
        requires
            tries >= 1,
        ensures
            r.0@ == (DlState {
                to_cache: to_cache,
                comp_name: comp_name@,
                decomp_name: decomp_name@,
                comp_sha: comp_sha@,
                decomp_sha: decomp_sha@,
                tries_left: tries as int,
                phase: DlPhase::Fetching,
            }),
            r.1@ == (DlOpV::Fetch { name: comp_name@, to_cache: to_cache }),
    {
        let op = DlOp::Fetch { name: slice_to_vec(comp_name.as_slice()), to_cache };
        let t = DownloadTask {
            to_cache,
            comp_name,
            decomp_name,
            comp_sha,
            decomp_sha,
            tries_left: tries,
            phase: DlPhase::Fetching,
        };
        (t, op)
    }

    /// Takes the outcome of the last asked-for I/O and asks for the next,
    /// exactly as [`dl_step_spec`] says.
    pub fn step(&mut self, ev: DlEvent) -> (op: DlOp)
        requires
            dl_event_fits(old(self)@.phase, ev@),
            old(self)@.tries_left >= 1,
        ensures
            (*final(self))@ == dl_step_spec(old(self)@, ev@).0,
            op@ == dl_step_spec(old(self)@, ev@).1,
            (*final(self))@.tries_left >= 1,
    {
        match ev {
            DlEvent::Fetched(out) => match out {
                FetchOutcome::TransportError => {
                    self.phase = DlPhase::Done;
                    DlOp::Finish(Err(Error::DownloadRequestError))
                },
                FetchOutcome::CreateFailed(permission) => {
                    self.phase = DlPhase::Done;
                    DlOp::Finish(
                        Err(
                            if permission {
                                Error::PermissionDenied
                            } else {
                                Error::UnknownIoError
                            },
                        ),
                    )
                },
                FetchOutcome::CopyFailed => {
                    self.phase = DlPhase::Done;
                    DlOp::Finish(Err(Error::CopyIntoFileError))
                },
                FetchOutcome::Status(code) => {
                    if !(200 <= code && code < 300) {
                        self.phase = DlPhase::Done;
                        DlOp::Finish(Err(Error::DownloadRequestStatusError(code)))
                    } else {
                        self.phase = DlPhase::CheckingComp;
                        DlOp::HashFile {
                            name: slice_to_vec(self.comp_name.as_slice()),
                            to_cache: self.to_cache,
                        }
                    }
                },
            },
            DlEvent::Hashed(res) => {
                let d = match res {
                    Err(e) => {
                        self.phase = DlPhase::Done;
                        return DlOp::Finish(Err(e));
                    },
                    Ok(d) => d,
                };
                let expected_comp = match self.phase {
                    DlPhase::CheckingComp => true,
                    _ => false,
                };
                let matches = if expected_comp {
                    bytes_eq(d.as_slice(), self.comp_sha.as_slice())
                } else {
                    bytes_eq(d.as_slice(), self.decomp_sha.as_slice())
                };
                if matches {
                    if expected_comp {
                        self.phase = DlPhase::Extracting;
                        DlOp::Extract {
                            comp_name: slice_to_vec(self.comp_name.as_slice()),
                            decomp_name: slice_to_vec(self.decomp_name.as_slice()),
                            to_cache: self.to_cache,
                        }
                    } else {
                        self.phase = DlPhase::Done;
                        DlOp::Finish(Ok(()))
                    }
                } else if self.tries_left <= 1 {
                    self.phase = DlPhase::Done;
                    DlOp::Finish(Ok(()))
                } else {
                    self.tries_left = self.tries_left - 1;
                    self.phase = DlPhase::Fetching;
                    DlOp::Fetch {
                        name: slice_to_vec(self.comp_name.as_slice()),
                        to_cache: self.to_cache,
                    }
                }
            },
            DlEvent::Extracted(res) => match res {
                Err(e) => {
                    self.phase = DlPhase::Done;
                    DlOp::Finish(Err(e))
                },
                Ok(_) => {
                    self.phase = DlPhase::CheckingDecomp;
                    DlOp::HashFile {
                        name: slice_to_vec(self.decomp_name.as_slice()),
                        to_cache: self.to_cache,
                    }
                },
            },
        }
    }
}

/// Law: a digest mismatch with attempts to spare asks for the same name to
/// be fetched again, one attempt spent; a mismatch on the last attempt ends
/// the cycle, and — deliberately — ends it without an error.
pub proof fn lemma_mismatch_refetches(s: DlState, d: Seq<u8>)
    requires
        s.phase == DlPhase::CheckingComp || s.phase == DlPhase::CheckingDecomp,
        s.phase == DlPhase::CheckingComp ==> d != s.comp_sha,
        s.phase == DlPhase::CheckingDecomp ==> d != s.decomp_sha,
    ensures
        s.tries_left > 1 ==> dl_step_spec(s, DlEventV::Hashed(Ok(d))) == (
            dl_at(s, DlPhase::Fetching, s.tries_left - 1),
            DlOpV::Fetch { name: s.comp_name, to_cache: s.to_cache },
        ),
        s.tries_left <= 1 ==> dl_step_spec(s, DlEventV::Hashed(Ok(d))) == (
            dl_done(s),
            DlOpV::Finish(Ok(())),
        ),
{
}

/// Where the life of one manifest entry stands.
pub enum FilePhase {
    /// The host was asked whether the installed file exists.
    Statting,
    /// The installed file's digest was asked for.
    HashingLocal,
    /// A full download of the entry's artifact is under way.
    DownloadingScratch(DownloadTask),
    /// A patch download is under way; the extracted patch will stand under
    /// the carried name in the cache directory.
    DownloadingPatch(DownloadTask, Vec<u8>),
    /// The patch engine was asked to run.
    Patching,
    /// The entry is dealt with; no further event is taken.
    Done,
}

/// The spec view of a [`FilePhase`].
pub enum FilePhaseV {
    /// Awaiting the stat outcome.
    Statting,
    /// Awaiting the installed file's digest.
    HashingLocal,
    /// A full download is under way.
    DownloadingScratch(DlState),
    /// A patch download is under way, its extraction to stand under the
    /// carried name.
    DownloadingPatch(DlState, Seq<u8>),
    /// Awaiting the patch engine's outcome.
    Patching,
    /// The entry is dealt with.
    Done,
}

impl View for FilePhase {
    type V = FilePhaseV;

    open spec fn view(&self) -> FilePhaseV {
        match self {
            FilePhase::Statting => FilePhaseV::Statting,
            FilePhase::HashingLocal => FilePhaseV::HashingLocal,
            FilePhase::DownloadingScratch(d) => FilePhaseV::DownloadingScratch(d@),
            FilePhase::DownloadingPatch(d, n) => FilePhaseV::DownloadingPatch(d@, n@),
            FilePhase::Patching => FilePhaseV::Patching,
            FilePhase::Done => FilePhaseV::Done,
        }
    }
}

/// What the host found when it tried to open the installed file.
#[derive(Clone, Copy, PartialEq, Eq, Structural)]
pub enum StatOutcome {
    /// The file exists and could be opened.
    Present,
    /// The file does not exist.
    Absent,
    /// Opening it was denied.
    PermissionDenied,
    /// Opening it failed some other way.
    OtherIo,
}

/// The outcome of the I/O a [`FileTask`] last asked for.
pub enum FileEvent {
    /// The stat of the installed file ended so.
    Stat(StatOutcome),
    /// Hashing the installed file yielded this digest, or failed so.
    LocalHashed(Result<Vec<u8>, Error>),
    /// The running download cycle's event.
    Dl(DlEvent),
    /// The patch engine ended so.
    Patched(Result<(), Error>),
}

/// The spec view of a [`FileEvent`].
pub enum FileEventV {
    /// The stat ended so.
    Stat(StatOutcome),
    /// Hashing yielded this digest, or failed so.
    LocalHashed(Result<Seq<u8>, Error>),
    /// The running download cycle's event.
    Dl(DlEventV),
    /// The patch engine ended so.
    Patched(Result<(), Error>),
}

impl View for FileEvent {
    type V = FileEventV;

    open spec fn view(&self) -> FileEventV {
        match self {
            FileEvent::Stat(o) => FileEventV::Stat(*o),
            FileEvent::LocalHashed(r) => FileEventV::LocalHashed(
                match r {
                    Ok(d) => Ok(d@),
                    Err(e) => Err(*e),
                },
            ),
            FileEvent::Dl(ev) => FileEventV::Dl(ev@),
            FileEvent::Patched(r) => FileEventV::Patched(*r),
        }
    }
}

/// The I/O a [`FileTask`] asks of its host.
pub enum FileOp {
    /// Try to open the installed file of this name.
    StatFile { name: Vec<u8> },
    /// Hash the installed file of this name.
    HashFile { name: Vec<u8> },
    /// The running download cycle's ask.
    Dl(DlOp),
    /// Run the patch engine: apply the extracted patch (in the cache
    /// directory) to the installed file of this name, replacing it
    /// atomically.
    ApplyPatch { patch_name: Vec<u8>, target_name: Vec<u8> },
    /// The entry is dealt with, with this result; nothing more is asked.
    Finish(Result<(), Error>),
}

/// The spec view of a [`FileOp`].
pub enum FileOpV {
    /// Try to open this installed file.
    StatFile { name: Seq<u8> },
    /// Hash this installed file.
    HashFile { name: Seq<u8> },
    /// The running download cycle's ask.
    Dl(DlOpV),
    /// Apply the extracted patch to this installed file.
    ApplyPatch { patch_name: Seq<u8>, target_name: Seq<u8> },
    /// The entry is dealt with, with this result.
    Finish(Result<(), Error>),
}

impl View for FileOp {
    type V = FileOpV;

    open spec fn view(&self) -> FileOpV {
        match self {
            FileOp::StatFile { name } => FileOpV::StatFile { name: name@ },
            FileOp::HashFile { name } => FileOpV::HashFile { name: name@ },
            FileOp::Dl(op) => FileOpV::Dl(op@),
            FileOp::ApplyPatch { patch_name, target_name } => FileOpV::ApplyPatch {
                patch_name: patch_name@,
                target_name: target_name@,
            },
            FileOp::Finish(r) => FileOpV::Finish(*r),
        }
    }
}

/// The spec view of a [`FileTask`].
pub struct FileTaskV {
    /// The entry's install-relative file name.
    pub file_name: Seq<u8>,
    /// The entry's manifest value.
    pub entry: Json,
    /// Where the entry's life stands.
    pub phase: FilePhaseV,
}

/// The whole life of one manifest entry.
pub struct FileTask {
    /// The entry's install-relative file name.
    pub file_name: Vec<u8>,
    /// The entry's manifest value.
    pub entry: Json,
    /// Where the entry's life stands.
    pub phase: FilePhase,
}

impl View for FileTask {
    type V = FileTaskV;

    open spec fn view(&self) -> FileTaskV {
        FileTaskV { file_name: self.file_name@, entry: self.entry, phase: self.phase@ }
    }
}

/// The byte string `.extracted`, appended to a patch's remote name for its
/// extraction in the cache directory.
pub open spec fn extracted_suffix() -> Seq<u8> {
    seq![46u8, 101u8, 120u8, 116u8, 114u8, 97u8, 99u8, 116u8, 101u8, 100u8]
}

/// Appends `.extracted` to a name.
pub fn extracted_name(name: &[u8]) -> (v: Vec<u8>)
    ensures
        v@ == name@ + extracted_suffix(),
{
    let mut v = slice_to_vec(name);
    v.push(46);
    v.push(101);
    v.push(120);
    v.push(116);
    v.push(114);
    v.push(97);
    v.push(99);
    v.push(116);
    v.push(101);
    v.push(100);
    proof {
        assert(v@ =~= name@ + extracted_suffix());
    }
    v
}

/// Does the event answer what the entry's task last asked for?
pub open spec fn file_event_fits(phase: FilePhaseV, ev: FileEventV) -> bool {
    match (phase, ev) {
        (FilePhaseV::Statting, FileEventV::Stat(_)) => true,
        (FilePhaseV::HashingLocal, FileEventV::LocalHashed(_)) => true,
        (FilePhaseV::DownloadingScratch(d), FileEventV::Dl(dev)) => dl_event_fits(d.phase, dev),
        (FilePhaseV::DownloadingPatch(d, _), FileEventV::Dl(dev)) => dl_event_fits(d.phase, dev),
        (FilePhaseV::Patching, FileEventV::Patched(_)) => true,
        _ => false,
    }
}

/// Every download cycle a task carries has at least one attempt left.
pub open spec fn file_task_wf(t: FileTaskV) -> bool {
    match t.phase {
        FilePhaseV::DownloadingScratch(d) => d.tries_left >= 1,
        FilePhaseV::DownloadingPatch(d, _) => d.tries_left >= 1,
        _ => true,
    }
}

/// The same task, at `phase`.
pub open spec fn file_at(t: FileTaskV, phase: FilePhaseV) -> FileTaskV {
    FileTaskV { file_name: t.file_name, entry: t.entry, phase: phase }
}

/// The scratch-download cycle of an entry: the `dl` artifact into the
/// install directory under the entry's file name, checked against
/// `compHash` and `decomp_sha`.
pub open spec fn scratch_dl_state(
    t: FileTaskV,
    dl: Seq<u8>,
    comp: Seq<u8>,
    decomp: Seq<u8>,
) -> DlState {
    DlState {
        to_cache: false,
        comp_name: dl,
        decomp_name: t.file_name,
        comp_sha: comp,
        decomp_sha: decomp,
        tries_left: max_download_tries(),
        phase: DlPhase::Fetching,
    }
}

/// What beginning the scratch-download path makes of the task: the first
/// fetch, or the fault in the entry's fields.
pub open spec fn file_scratch_spec(t: FileTaskV) -> (FileTaskV, FileOpV) {
    match entry_fields_spec(t.entry) {
        Err(e) => (file_at(t, FilePhaseV::Done), FileOpV::Finish(Err(e))),
        Ok(fields) => match scratch_params_spec(fields) {
            Err(e) => (file_at(t, FilePhaseV::Done), FileOpV::Finish(Err(e))),
            Ok((dl, comp, decomp)) => (
                file_at(
                    t,
                    FilePhaseV::DownloadingScratch(scratch_dl_state(t, dl, comp, decomp)),
                ),
                FileOpV::Dl(DlOpV::Fetch { name: dl, to_cache: false }),
            ),
        },
    }
}

/// What the installed file's digest makes of the task: nothing to do when
/// it matches the entry's `hash`; else the patch keyed by it is fetched,
/// and with no such patch the artifact is re-downloaded from scratch.
pub open spec fn file_local_hashed_spec(t: FileTaskV, d: Seq<u8>) -> (FileTaskV, FileOpV) {
    match entry_fields_spec(t.entry) {
        Err(e) => (file_at(t, FilePhaseV::Done), FileOpV::Finish(Err(e))),
        Ok(fields) => match manifest_hash_spec(fields) {
            Err(e) => (file_at(t, FilePhaseV::Done), FileOpV::Finish(Err(e))),
            Ok(mh) => if d == mh {
                (file_at(t, FilePhaseV::Done), FileOpV::Finish(Ok(())))
            } else {
                match patches_fields_spec(fields) {
                    Err(e) => (file_at(t, FilePhaseV::Done), FileOpV::Finish(Err(e))),
                    Ok(patches) => match find_patch_spec(patches, d) {
                        Err(e) => (file_at(t, FilePhaseV::Done), FileOpV::Finish(Err(e))),
                        Ok(None) => file_scratch_spec(t),
                        Ok(Some((fname, cph, ph))) => (
                            file_at(
                                t,
                                FilePhaseV::DownloadingPatch(
                                    DlState {
                                        to_cache: true,
                                        comp_name: fname,
                                        decomp_name: fname + extracted_suffix(),
                                        comp_sha: cph,
                                        decomp_sha: ph,
                                        tries_left: max_download_tries(),
                                        phase: DlPhase::Fetching,
                                    },
                                    fname + extracted_suffix(),
                                ),
                            ),
                            FileOpV::Dl(DlOpV::Fetch { name: fname, to_cache: true }),
                        ),
                    },
                }
            },
        },
    }
}

/// What taking an entry on makes of it: skipped at once when its `only`
/// list excludes `arch` — no other op is ever asked, so nothing under the
/// install or cache directory is touched for it — else the installed file
/// is looked for.
pub open spec fn file_start_spec(entry: Json, file_name: Seq<u8>, arch: Seq<u8>) -> (
    FileTaskV,
    FileOpV,
) {
    let t = FileTaskV { file_name: file_name, entry: entry, phase: FilePhaseV::Statting };
    match entry_arch_check(entry, arch) {
        Err(e) => (file_at(t, FilePhaseV::Done), FileOpV::Finish(Err(e))),
        Ok(false) => (file_at(t, FilePhaseV::Done), FileOpV::Finish(Ok(()))),
        Ok(true) => (t, FileOpV::StatFile { name: file_name }),
    }
}

/// One transition of an entry's life, as [`FileTask::step`] performs it.
pub open spec fn file_step_spec(t: FileTaskV, ev: FileEventV) -> (FileTaskV, FileOpV)
    recommends
        file_event_fits(t.phase, ev),
{
    match (t.phase, ev) {
        (FilePhaseV::Statting, FileEventV::Stat(o)) => match o {
            StatOutcome::Present => (
                file_at(t, FilePhaseV::HashingLocal),
                FileOpV::HashFile { name: t.file_name },
            ),
            StatOutcome::Absent => file_scratch_spec(t),
            StatOutcome::PermissionDenied => (
                file_at(t, FilePhaseV::Done),
                FileOpV::Finish(Err(Error::PermissionDenied)),
            ),
            StatOutcome::OtherIo => (
                file_at(t, FilePhaseV::Done),
                FileOpV::Finish(Err(Error::UnknownIoError)),
            ),
        },
        (FilePhaseV::HashingLocal, FileEventV::LocalHashed(res)) => match res {
            Err(e) => (file_at(t, FilePhaseV::Done), FileOpV::Finish(Err(e))),
            Ok(d) => file_local_hashed_spec(t, d),
        },
        (FilePhaseV::DownloadingScratch(d), FileEventV::Dl(dev)) => {
            let (d2, op) = dl_step_spec(d, dev);
            match op {
                DlOpV::Finish(res) => (file_at(t, FilePhaseV::Done), FileOpV::Finish(res)),
                _ => (file_at(t, FilePhaseV::DownloadingScratch(d2)), FileOpV::Dl(op)),
            }
        },
        (FilePhaseV::DownloadingPatch(d, xname), FileEventV::Dl(dev)) => {
            let (d2, op) = dl_step_spec(d, dev);
            match op {
                DlOpV::Finish(res) => match res {
                    Err(e) => (file_at(t, FilePhaseV::Done), FileOpV::Finish(Err(e))),
                    Ok(_) => (
                        file_at(t, FilePhaseV::Patching),
                        FileOpV::ApplyPatch { patch_name: xname, target_name: t.file_name },
                    ),
                },
                _ => (file_at(t, FilePhaseV::DownloadingPatch(d2, xname)), FileOpV::Dl(op)),
            }
        },
        (FilePhaseV::Patching, FileEventV::Patched(res)) => (
            file_at(t, FilePhaseV::Done),
            FileOpV::Finish(res),
        ),
        _ => (t, FileOpV::Finish(Err(Error::UnknownIoError))),
    }
}

impl FileTask {
    /// Takes one manifest entry on: the arch filter first, then — only for
    /// an admitted entry — the look for the installed file.
    pub fn start(entry: Json, file_name: Vec<u8>, arch: &[u8]) -> (r: (FileTask, FileOp))
        ensures
            (r.0@, r.1@) == file_start_spec(entry, file_name@, arch@),
            file_task_wf(r.0@),
    {
        let supported = arch_supported(&entry, arch);
        match supported {
            Err(e) => (
                FileTask { file_name, entry, phase: FilePhase::Done },
                FileOp::Finish(Err(e)),
            ),
            Ok(false) => (
                FileTask { file_name, entry, phase: FilePhase::Done },
                FileOp::Finish(Ok(())),
            ),
            Ok(true) => {
                let op = FileOp::StatFile { name: slice_to_vec(file_name.as_slice()) };
                (FileTask { file_name, entry, phase: FilePhase::Statting }, op)
            },
        }
    }

    /// Begins the scratch-download path: extracts `dl`, `compHash` and
    /// `hash` and asks for the first fetch.
    fn begin_scratch(&mut self) -> (op: FileOp)
        ensures
            ((*final(self))@, op@) == file_scratch_spec(old(self)@),
            (*final(self)).file_name@ == old(self).file_name@,
            (*final(self)).entry == old(self).entry,
            file_task_wf((*final(self))@),
    {
        let fields = match entry_fields(&self.entry) {
            Ok(f) => f,
            Err(e) => {
                self.phase = FilePhase::Done;
                return FileOp::Finish(Err(e));
            },
        };
        let params = match scratch_params(fields) {
            Ok(p) => p,
            Err(e) => {
                self.phase = FilePhase::Done;
                return FileOp::Finish(Err(e));
            },
        };
        let (task, dlop) = DownloadTask::new(
            false,
            params.dl_name,
            slice_to_vec(self.file_name.as_slice()),
            params.comp_hash,
            params.decomp_hash,
            5,
        );
        self.phase = FilePhase::DownloadingScratch(task);
        FileOp::Dl(dlop)
    }

    /// Takes the outcome of the last asked-for I/O and asks for the next,
    /// exactly as [`file_step_spec`] says.
    pub fn step(&mut self, ev: FileEvent) -> (op: FileOp)
        requires
            file_event_fits(old(self)@.phase, ev@),
            file_task_wf(old(self)@),
        ensures
            (*final(self))@ == file_step_spec(old(self)@, ev@).0,
            op@ == file_step_spec(old(self)@, ev@).1,
            file_task_wf((*final(self))@),
    {
        match ev {
            FileEvent::Stat(o) => match o {
                StatOutcome::Present => {
                    self.phase = FilePhase::HashingLocal;
                    FileOp::HashFile { name: slice_to_vec(self.file_name.as_slice()) }
                },
                StatOutcome::Absent => self.begin_scratch(),
                StatOutcome::PermissionDenied => {
                    self.phase = FilePhase::Done;
                    FileOp::Finish(Err(Error::PermissionDenied))
                },
                StatOutcome::OtherIo => {
                    self.phase = FilePhase::Done;
                    FileOp::Finish(Err(Error::UnknownIoError))
                },
            },
            FileEvent::LocalHashed(res) => {
                let d = match res {
                    Err(e) => {
                        self.phase = FilePhase::Done;
                        return FileOp::Finish(Err(e));
                    },
                    Ok(d) => d,
                };
                let fields = match entry_fields(&self.entry) {
                    Ok(f) => f,
                    Err(e) => {
                        self.phase = FilePhase::Done;
                        return FileOp::Finish(Err(e));
                    },
                };
                let mh = match manifest_hash(fields) {
                    Ok(h) => h,
                    Err(e) => {
                        self.phase = FilePhase::Done;
                        return FileOp::Finish(Err(e));
                    },
                };
                if bytes_eq(d.as_slice(), mh.as_slice()) {
                    self.phase = FilePhase::Done;
                    return FileOp::Finish(Ok(()));
                }
                let patches = match patches_fields(fields) {
                    Ok(p) => p,
                    Err(e) => {
                        self.phase = FilePhase::Done;
                        return FileOp::Finish(Err(e));
                    },
                };
                let info = match find_patch(patches, d.as_slice()) {
                    Ok(i) => i,
                    Err(e) => {
                        self.phase = FilePhase::Done;
                        return FileOp::Finish(Err(e));
                    },
                };
                match info {
                    None => self.begin_scratch(),
                    Some(info) => {
                        let xname = extracted_name(info.filename.as_slice());
                        let xname2 = slice_to_vec(xname.as_slice());
                        let (task, dlop) = DownloadTask::new(
                            true,
                            info.filename,
                            xname,
                            info.comp_patch_hash,
                            info.patch_hash,
                            5,
                        );
                        self.phase = FilePhase::DownloadingPatch(task, xname2);
                        FileOp::Dl(dlop)
                    },
                }
            },
            FileEvent::Dl(dev) => {
                let dlop = match &mut self.phase {
                    FilePhase::DownloadingScratch(d) => d.step(dev),
                    FilePhase::DownloadingPatch(d, _) => d.step(dev),
                    _ => {
                        proof {
                            assert(false);
                        }
                        DlOp::Finish(Err(Error::UnknownIoError))
                    },
                };
                match dlop {
                    DlOp::Finish(res) => {
                        let was_patch = match &self.phase {
                            FilePhase::DownloadingPatch(_, _) => true,
                            _ => false,
                        };
                        if was_patch {
                            match res {
                                Err(e) => {
                                    self.phase = FilePhase::Done;
                                    FileOp::Finish(Err(e))
                                },
                                Ok(_) => {
                                    let xname = match &self.phase {
                                        FilePhase::DownloadingPatch(_, n) => slice_to_vec(
                                            n.as_slice(),
                                        ),
                                        _ => {
                                            proof {
                                                assert(false);
                                            }
                                            Vec::new()
                                        },
                                    };
                                    self.phase = FilePhase::Patching;
                                    FileOp::ApplyPatch {
                                        patch_name: xname,
                                        target_name: slice_to_vec(self.file_name.as_slice()),
                                    }
                                },
                            }
                        } else {
                            self.phase = FilePhase::Done;
                            FileOp::Finish(res)
                        }
                    },
                    _ => FileOp::Dl(dlop),
                }
            },
            FileEvent::Patched(res) => {
                self.phase = FilePhase::Done;
                FileOp::Finish(res)
            },
        }
    }
}

/// Law: an entry whose `only` list excludes the architecture is over the
/// moment it is taken on — the only op ever issued for it is a successful
/// `Finish`, so nothing is fetched and nothing under the install or cache
/// directories is written for it.
pub proof fn lemma_arch_mismatch_skips(entry: Json, file_name: Seq<u8>, arch: Seq<u8>)
    requires
        entry_arch_check(entry, arch) == Ok::<bool, Error>(false),
    ensures
        file_start_spec(entry, file_name, arch).0.phase is Done,
        file_start_spec(entry, file_name, arch).1 == FileOpV::Finish(Ok(())),
        forall|ev: FileEventV| !file_event_fits(file_start_spec(entry, file_name, arch).0.phase, ev),
{
}

/// What the manifest response's transport outcome means: only a 2xx status
/// carries a manifest worth parsing.
pub fn manifest_response_check(outcome: FetchOutcome) -> (r: Result<(), Error>)
    ensures
        match outcome {
            FetchOutcome::Status(code) => if 200 <= code < 300 {
                r == Ok::<(), Error>(())
            } else {
                r == Err::<(), Error>(Error::ManifestRequestStatusError(code))
            },
            _ => r == Err::<(), Error>(Error::ManifestRequestError),
        },
{
    match outcome {
        FetchOutcome::Status(code) => {
            if 200 <= code && code < 300 {
                Ok(())
            } else {
                Err(Error::ManifestRequestStatusError(code))
            }
        },
        _ => Err(Error::ManifestRequestError),
    }
}

} // verus!
