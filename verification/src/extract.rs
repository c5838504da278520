//! Bitmap extraction from the clipboard.
//!
//! The clipboard itself belongs to the host: querying a format, opening the
//! clipboard, fetching and locking the payload handle, unlocking it and
//! closing the clipboard again are operations a driver performs. The
//! [`Extraction`] state machine owns every decision between those operations:
//! it hands the driver one [`ClipboardAction`] at a time, consumes the
//! resulting [`ClipboardEvent`], validates and assembles the payload, decodes
//! it, and guarantees that a successfully acquired clipboard is released
//! exactly once on every path — success, malformed data, lock failure or
//! decode failure — before the attempt finishes.

use vstd::prelude::*;
use vstd::pervasive::unreached;
use crate::bmp::{
    assemble_bmp_file, dib_height, dib_width, file_header_seq, le32_at, FILE_HEADER_LEN,
    MIN_PAYLOAD_LEN,
};
use crate::codec::{bmp_decoded_height, bmp_decoded_width, bmp_parse_ok, bmp_rgba_pixels,
    decode_bmp};

verus! {

/// Why an extraction attempt failed.
#[derive(Clone, Copy, Debug, PartialEq, Eq, Structural)]
pub enum ExtractionError {
    /// The clipboard holds no device-independent bitmap right now: the normal
    /// steady state between image copies, not a reportable error.
    FormatUnavailable,
    /// The clipboard could not be opened for exclusive access.
    AcquisitionFailed,
    /// The bitmap handle was null.
    DataUnavailable,
    /// Locking the payload memory yielded no address.
    LockFailed,
    /// The payload is shorter than the fixed bitmap-info structure (or too
    /// long for a bitmap file's 32-bit size field) and cannot be an image.
    MalformedData,
    /// Unlocking the payload memory failed.
    UnlockFailed,
    /// Closing the clipboard failed.
    ReleaseFailed,
    /// The decoder rejected the assembled bitmap file.
    DecodeFailed,
}

impl ExtractionError {
    /// The human-readable description reported for this failure.
    pub fn message(&self) -> (s: &'static str)
        ensures
            self is FormatUnavailable ==> s@ == "wanted clipboard format is not available"@,
            self is AcquisitionFailed ==> s@ == "couldn't open clipboard"@,
            self is DataUnavailable ==> s@ == "couldn't get clipboard data"@,
            self is LockFailed ==> s@ == "couldn't lock clipboard data"@,
            self is MalformedData ==> s@ == "clipboard data is malformed"@,
            self is UnlockFailed ==> s@ == "couldn't unlock clipboard data"@,
            self is ReleaseFailed ==> s@ == "couldn't close clipboard"@,
            self is DecodeFailed ==> s@ == "couldn't parse clipboard image"@,
    {
        match self {
            ExtractionError::FormatUnavailable => "wanted clipboard format is not available",
            ExtractionError::AcquisitionFailed => "couldn't open clipboard",
            ExtractionError::DataUnavailable => "couldn't get clipboard data",
            ExtractionError::LockFailed => "couldn't lock clipboard data",
            ExtractionError::MalformedData => "clipboard data is malformed",
            ExtractionError::UnlockFailed => "couldn't unlock clipboard data",
            ExtractionError::ReleaseFailed => "couldn't close clipboard",
            ExtractionError::DecodeFailed => "couldn't parse clipboard image",
        }
    }
}

/// A fully decoded, owned image: RGBA pixel buffer plus dimensions,
/// independent of the clipboard once created.
#[derive(Debug)]
pub struct ReconstructedImage {
    /// Four bytes per pixel, row by row.
    pub pixels: Vec<u8>,
    /// Width in pixels.
    pub width: u32,
    /// Height in pixels.
    pub height: u32,
}

impl ReconstructedImage {
    /// The pixel buffer holds exactly four bytes per pixel.
    pub open spec fn wf(&self) -> bool {
        self.pixels@.len() == 4 * self.width * self.height
    }
}

/// Whether a clipboard payload has an acceptable length: at least the fixed
/// bitmap-info structure, and small enough for the file size to fit the
/// synthesized header's 32-bit field.
pub open spec fn valid_payload_len(p: Seq<u8>) -> bool {
    MIN_PAYLOAD_LEN <= p.len() <= u32::MAX - FILE_HEADER_LEN
}

/// The standalone bitmap file assembled from a payload: synthesized file
/// header followed by the payload bytes.
pub open spec fn assembled_file(p: Seq<u8>) -> Seq<u8> {
    file_header_seq(p.len() as u32) + p
}

/// The magnitude of a signed value.
pub open spec fn magnitude(v: int) -> int {
    if v < 0 {
        -v
    } else {
        v
    }
}

/// Validate a clipboard payload, prepend the synthesized file header, and
/// decode the result. The whole computation between the clipboard operations:
/// no snapshot is touched here.
pub fn reconstruct_image(payload: &Vec<u8>) -> (r: Result<ReconstructedImage, ExtractionError>)
    ensures
        r is Ok <==> valid_payload_len(payload@) && bmp_parse_ok(assembled_file(payload@)),
        r == Err::<ReconstructedImage, ExtractionError>(ExtractionError::MalformedData)
            <==> !valid_payload_len(payload@),
        r == Err::<ReconstructedImage, ExtractionError>(ExtractionError::DecodeFailed)
            <==> valid_payload_len(payload@) && !bmp_parse_ok(assembled_file(payload@)),
        r matches Ok(img) ==> {
            &&& img.wf()
            &&& img.pixels@ == bmp_rgba_pixels(assembled_file(payload@))
            &&& img.width == bmp_decoded_width(assembled_file(payload@))
            &&& img.height == bmp_decoded_height(assembled_file(payload@))
            &&& le32_at(payload@, 0) == 40 ==> {
                &&& dib_width(payload@) >= 0
                &&& img.width == dib_width(payload@)
                &&& img.height == magnitude(dib_height(payload@))
            }
        },
{
    if payload.len() < MIN_PAYLOAD_LEN || payload.len() > (u32::MAX - FILE_HEADER_LEN as u32) as usize {
        return Err(ExtractionError::MalformedData);
    }
    let file = assemble_bmp_file(payload);
    proof {
        crate::bmp::lemma_assembly_keeps_dimensions(payload@);
        crate::bmp::lemma_file_header_len(payload@.len() as u32);
    }
    match decode_bmp(&file) {
        Ok((pixels, width, height)) => Ok(ReconstructedImage { pixels, width, height }),
        Err(()) => Err(ExtractionError::DecodeFailed),
    }
}

/// What the extraction driver reports back after performing an action.
pub enum ClipboardEvent {
    /// Whether the bitmap format is currently on offer.
    FormatStatus(bool),
    /// Whether the clipboard was opened for exclusive access.
    AcquireStatus(bool),
    /// Whether the bitmap handle was non-null.
    DataStatus(bool),
    /// The locked payload's bytes, or nothing if the lock yielded no address.
    LockStatus(Option<Vec<u8>>),
    /// Whether the payload memory was unlocked.
    UnlockStatus(bool),
    /// Whether the clipboard was closed.
    ReleaseStatus(bool),
}

/// What the extraction machine asks the driver to do next.
pub enum ClipboardAction {
    /// Ask whether the bitmap format is on offer.
    QueryFormat,
    /// Open the clipboard for exclusive access.
    Acquire,
    /// Fetch the bitmap handle.
    FetchData,
    /// Lock the payload memory and copy its bytes.
    LockPayload,
    /// Unlock the payload memory.
    Unlock,
    /// Close the clipboard.
    Release,
    /// The attempt is over; this is its outcome.
    Finish(Result<ReconstructedImage, ExtractionError>),
    /// The event did not belong to the current phase; nothing to do.
    Wait,
}

/// Where an extraction attempt stands.
#[derive(Clone, Copy, PartialEq, Eq, Structural)]
pub enum ExtractPhase {
    /// Waiting for the format query's answer.
    AwaitFormat,
    /// Waiting for the open attempt's outcome.
    AwaitAcquire,
    /// Clipboard held; waiting for the bitmap handle.
    AwaitData,
    /// Clipboard held; waiting for the payload lock.
    AwaitLock,
    /// Clipboard held; waiting for the unlock's outcome.
    AwaitUnlock,
    /// Release requested; waiting for its outcome.
    AwaitRelease,
    /// The attempt finished.
    Finished,
}

/// One extraction attempt over the clipboard.
///
/// The machine is driven event by event; `acquires` counts successful opens
/// of the clipboard and `releases` the close requests issued, so an
/// instrumented driver can check the balance from outside. Well-formedness
/// pins both to the phase, and every finished attempt has them equal.
pub struct Extraction {
    /// Where the attempt stands.
    pub phase: ExtractPhase,
    /// The payload copied out of the clipboard, once locked and of valid
    /// length.
    pub payload: Option<Vec<u8>>,
    /// A failure seen in an earlier step that the remaining cleanup steps
    /// must not displace.
    pub pending_failure: Option<ExtractionError>,
    /// How many times this attempt opened the clipboard.
    pub acquires: u32,
    /// How many times this attempt asked for the clipboard to be closed.
    pub releases: u32,
}

impl Extraction {
    /// While these phases last, the attempt holds the clipboard snapshot.
    pub open spec fn holding(&self) -> bool {
        self.phase is AwaitData || self.phase is AwaitLock || self.phase is AwaitUnlock
    }

    /// The counters and the stored payload agree with the phase.
    pub open spec fn wf(&self) -> bool {
        &&& self.acquires <= 1
        &&& self.releases <= self.acquires
        &&& (self.phase is AwaitFormat || self.phase is AwaitAcquire ==> self.acquires == 0)
        &&& (self.holding() ==> self.acquires == 1 && self.releases == 0)
        &&& (self.phase is AwaitRelease ==> self.acquires == 1 && self.releases == 1)
        &&& (self.phase is Finished ==> self.acquires == self.releases)
        &&& (self.phase is AwaitFormat || self.phase is AwaitAcquire || self.phase is AwaitData
            || self.phase is AwaitLock ==> self.pending_failure is None && self.payload is None)
        &&& ((self.phase is AwaitUnlock || self.phase is AwaitRelease)
            && self.pending_failure is None ==> (self.payload matches Some(p)
            && valid_payload_len(p@)))
    }

    /// A fresh attempt. The driver's first step is to perform
    /// [`ClipboardAction::QueryFormat`] and feed the answer back.
    pub fn new() -> (m: Extraction)
        ensures
            m.wf(),
            m.phase is AwaitFormat,
            m.acquires == 0,
            m.releases == 0,
    {
        Extraction {
            phase: ExtractPhase::AwaitFormat,
            payload: None,
            pending_failure: None,
            acquires: 0,
            releases: 0,
        }
    }

    /// Consume the driver's report on the last action and decide the next
    /// one.
    ///
    /// The clipboard snapshot is balanced on every path: a successful open is
    /// followed by exactly one release request before the attempt finishes,
    /// whichever step failed in between, and an attempt that never opened the
    /// clipboard never asks for a release.
    pub fn on_event(&mut self, event: ClipboardEvent) -> (act: ClipboardAction)
        requires
            old(self).wf(),
        ensures
            final(self).wf(),
            // Balance: releases move only by an emitted Release, acquires only
            // by a successful open, and a finished attempt is balanced.
            final(self).acquires == old(self).acquires + (if old(self).phase is AwaitAcquire
                && event == ClipboardEvent::AcquireStatus(true) {
                1int
            } else {
                0int
            }),
            final(self).releases == old(self).releases + (if act is Release {
                1int
            } else {
                0int
            }),
            act is Finish ==> final(self).phase is Finished && final(self).acquires == final(self).releases,
            act is Finish && old(self).acquires == 1 ==> final(self).releases == 1,
            // The transition table.
            old(self).phase is Finished ==> act is Wait && *final(self) == *old(self),
            old(self).phase is AwaitFormat ==> match event {
                ClipboardEvent::FormatStatus(true) => act is Acquire && final(self).phase is AwaitAcquire,
                ClipboardEvent::FormatStatus(false) => act == ClipboardAction::Finish(
                    Err::<ReconstructedImage, ExtractionError>(
                        ExtractionError::FormatUnavailable,
                    ),
                ),
                _ => act is Wait && *final(self) == *old(self),
            },
            old(self).phase is AwaitAcquire ==> match event {
                ClipboardEvent::AcquireStatus(true) => act is FetchData && final(self).phase is AwaitData,
                ClipboardEvent::AcquireStatus(false) => act == ClipboardAction::Finish(
                    Err::<ReconstructedImage, ExtractionError>(
                        ExtractionError::AcquisitionFailed,
                    ),
                ),
                _ => act is Wait && *final(self) == *old(self),
            },
            old(self).phase is AwaitData ==> match event {
                ClipboardEvent::DataStatus(true) => act is LockPayload && final(self).phase is AwaitLock,
                ClipboardEvent::DataStatus(false) => act is Release && final(self).phase is AwaitRelease && final(self).failure_of() == Some(
                    ExtractionError::DataUnavailable,
                ),
                _ => act is Wait && *final(self) == *old(self),
            },
            old(self).phase is AwaitLock ==> match event {
                ClipboardEvent::LockStatus(Some(p)) => act is Unlock && final(self).phase is AwaitUnlock && if valid_payload_len(p@) {
                    final(self).failure_of() is None && final(self).payload_of() == Some(p@)
                } else {
                    final(self).failure_of() == Some(ExtractionError::MalformedData)
                },
                ClipboardEvent::LockStatus(None) => act is Release && final(self).phase is AwaitRelease && final(self).failure_of() == Some(
                    ExtractionError::LockFailed,
                ),
                _ => act is Wait && *final(self) == *old(self),
            },
            old(self).phase is AwaitUnlock ==> match event {
                ClipboardEvent::UnlockStatus(ok) => act is Release && final(self).phase is AwaitRelease && final(self).failure_of() == (
                if old(self).failure_of() is Some {
                    // An earlier failure keeps precedence over the unlock's
                    // outcome, which the cleanup path ignores.
                    old(self).failure_of()
                } else if !ok {
                    Some(ExtractionError::UnlockFailed)
                } else {
                    None::<ExtractionError>
                }) && (final(self).failure_of() is None ==> final(self).payload_of() == old(
                    self,
                ).payload_of()),
                _ => act is Wait && *final(self) == *old(self),
            },
            old(self).phase is AwaitRelease ==> match event {
                ClipboardEvent::ReleaseStatus(ok) => final(self).phase is Finished && (
                match old(self).failure_of() {
                    // An earlier failure keeps precedence over the close's
                    // outcome.
                    Some(e) => act == ClipboardAction::Finish(
                        Err::<ReconstructedImage, ExtractionError>(e),
                    ),
                    None => if !ok {
                    act == ClipboardAction::Finish(
                        Err::<ReconstructedImage, ExtractionError>(
                            ExtractionError::ReleaseFailed,
                        ),
                    )
                } else {
                    // Decode the assembled file copied out of the released
                    // snapshot.
                    {
                        let p = old(self).payload_of().unwrap();
                        if bmp_parse_ok(assembled_file(p)) {
                            act matches ClipboardAction::Finish(Ok(img)) && img.wf()
                                && img.pixels@ == bmp_rgba_pixels(assembled_file(p))
                                && img.width == bmp_decoded_width(assembled_file(p))
                                && img.height == bmp_decoded_height(assembled_file(p)) && (le32_at(
                                p,
                                0,
                            ) == 40 ==> dib_width(p) >= 0 && img.width == dib_width(p)
                                && img.height == magnitude(dib_height(p)))
                        } else {
                            act == ClipboardAction::Finish(
                                Err::<ReconstructedImage, ExtractionError>(
                                    ExtractionError::DecodeFailed,
                                ),
                            )
                        }
                    }
                },
                }),
                _ => act is Wait && *final(self) == *old(self),
            },
    {
        match (self.phase, event) {
            (ExtractPhase::AwaitFormat, ClipboardEvent::FormatStatus(true)) => {
                self.phase = ExtractPhase::AwaitAcquire;
                ClipboardAction::Acquire
            },
            (ExtractPhase::AwaitFormat, ClipboardEvent::FormatStatus(false)) => {
                self.phase = ExtractPhase::Finished;
                ClipboardAction::Finish(Err(ExtractionError::FormatUnavailable))
            },
            (ExtractPhase::AwaitAcquire, ClipboardEvent::AcquireStatus(true)) => {
                self.phase = ExtractPhase::AwaitData;
                self.acquires = self.acquires + 1;
                ClipboardAction::FetchData
            },
            (ExtractPhase::AwaitAcquire, ClipboardEvent::AcquireStatus(false)) => {
                self.phase = ExtractPhase::Finished;
                ClipboardAction::Finish(Err(ExtractionError::AcquisitionFailed))
            },
            (ExtractPhase::AwaitData, ClipboardEvent::DataStatus(true)) => {
                self.phase = ExtractPhase::AwaitLock;
                ClipboardAction::LockPayload
            },
            (ExtractPhase::AwaitData, ClipboardEvent::DataStatus(false)) => {
                self.phase = ExtractPhase::AwaitRelease;
                self.pending_failure = Some(ExtractionError::DataUnavailable);
                self.releases = self.releases + 1;
                ClipboardAction::Release
            },
            (ExtractPhase::AwaitLock, ClipboardEvent::LockStatus(Some(p))) => {
                self.phase = ExtractPhase::AwaitUnlock;
                if p.len() < MIN_PAYLOAD_LEN || p.len() > (u32::MAX - FILE_HEADER_LEN as u32)
                    as usize {
                    self.pending_failure = Some(ExtractionError::MalformedData);
                } else {
                    self.payload = Some(p);
                }
                ClipboardAction::Unlock
            },
            (ExtractPhase::AwaitLock, ClipboardEvent::LockStatus(None)) => {
                self.phase = ExtractPhase::AwaitRelease;
                self.pending_failure = Some(ExtractionError::LockFailed);
                self.releases = self.releases + 1;
                ClipboardAction::Release
            },
            (ExtractPhase::AwaitUnlock, ClipboardEvent::UnlockStatus(ok)) => {
                self.phase = ExtractPhase::AwaitRelease;
                if self.pending_failure.is_none() && !ok {
                    self.pending_failure = Some(ExtractionError::UnlockFailed);
                }
                self.releases = self.releases + 1;
                ClipboardAction::Release
            },
            (ExtractPhase::AwaitRelease, ClipboardEvent::ReleaseStatus(ok)) => {
                self.phase = ExtractPhase::Finished;
                match self.pending_failure {
                    Some(e) => ClipboardAction::Finish(Err(e)),
                    None => {
                        if !ok {
                            ClipboardAction::Finish(Err(ExtractionError::ReleaseFailed))
                        } else {
                            let payload = self.payload.take();
                            match payload {
                                Some(p) => ClipboardAction::Finish(reconstruct_image(&p)),
                                // well-formedness pins a payload here
                                None => unreached(),
                            }
                        }
                    },
                }
            },
            (_, _) => ClipboardAction::Wait,
        }
    }

    /// The failure recorded so far, if any.
    pub open spec fn failure_of(&self) -> Option<ExtractionError> {
        self.pending_failure
    }

    /// The view of the payload copied out of the clipboard, if any.
    pub open spec fn payload_of(&self) -> Option<Seq<u8>> {
        match self.payload {
            Some(p) => Some(p@),
            None => None,
        }
    }
}

} // verus!
