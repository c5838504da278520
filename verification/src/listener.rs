//! The clipboard listener.
//!
//! The host runtime delivers one change notification at a time; the listener
//! walks each notification through `Idle` → `Capturing` → `Persisting` → back
//! to `Idle`, driving an [`Extraction`] attempt, asking for the capture time,
//! planning the artifact, and deciding what — if anything — is reported. A
//! missing bitmap format is the quiet steady state and produces no report;
//! every other failure is reported and returns the listener to `Idle`, ready
//! for the next notification. The listener owns running acquire/release
//! totals so a harness can check from outside that every acquired clipboard
//! snapshot was released exactly once.

use vstd::prelude::*;
use vstd::pervasive::unreached;
use crate::bmp::{dib_height, dib_width, le32_at};
use crate::codec::{bmp_decoded_height, bmp_decoded_width, bmp_parse_ok, bmp_rgba_pixels,
    be32_at, png_encode_ok, png_encoding, png_signature, PNG_HEIGHT_OFFSET, PNG_WIDTH_OFFSET};
use crate::extract::{
    assembled_file, magnitude, reconstruct_image, valid_payload_len, ClipboardAction,
    ClipboardEvent, Extraction, ExtractionError, ReconstructedImage,
};
use crate::persist::{artifact_name_seq, plan_persist, PersistError};

verus! {

/// Window message announcing that the watcher's window was created.
pub const MSG_CREATE: u32 = 0x0001;

/// Window message announcing that the watcher's window is being destroyed.
pub const MSG_DESTROY: u32 = 0x0002;

/// Window message announcing that the clipboard's content changed.
pub const MSG_CLIPBOARD_UPDATE: u32 = 0x031d;

/// What the host's window procedure is to do with a message.
#[derive(Clone, Copy, Debug, PartialEq, Eq, Structural)]
pub enum HostDirective {
    /// Register for clipboard-change notifications; failure is fatal.
    Subscribe,
    /// Deregister from clipboard-change notifications; failure is fatal.
    Unsubscribe,
    /// Hand the notification to the listener.
    HandleChange,
    /// Not a message the watcher reacts to; default handling only.
    Ignore,
}

/// Decide what a window message means for the watcher.
pub fn dispatch_message(msg: u32) -> (d: HostDirective)
    ensures
        d is Subscribe <==> msg == MSG_CREATE,
        d is Unsubscribe <==> msg == MSG_DESTROY,
        d is HandleChange <==> msg == MSG_CLIPBOARD_UPDATE,
        d is Ignore <==> (msg != MSG_CREATE && msg != MSG_DESTROY && msg != MSG_CLIPBOARD_UPDATE),
{
    if msg == MSG_CREATE {
        HostDirective::Subscribe
    } else if msg == MSG_DESTROY {
        HostDirective::Unsubscribe
    } else if msg == MSG_CLIPBOARD_UPDATE {
        HostDirective::HandleChange
    } else {
        HostDirective::Ignore
    }
}

/// Where the listener stands with the current notification.
#[derive(Clone, Copy, Debug, PartialEq, Eq, Structural)]
pub enum ListenerState {
    /// No capture in progress.
    Idle,
    /// An extraction attempt is in flight.
    Capturing,
    /// A decoded image is being encoded and written.
    Persisting,
}

/// A failure worth an error line.
#[derive(Clone, Copy, Debug, PartialEq, Eq, Structural)]
pub enum CaptureFailure {
    /// Extraction failed (never with the quiet unavailable-format outcome).
    Extract(ExtractionError),
    /// Encoding or creating the artifact failed.
    Persist(PersistError),
}

/// What the listener asks its driver to do next.
pub enum ListenerAction {
    /// Perform this clipboard operation and feed the outcome back.
    Clipboard(ClipboardAction),
    /// Read the wall clock and feed the milliseconds since the epoch back.
    NeedTimestamp,
    /// Create this artifact with exclusive-create semantics — never
    /// overwrite — and feed back whether creation succeeded.
    CreateArtifact { millis: u64, name: String, bytes: Vec<u8> },
    /// Print the success line for this artifact.
    ReportSuccess { name: String },
    /// Print an error line for this failure.
    ReportFailure(CaptureFailure),
    /// Nothing happened worth reporting: the clipboard holds no image.
    Quiet,
    /// The event did not belong to the current state; nothing to do.
    Wait,
}

/// One whole capture as a single computation: validate and decode a clipboard
/// payload, then encode the result as the artifact to create at this capture
/// time. For every payload the decoder accepts, the produced bytes are a PNG
/// whose header carries exactly the dimensions the decoder assigned — for a
/// payload with the base info header, exactly the dimensions the payload
/// itself declares.
pub fn capture_artifact(payload: &Vec<u8>, millis: u64) -> (r: Result<
    (String, Vec<u8>),
    CaptureFailure,
>)
    ensures
        r is Ok <==> valid_payload_len(payload@) && bmp_parse_ok(assembled_file(payload@))
            && png_encode_ok(
            bmp_rgba_pixels(assembled_file(payload@)),
            bmp_decoded_width(assembled_file(payload@)),
            bmp_decoded_height(assembled_file(payload@)),
        ),
        r == Err::<(String, Vec<u8>), CaptureFailure>(
            CaptureFailure::Extract(ExtractionError::MalformedData),
        ) <==> !valid_payload_len(payload@),
        r == Err::<(String, Vec<u8>), CaptureFailure>(
            CaptureFailure::Extract(ExtractionError::DecodeFailed),
        ) <==> valid_payload_len(payload@) && !bmp_parse_ok(assembled_file(payload@)),
        r == Err::<(String, Vec<u8>), CaptureFailure>(
            CaptureFailure::Persist(PersistError::EncodeFailed),
        ) <==> valid_payload_len(payload@) && bmp_parse_ok(assembled_file(payload@))
            && !png_encode_ok(
            bmp_rgba_pixels(assembled_file(payload@)),
            bmp_decoded_width(assembled_file(payload@)),
            bmp_decoded_height(assembled_file(payload@)),
        ),
        r matches Ok(t) ==> {
            &&& t.0@ == artifact_name_seq(millis)
            &&& t.1@.len() >= 24
            &&& t.1@.subrange(0, 8) == png_signature()
            &&& be32_at(t.1@, PNG_WIDTH_OFFSET as int) == bmp_decoded_width(
                assembled_file(payload@),
            )
            &&& be32_at(t.1@, PNG_HEIGHT_OFFSET as int) == bmp_decoded_height(
                assembled_file(payload@),
            )
            &&& le32_at(payload@, 0) == 40 ==> {
                &&& dib_width(payload@) >= 0
                &&& be32_at(t.1@, PNG_WIDTH_OFFSET as int) == dib_width(payload@)
                &&& be32_at(t.1@, PNG_HEIGHT_OFFSET as int) == magnitude(dib_height(payload@))
            }
        },
{
    let img = match reconstruct_image(payload) {
        Ok(img) => img,
        Err(e) => {
            return Err(CaptureFailure::Extract(e));
        },
    };
    match plan_persist(&img, millis) {
        Ok(t) => Ok(t),
        Err(e) => Err(CaptureFailure::Persist(e)),
    }
}

/// The listener: one registered handler object, constructed once at startup,
/// owning all the state a notification needs.
pub struct Listener {
    /// Where the current notification stands.
    pub state: ListenerState,
    /// The extraction attempt in flight, while `Capturing`.
    pub extraction: Option<Extraction>,
    /// The decoded image awaiting its capture time, while `Persisting`.
    pub pending_image: Option<ReconstructedImage>,
    /// The artifact name awaiting the creation outcome, while `Persisting`.
    pub pending_name: Option<String>,
    /// How many times the listener's attempts opened the clipboard.
    pub total_acquires: u64,
    /// How many times the listener's attempts asked for it to be closed.
    pub total_releases: u64,
}

impl Listener {
    /// The release requests the capture in flight still owes.
    pub open spec fn inflight_debt(&self) -> int {
        match self.extraction {
            Some(m) => m.acquires - m.releases,
            None => 0,
        }
    }

    /// Every acquired snapshot is released exactly once: the totals differ by
    /// the debt of the capture in flight, and agree whenever none is.
    pub open spec fn balanced(&self) -> bool {
        &&& self.total_releases <= self.total_acquires
        &&& self.total_acquires - self.total_releases == self.inflight_debt()
    }

    /// The per-state fields agree with the state.
    pub open spec fn wf(&self) -> bool {
        &&& self.balanced()
        &&& (self.state is Idle ==> self.extraction is None && self.pending_image is None
            && self.pending_name is None)
        &&& (self.state is Capturing ==> self.pending_image is None && self.pending_name is None
            && (self.extraction matches Some(m) && m.wf() && !(m.phase is Finished)))
        &&& (self.state is Persisting ==> self.extraction is None && match (
            self.pending_image,
            self.pending_name,
        ) {
            (Some(img), None) => img.wf(),
            (None, Some(_)) => true,
            _ => false,
        })
    }

    /// A fresh listener, idle and balanced.
    pub fn new() -> (l: Listener)
        ensures
            l.wf(),
            l.state is Idle,
            l.total_acquires == 0,
            l.total_releases == 0,
    {
        Listener {
            state: ListenerState::Idle,
            extraction: None,
            pending_image: None,
            pending_name: None,
            total_acquires: 0,
            total_releases: 0,
        }
    }

    /// A change notification arrived: start a capture.
    ///
    /// The host delivers notifications serially, so one can only arrive while
    /// idle; one arriving in any other state is ignored.
    pub fn on_change_notification(&mut self) -> (act: ListenerAction)
        requires
            old(self).wf(),
        ensures
            final(self).wf(),
            final(self).total_acquires == old(self).total_acquires,
            final(self).total_releases == old(self).total_releases,
            old(self).state is Idle ==> act == ListenerAction::Clipboard(
                ClipboardAction::QueryFormat,
            ) && final(self).state is Capturing,
            !(old(self).state is Idle) ==> act is Wait && *final(self) == *old(self),
    {
        match self.state {
            ListenerState::Idle => {
                self.state = ListenerState::Capturing;
                self.extraction = Some(Extraction::new());
                ListenerAction::Clipboard(ClipboardAction::QueryFormat)
            },
            _ => ListenerAction::Wait,
        }
    }

    /// The driver performed a clipboard operation; feed its outcome to the
    /// extraction attempt and decide what follows.
    pub fn on_clipboard_event(&mut self, event: ClipboardEvent) -> (act: ListenerAction)
        requires
            old(self).wf(),
            old(self).total_acquires < u64::MAX,
            old(self).total_releases < u64::MAX,
        ensures
            final(self).wf(),
            // Not capturing: nothing to feed.
            !(old(self).state is Capturing) ==> act is Wait && *final(self) == *old(self),
            // Wherever a notification's handling ends, the books balance.
            !(final(self).state is Capturing) ==> final(self).total_acquires == final(self).total_releases,
            act is Quiet ==> final(self).state is Idle,
            act matches ListenerAction::ReportFailure(f) ==> final(self).state is Idle && (
            f matches CaptureFailure::Extract(e) && !(e is FormatUnavailable)),
            act is NeedTimestamp ==> final(self).state is Persisting && (final(self).pending_image matches Some(img) && img.wf()),
            act matches ListenerAction::Clipboard(a) ==> final(self).state is Capturing && !(
            a is Finish) && !(a is Wait) && !(a is QueryFormat),
            // The quiet outcome is exactly the missing format; every other
            // failure is reported; a decoded image moves on to persisting,
            // with the dimensions its payload declared.
            old(self).state is Capturing ==> match old(self).extraction {
                Some(m) => {
                    &&& (m.phase is AwaitFormat && event == ClipboardEvent::FormatStatus(false)
                        ==> act is Quiet)
                    &&& (m.phase is AwaitAcquire && event == ClipboardEvent::AcquireStatus(false)
                        ==> act == ListenerAction::ReportFailure(
                        CaptureFailure::Extract(ExtractionError::AcquisitionFailed),
                    ))
                    &&& (m.phase is AwaitRelease && event == ClipboardEvent::ReleaseStatus(true)
                        && m.failure_of() is None && bmp_parse_ok(
                        assembled_file(m.payload_of().unwrap()),
                    ) ==> act is NeedTimestamp && (final(self).pending_image matches Some(img)
                        && img.pixels@ == bmp_rgba_pixels(assembled_file(m.payload_of().unwrap()))
                        && img.width == bmp_decoded_width(assembled_file(m.payload_of().unwrap()))
                        && img.height == bmp_decoded_height(
                        assembled_file(m.payload_of().unwrap()),
                    ) && (le32_at(m.payload_of().unwrap(), 0) == 40 ==> img.width == dib_width(
                        m.payload_of().unwrap(),
                    ) && img.height == magnitude(dib_height(m.payload_of().unwrap())))))
                },
                None => true,
            },
    {
        match self.state {
            ListenerState::Capturing => {},
            _ => {
                return ListenerAction::Wait;
            },
        }
        let a = match &mut self.extraction {
            Some(m) => {
                let before_acquires = m.acquires;
                let before_releases = m.releases;
                let a = m.on_event(event);
                let delta_acquires = m.acquires - before_acquires;
                let delta_releases = m.releases - before_releases;
                self.total_acquires = self.total_acquires + delta_acquires as u64;
                self.total_releases = self.total_releases + delta_releases as u64;
                a
            },
            None => unreached(),
        };
        match a {
            ClipboardAction::Finish(res) => {
                self.extraction = None;
                match res {
                    Ok(img) => {
                        self.state = ListenerState::Persisting;
                        self.pending_image = Some(img);
                        ListenerAction::NeedTimestamp
                    },
                    Err(e) => {
                        self.state = ListenerState::Idle;
                        match e {
                            ExtractionError::FormatUnavailable => ListenerAction::Quiet,
                            _ => ListenerAction::ReportFailure(CaptureFailure::Extract(e)),
                        }
                    },
                }
            },
            ClipboardAction::Wait => ListenerAction::Wait,
            other => ListenerAction::Clipboard(other),
        }
    }

    /// The driver read the wall clock; encode the pending image and derive
    /// the artifact to create.
    pub fn on_timestamp(&mut self, millis: u64) -> (act: ListenerAction)
        requires
            old(self).wf(),
        ensures
            final(self).wf(),
            final(self).total_acquires == old(self).total_acquires,
            final(self).total_releases == old(self).total_releases,
            !(old(self).state is Persisting && old(self).pending_image is Some) ==> act is Wait
                && *final(self) == *old(self),
            old(self).state is Persisting ==> match old(self).pending_image {
                Some(img) => {
                    &&& (png_encode_ok(img.pixels@, img.width, img.height) ==> (act matches
                        ListenerAction::CreateArtifact { millis: m, name, bytes } && m == millis
                        && name@ == artifact_name_seq(millis) && bytes@ == png_encoding(
                        img.pixels@,
                        img.width,
                        img.height,
                    ) && final(self).state is Persisting && (final(self).pending_name matches Some(
                        n,
                    ) && n@ == artifact_name_seq(millis))))
                    &&& (!png_encode_ok(img.pixels@, img.width, img.height) ==> act
                        == ListenerAction::ReportFailure(
                        CaptureFailure::Persist(PersistError::EncodeFailed),
                    ) && final(self).state is Idle)
                },
                None => true,
            },
    {
        match self.state {
            ListenerState::Persisting => {},
            _ => {
                return ListenerAction::Wait;
            },
        }
        let img = match self.pending_image.take() {
            Some(img) => img,
            None => {
                return ListenerAction::Wait;
            },
        };
        match plan_persist(&img, millis) {
            Ok((name, bytes)) => {
                let reported = name.clone();
                self.pending_name = Some(name);
                ListenerAction::CreateArtifact { millis, name: reported, bytes }
            },
            Err(e) => {
                self.state = ListenerState::Idle;
                self.pending_name = None;
                ListenerAction::ReportFailure(CaptureFailure::Persist(e))
            },
        }
    }

    /// The driver attempted the exclusive creation; report the outcome and
    /// return to idle.
    pub fn on_create_result(&mut self, created: bool) -> (act: ListenerAction)
        requires
            old(self).wf(),
        ensures
            final(self).wf(),
            final(self).total_acquires == old(self).total_acquires,
            final(self).total_releases == old(self).total_releases,
            !(old(self).state is Persisting && old(self).pending_name is Some) ==> act is Wait
                && *final(self) == *old(self),
            old(self).state is Persisting ==> match old(self).pending_name {
                Some(n) => {
                    &&& final(self).state is Idle
                    &&& (created ==> (act matches ListenerAction::ReportSuccess { name } && name@
                        == n@))
                    &&& (!created ==> act == ListenerAction::ReportFailure(
                        CaptureFailure::Persist(PersistError::CreateFailed),
                    ))
                },
                None => true,
            },
    {
        match self.state {
            ListenerState::Persisting => {},
            _ => {
                return ListenerAction::Wait;
            },
        }
        let name = match self.pending_name.take() {
            Some(n) => n,
            None => {
                return ListenerAction::Wait;
            },
        };
        self.state = ListenerState::Idle;
        if created {
            ListenerAction::ReportSuccess { name }
        } else {
            ListenerAction::ReportFailure(CaptureFailure::Persist(PersistError::CreateFailed))
        }
    }
}

} // verus!
