//! End-to-end scenarios: a fake clipboard and an in-memory artifact store
//! drive the listener through whole notifications.

use clipwatch::extract::{ClipboardAction, ClipboardEvent};
use clipwatch::listener::{CaptureFailure, Listener, ListenerAction, ListenerState};
use clipwatch::persist::ArtifactStore;

/// An instrumented fake clipboard: what it holds and how its operations go,
/// with counters for every open and close.
struct FakeClipboard {
    has_bitmap: bool,
    payload: Option<Vec<u8>>,
    open_succeeds: bool,
    opens: u64,
    closes: u64,
}

impl FakeClipboard {
    fn perform(&mut self, action: &ClipboardAction) -> ClipboardEvent {
        match action {
            ClipboardAction::QueryFormat => ClipboardEvent::FormatStatus(self.has_bitmap),
            ClipboardAction::Acquire => {
                if self.open_succeeds {
                    self.opens += 1;
                }
                ClipboardEvent::AcquireStatus(self.open_succeeds)
            }
            ClipboardAction::FetchData => ClipboardEvent::DataStatus(self.payload.is_some()),
            ClipboardAction::LockPayload => ClipboardEvent::LockStatus(self.payload.clone()),
            ClipboardAction::Unlock => ClipboardEvent::UnlockStatus(true),
            ClipboardAction::Release => {
                self.closes += 1;
                ClipboardEvent::ReleaseStatus(true)
            }
            ClipboardAction::Finish(_) | ClipboardAction::Wait => {
                panic!("the listener never hands these to the driver")
            }
        }
    }
}

/// What one dispatched notification produced.
struct Outcome {
    success_lines: Vec<String>,
    error_lines: Vec<String>,
}

/// Deliver one change notification and run it to completion, the way the
/// host's event loop would.
fn dispatch(
    listener: &mut Listener,
    clip: &mut FakeClipboard,
    store: &mut ArtifactStore,
    millis: u64,
) -> Outcome {
    let mut out = Outcome { success_lines: Vec::new(), error_lines: Vec::new() };
    let mut action = listener.on_change_notification();
    loop {
        action = match action {
            ListenerAction::Clipboard(a) => {
                let event = clip.perform(&a);
                listener.on_clipboard_event(event)
            }
            ListenerAction::NeedTimestamp => listener.on_timestamp(millis),
            ListenerAction::CreateArtifact { millis: m, name, bytes } => {
                assert_eq!(name, format!("clip_{}.png", m));
                let created = store.create_new(m, bytes).is_ok();
                listener.on_create_result(created)
            }
            ListenerAction::ReportSuccess { name } => {
                out.success_lines.push(name);
                break;
            }
            ListenerAction::ReportFailure(f) => {
                let line = match f {
                    CaptureFailure::Extract(e) => e.message().to_string(),
                    CaptureFailure::Persist(e) => e.message().to_string(),
                };
                out.error_lines.push(line);
                break;
            }
            ListenerAction::Quiet => break,
            ListenerAction::Wait => panic!("the driver never feeds an event out of turn"),
        };
    }
    assert_eq!(listener.state, ListenerState::Idle);
    out
}

fn dib_2x2_red() -> Vec<u8> {
    let mut p = Vec::new();
    p.extend_from_slice(&40u32.to_le_bytes());
    p.extend_from_slice(&2i32.to_le_bytes());
    p.extend_from_slice(&2i32.to_le_bytes());
    p.extend_from_slice(&1u16.to_le_bytes());
    p.extend_from_slice(&24u16.to_le_bytes());
    p.extend_from_slice(&[0u8; 4]);
    p.extend_from_slice(&16u32.to_le_bytes());
    p.extend_from_slice(&[0u8; 16]);
    for _row in 0..2 {
        p.extend_from_slice(&[0, 0, 255, 0, 0, 255, 0, 0]); // red in blue-green-red order
    }
    p
}

#[test]
fn one_notification_persists_one_decodable_artifact() {
    let mut listener = Listener::new();
    let mut clip = FakeClipboard {
        has_bitmap: true,
        payload: Some(dib_2x2_red()),
        open_succeeds: true,
        opens: 0,
        closes: 0,
    };
    let mut store = ArtifactStore::new();

    let out = dispatch(&mut listener, &mut clip, &mut store, 1712000000000);

    assert_eq!(out.success_lines, vec!["clip_1712000000000.png".to_string()]);
    assert!(out.error_lines.is_empty());
    assert_eq!(store.count(), 1);
    let png = store.lookup(1712000000000).expect("the artifact must exist");
    let img = image::load_from_memory_with_format(png, image::ImageFormat::Png)
        .expect("the artifact must be a decodable PNG");
    assert_eq!(img.width(), 2);
    assert_eq!(img.height(), 2);
    for px in img.to_rgba8().into_raw().chunks(4) {
        assert_eq!(px, &[255, 0, 0, 255]);
    }
    assert_eq!(clip.opens, 1);
    assert_eq!(clip.closes, 1);
    assert_eq!(listener.total_acquires, 1);
    assert_eq!(listener.total_releases, 1);
}

#[test]
fn text_only_clipboard_yields_no_file_and_no_error() {
    let mut listener = Listener::new();
    let mut clip = FakeClipboard {
        has_bitmap: false, // only a text format on offer
        payload: None,
        open_succeeds: true,
        opens: 0,
        closes: 0,
    };
    let mut store = ArtifactStore::new();

    let out = dispatch(&mut listener, &mut clip, &mut store, 1);

    assert!(out.success_lines.is_empty());
    assert!(out.error_lines.is_empty());
    assert_eq!(store.count(), 0);
    assert_eq!(clip.opens, 0);
    assert_eq!(clip.closes, 0);
}

#[test]
fn contended_clipboard_reports_once_and_recovers() {
    let mut listener = Listener::new();
    let mut clip = FakeClipboard {
        has_bitmap: true,
        payload: Some(dib_2x2_red()),
        open_succeeds: false, // owned by another party
        opens: 0,
        closes: 0,
    };
    let mut store = ArtifactStore::new();

    let out = dispatch(&mut listener, &mut clip, &mut store, 5);
    assert_eq!(out.error_lines, vec!["couldn't open clipboard".to_string()]);
    assert!(out.success_lines.is_empty());
    assert_eq!(store.count(), 0);

    // The next, uncontended notification succeeds.
    clip.open_succeeds = true;
    let out = dispatch(&mut listener, &mut clip, &mut store, 6);
    assert_eq!(out.success_lines, vec!["clip_6.png".to_string()]);
    assert!(out.error_lines.is_empty());
    assert_eq!(store.count(), 1);
    assert_eq!(clip.opens, clip.closes);
    assert_eq!(listener.total_acquires, listener.total_releases);
}

#[test]
fn acquires_balance_releases_across_mixed_outcomes() {
    let mut listener = Listener::new();
    let mut store = ArtifactStore::new();
    let mut clip = FakeClipboard {
        has_bitmap: true,
        payload: Some(dib_2x2_red()),
        open_succeeds: true,
        opens: 0,
        closes: 0,
    };

    dispatch(&mut listener, &mut clip, &mut store, 10); // success
    clip.has_bitmap = false;
    dispatch(&mut listener, &mut clip, &mut store, 11); // quiet
    clip.has_bitmap = true;
    clip.open_succeeds = false;
    dispatch(&mut listener, &mut clip, &mut store, 12); // contended
    clip.open_succeeds = true;
    clip.payload = Some(vec![0u8; 10]);
    dispatch(&mut listener, &mut clip, &mut store, 13); // malformed
    clip.payload = None;
    dispatch(&mut listener, &mut clip, &mut store, 14); // data gone
    clip.payload = Some(vec![0xaa; 44]);
    dispatch(&mut listener, &mut clip, &mut store, 15); // undecodable
    clip.payload = Some(dib_2x2_red());
    dispatch(&mut listener, &mut clip, &mut store, 16); // success again

    assert_eq!(clip.opens, clip.closes);
    assert_eq!(listener.total_acquires, listener.total_releases);
    assert_eq!(listener.total_acquires, clip.opens);
    assert_eq!(store.count(), 2);
}

#[test]
fn same_millisecond_twice_fails_the_second_create_and_keeps_the_first() {
    let mut listener = Listener::new();
    let mut store = ArtifactStore::new();
    let mut clip = FakeClipboard {
        has_bitmap: true,
        payload: Some(dib_2x2_red()),
        open_succeeds: true,
        opens: 0,
        closes: 0,
    };

    let first = dispatch(&mut listener, &mut clip, &mut store, 42);
    assert_eq!(first.success_lines, vec!["clip_42.png".to_string()]);
    let original_bytes = store.lookup(42).unwrap().clone();

    let second = dispatch(&mut listener, &mut clip, &mut store, 42);
    assert!(second.success_lines.is_empty());
    assert_eq!(second.error_lines, vec!["couldn't open file to write".to_string()]);

    assert_eq!(store.count(), 1);
    assert_eq!(store.lookup(42).unwrap(), &original_bytes);
}
