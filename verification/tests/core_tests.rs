//! Byte-level and component-level checks: header synthesis, payload
//! validation, decoding, naming and the artifact store.

use clipwatch::bmp::{assemble_bmp_file, push_u32_le, synthesize_file_header};
use clipwatch::extract::{reconstruct_image, ExtractionError};
use clipwatch::persist::{artifact_name, encode_image, ArtifactStore, PersistError};
use clipwatch::extract::ReconstructedImage;
use clipwatch::listener::{capture_artifact, CaptureFailure};

/// A 2x2 bottom-up 24-bit device-independent bitmap payload whose four pixels
/// all have the given blue/green/red value.
fn dib_2x2(b: u8, g: u8, r: u8) -> Vec<u8> {
    let mut p = Vec::new();
    p.extend_from_slice(&40u32.to_le_bytes()); // info header size
    p.extend_from_slice(&2i32.to_le_bytes()); // width
    p.extend_from_slice(&2i32.to_le_bytes()); // height
    p.extend_from_slice(&1u16.to_le_bytes()); // planes
    p.extend_from_slice(&24u16.to_le_bytes()); // bits per pixel
    p.extend_from_slice(&0u32.to_le_bytes()); // compression
    p.extend_from_slice(&16u32.to_le_bytes()); // image size
    p.extend_from_slice(&0i32.to_le_bytes()); // x pixels per meter
    p.extend_from_slice(&0i32.to_le_bytes()); // y pixels per meter
    p.extend_from_slice(&0u32.to_le_bytes()); // colors used
    p.extend_from_slice(&0u32.to_le_bytes()); // important colors
    assert_eq!(p.len(), 40);
    for _row in 0..2 {
        p.extend_from_slice(&[b, g, r, b, g, r, 0, 0]); // two pixels + padding
    }
    assert_eq!(p.len(), 56);
    p
}

#[test]
fn file_header_fields_sit_at_their_offsets() {
    let h = synthesize_file_header(56);
    assert_eq!(h.len(), 14);
    assert_eq!(&h[0..2], b"BM");
    assert_eq!(u32::from_le_bytes([h[2], h[3], h[4], h[5]]), 70); // 14 + 56
    assert_eq!(&h[6..10], &[0, 0, 0, 0]); // reserved
    assert_eq!(u32::from_le_bytes([h[10], h[11], h[12], h[13]]), 54); // 14 + 40
}

#[test]
fn push_u32_le_writes_little_endian() {
    let mut v: Vec<u8> = vec![0xff];
    push_u32_le(&mut v, 0x0a0b0c0d);
    assert_eq!(v, vec![0xff, 0x0d, 0x0c, 0x0b, 0x0a]);
}

#[test]
fn assembly_prepends_header_and_keeps_payload() {
    let payload = dib_2x2(0, 0, 255);
    let file = assemble_bmp_file(&payload);
    assert_eq!(file.len(), 14 + payload.len());
    assert_eq!(&file[0..2], b"BM");
    assert_eq!(&file[14..], &payload[..]);
    // The declared dimensions reappear at their file offsets.
    assert_eq!(&file[18..22], &payload[4..8]);
    assert_eq!(&file[22..26], &payload[8..12]);
}

#[test]
fn reconstruct_decodes_a_valid_payload_with_its_declared_dimensions() {
    let payload = dib_2x2(0, 0, 255); // red
    let img = reconstruct_image(&payload).expect("a valid payload must decode");
    assert_eq!(img.width, 2);
    assert_eq!(img.height, 2);
    assert_eq!(img.pixels.len(), 16);
    for px in img.pixels.chunks(4) {
        assert_eq!(px, &[255, 0, 0, 255]); // red, opaque
    }
}

#[test]
fn reconstruct_handles_top_down_height() {
    let mut payload = dib_2x2(12, 34, 56);
    payload[8..12].copy_from_slice(&(-2i32).to_le_bytes()); // top-down marker
    let img = reconstruct_image(&payload).expect("a top-down payload must decode");
    assert_eq!(img.width, 2);
    assert_eq!(img.height, 2);
}

#[test]
fn reconstruct_rejects_short_payload_as_malformed() {
    let payload = vec![0u8; 43];
    assert_eq!(
        reconstruct_image(&payload).unwrap_err(),
        ExtractionError::MalformedData
    );
}

#[test]
fn reconstruct_rejects_undecodable_payload() {
    let payload = vec![0xaau8; 44];
    assert_eq!(
        reconstruct_image(&payload).unwrap_err(),
        ExtractionError::DecodeFailed
    );
}

#[test]
fn extraction_error_messages_match_their_causes() {
    assert_eq!(
        ExtractionError::FormatUnavailable.message(),
        "wanted clipboard format is not available"
    );
    assert_eq!(ExtractionError::AcquisitionFailed.message(), "couldn't open clipboard");
    assert_eq!(ExtractionError::DataUnavailable.message(), "couldn't get clipboard data");
    assert_eq!(ExtractionError::LockFailed.message(), "couldn't lock clipboard data");
    assert_eq!(ExtractionError::MalformedData.message(), "clipboard data is malformed");
    assert_eq!(ExtractionError::UnlockFailed.message(), "couldn't unlock clipboard data");
    assert_eq!(ExtractionError::ReleaseFailed.message(), "couldn't close clipboard");
    assert_eq!(ExtractionError::DecodeFailed.message(), "couldn't parse clipboard image");
}

#[test]
fn artifact_names_carry_the_millisecond() {
    assert_eq!(artifact_name(0), "clip_0.png");
    assert_eq!(artifact_name(7), "clip_7.png");
    assert_eq!(artifact_name(1234567890123), "clip_1234567890123.png");
    assert_eq!(artifact_name(u64::MAX), "clip_18446744073709551615.png");
}

#[test]
fn encode_produces_a_decodable_png_with_the_image_dimensions() {
    let payload = dib_2x2(255, 0, 0); // blue
    let img = reconstruct_image(&payload).expect("payload must decode");
    let png = encode_image(&img).expect("encoding must succeed");
    // PNG signature and big-endian header dimensions.
    assert_eq!(&png[0..8], &[137, 80, 78, 71, 13, 10, 26, 10]);
    assert_eq!(u32::from_be_bytes([png[16], png[17], png[18], png[19]]), 2);
    assert_eq!(u32::from_be_bytes([png[20], png[21], png[22], png[23]]), 2);
    // The file decodes back to the same pixels.
    let round = image::load_from_memory_with_format(&png, image::ImageFormat::Png)
        .expect("the produced PNG must decode");
    assert_eq!(round.width(), 2);
    assert_eq!(round.height(), 2);
    for px in round.to_rgba8().into_raw().chunks(4) {
        assert_eq!(px, &[0, 0, 255, 255]); // blue, opaque
    }
}

#[test]
fn encode_rejects_an_empty_dimension() {
    let img = ReconstructedImage { pixels: Vec::new(), width: 0, height: 0 };
    assert_eq!(encode_image(&img).unwrap_err(), PersistError::EncodeFailed);
}

#[test]
fn persist_error_messages_match_their_causes() {
    assert_eq!(PersistError::CreateFailed.message(), "couldn't open file to write");
    assert_eq!(PersistError::EncodeFailed.message(), "couldn't encode image");
}

/// A bottom-up 24-bit payload of the given dimensions with an arbitrary
/// pixel pattern.
fn dib_sized(width: i32, height: i32) -> Vec<u8> {
    let mut p = Vec::new();
    p.extend_from_slice(&40u32.to_le_bytes());
    p.extend_from_slice(&width.to_le_bytes());
    p.extend_from_slice(&height.to_le_bytes());
    p.extend_from_slice(&1u16.to_le_bytes());
    p.extend_from_slice(&24u16.to_le_bytes());
    p.extend_from_slice(&0u32.to_le_bytes());
    let stride = ((width as usize * 3) + 3) / 4 * 4;
    let pixel_bytes = stride * height as usize;
    p.extend_from_slice(&(pixel_bytes as u32).to_le_bytes());
    p.extend_from_slice(&[0u8; 16]);
    for i in 0..pixel_bytes {
        p.push((i % 251) as u8);
    }
    p
}

#[test]
fn capture_produces_a_png_with_the_payloads_declared_dimensions() {
    let payload = dib_sized(3, 2);
    let (name, png) = capture_artifact(&payload, 99).expect("the capture must succeed");
    assert_eq!(name, "clip_99.png");
    let img = image::load_from_memory_with_format(&png, image::ImageFormat::Png)
        .expect("the artifact must be a decodable PNG");
    assert_eq!(img.width(), 3);
    assert_eq!(img.height(), 2);
}

#[test]
fn capture_fails_exactly_as_its_stages_do() {
    assert_eq!(
        capture_artifact(&vec![0u8; 10], 1).unwrap_err(),
        CaptureFailure::Extract(ExtractionError::MalformedData)
    );
    assert_eq!(
        capture_artifact(&vec![0xaa; 44], 1).unwrap_err(),
        CaptureFailure::Extract(ExtractionError::DecodeFailed)
    );
}

#[test]
fn store_create_is_exclusive_and_never_clobbers() {
    let mut store = ArtifactStore::new();
    assert_eq!(store.count(), 0);
    assert!(store.create_new(1000, vec![1, 2, 3]).is_ok());
    assert_eq!(store.count(), 1);
    // A second artifact in the same millisecond fails...
    assert_eq!(
        store.create_new(1000, vec![9, 9, 9]).unwrap_err(),
        PersistError::CreateFailed
    );
    // ...and the first one's bytes are unchanged.
    assert_eq!(store.lookup(1000).unwrap(), &vec![1, 2, 3]);
    assert_eq!(store.count(), 1);
    // A different millisecond is fine.
    assert!(store.create_new(1001, vec![4]).is_ok());
    assert_eq!(store.count(), 2);
    assert!(store.lookup(999).is_none());
    assert!(store.has_artifact(1001));
    assert!(!store.has_artifact(999));
}
