use std::io::Read;
use std::io::Write;

use file_compressor::codec::{compress, decompress};
use file_compressor::engine::{advance, begin, prepare, transform, Action, Event};
use file_compressor::paths::{compressed_target, decompressed_target};
use file_compressor::request::{Mode, TransferError, TransferRequest};
use file_compressor::status::TransferOutcome;

fn request(source: &str, target: &str, mode: Mode) -> TransferRequest {
    TransferRequest::new(source.to_string(), target.to_string(), mode)
}

fn reported(action: Action) -> TransferOutcome {
    match action {
        Action::Report { outcome } => outcome,
        other => panic!("expected a report, got {:?}", other),
    }
}

#[test]
fn hello_world_round_trip() {
    let packed = compress(b"hello world").unwrap();
    assert_ne!(packed, b"hello world".to_vec());
    let mut independent = Vec::new();
    flate2::read::GzDecoder::new(packed.as_slice()).read_to_end(&mut independent).unwrap();
    assert_eq!(independent, b"hello world".to_vec());
    assert_eq!(decompress(&packed).unwrap(), b"hello world".to_vec());
}

#[test]
fn round_trip_of_varied_inputs() {
    let mut noisy = Vec::new();
    let mut x: u32 = 12345;
    for _ in 0..100_000 {
        x = x.wrapping_mul(1103515245).wrapping_add(12345);
        noisy.push((x >> 16) as u8);
    }
    let inputs: Vec<Vec<u8>> = vec![
        vec![0u8],
        vec![0xffu8; 70_000],
        (0..=255u8).collect(),
        noisy,
        b"aaaaaaaaaabbbbbbbbbbaaaaaaaaaa".to_vec(),
    ];
    for input in inputs {
        let packed = compress(&input).unwrap();
        assert_eq!(decompress(&packed).unwrap(), input);
    }
}

#[test]
fn empty_input_gives_a_framed_stream() {
    let packed = compress(&[]).unwrap();
    assert!(packed.len() >= 18);
    assert_eq!(&packed[0..3], &[0x1f, 0x8b, 8]);
    assert_eq!(decompress(&packed).unwrap(), Vec::<u8>::new());
}

#[test]
fn output_starts_with_gzip_header() {
    let packed = compress(b"some text to pack").unwrap();
    assert_eq!(&packed[0..3], &[0x1f, 0x8b, 8]);
}

#[test]
fn stream_without_trailer_is_rejected() {
    let packed = compress(b"hello world").unwrap();
    let cut = &packed[..packed.len() - 8];
    assert_eq!(decompress(cut), Err(TransferError::CorruptStream));
}

#[test]
fn unfinished_encoder_output_is_rejected() {
    let mut encoder = flate2::write::GzEncoder::new(Vec::new(), flate2::Compression::default());
    encoder.write_all(b"hello world").unwrap();
    let partial = encoder.get_ref().clone();
    assert_eq!(decompress(&partial), Err(TransferError::CorruptStream));
    let finished = encoder.finish().unwrap();
    assert_eq!(decompress(&finished).unwrap(), b"hello world".to_vec());
}

#[test]
fn non_gzip_bytes_are_a_corrupt_stream() {
    assert_eq!(decompress(b"this is plainly not gzip"), Err(TransferError::CorruptStream));
    assert_eq!(decompress(&[]), Err(TransferError::CorruptStream));
    assert_eq!(decompress(&[0x1f, 0x8b]), Err(TransferError::CorruptStream));
    let outcome = reported(advance(Mode::Decompress, Event::SourceRead { content: b"garbage".to_vec() }));
    assert_eq!(outcome, TransferOutcome::Failed { mode: Mode::Decompress, error: TransferError::CorruptStream });
}

#[test]
fn empty_source_is_reported_before_any_file_is_opened() {
    let outcome = reported(begin(&request("", "/tmp/out", Mode::Compress)));
    assert_eq!(outcome, TransferOutcome::Failed { mode: Mode::Compress, error: TransferError::PathMissing });
    assert_eq!(outcome.message(), "Please select both source and target paths.");
    assert_eq!(outcome.progress_percent(), 0);
    assert!(!outcome.is_success());
}

#[test]
fn empty_target_is_a_missing_path() {
    assert_eq!(prepare(&request("/tmp/in", "", Mode::Decompress)), Err(TransferError::PathMissing));
}

#[test]
fn begin_names_the_output_file_by_mode() {
    match begin(&request("/tmp/in", "/tmp/out", Mode::Compress)) {
        Action::OpenFiles { source_path, output_path } => {
            assert_eq!(source_path, "/tmp/in");
            assert_eq!(output_path, "/tmp/out.gz");
        }
        other => panic!("unexpected {:?}", other),
    }
    match begin(&request("/tmp/in.gz", "/tmp/out.gz", Mode::Decompress)) {
        Action::OpenFiles { source_path, output_path } => {
            assert_eq!(source_path, "/tmp/in.gz");
            assert_eq!(output_path, "/tmp/out");
        }
        other => panic!("unexpected {:?}", other),
    }
}

#[test]
fn target_path_policy() {
    assert_eq!(compressed_target("out"), "out.gz");
    assert_eq!(compressed_target("out.gz"), "out.gz.gz");
    assert_eq!(decompressed_target("out.gz"), "out");
    assert_eq!(decompressed_target("out"), "out");
    assert_eq!(decompressed_target("a.gz.gz"), "a.gz");
    assert_eq!(decompressed_target("gz"), "gz");
    assert_eq!(decompressed_target(".gz"), "");
    assert_eq!(decompressed_target("caf\u{e9}.gz"), "caf\u{e9}");
    assert_eq!(decompressed_target(&compressed_target("r\u{e9}sum\u{e9}")), "r\u{e9}sum\u{e9}");
}

#[test]
fn transform_by_mode() {
    let packed = transform(Mode::Compress, b"abc").unwrap();
    assert_eq!(transform(Mode::Decompress, &packed).unwrap(), b"abc".to_vec());
    assert_eq!(transform(Mode::Decompress, b"abc"), Err(TransferError::CorruptStream));
}

#[test]
fn advance_through_a_compression() {
    match advance(Mode::Compress, Event::SourceRead { content: b"hello world".to_vec() }) {
        Action::WriteOutput { bytes } => assert_eq!(decompress(&bytes).unwrap(), b"hello world".to_vec()),
        other => panic!("unexpected {:?}", other),
    }
    let outcome = reported(advance(Mode::Compress, Event::Completed { elapsed_nanos: 1_500_000_000 }));
    assert_eq!(outcome, TransferOutcome::Succeeded { mode: Mode::Compress, elapsed_nanos: 1_500_000_000 });
    assert_eq!(outcome.message(), "Compressed successfully in 1.5s");
    assert_eq!(outcome.progress_percent(), 100);
    assert!(outcome.is_success());
}

#[test]
fn advance_reports_each_failure() {
    let cases = [
        (Event::OpenFailed, TransferError::OpenFailure),
        (Event::ReadFailed, TransferError::CopyFailure),
        (Event::WriteFailed, TransferError::CopyFailure),
        (Event::FlushFailed, TransferError::CopyFailure),
    ];
    for (event, error) in cases {
        let outcome = reported(advance(Mode::Decompress, event));
        assert_eq!(outcome, TransferOutcome::Failed { mode: Mode::Decompress, error });
    }
    let outcome = reported(advance(Mode::Compress, Event::FlushFailed));
    assert_eq!(outcome, TransferOutcome::Failed { mode: Mode::Compress, error: TransferError::FinalizeFailure });
}

#[test]
fn failed_flush_when_decompressing_is_a_decompression_error() {
    let outcome = reported(advance(Mode::Decompress, Event::FlushFailed));
    assert_eq!(outcome.message(), "Error during decompression.");
    assert_eq!(outcome.progress_percent(), 0);
}

#[test]
fn hello_world_trailer_holds_crc_and_size() {
    let packed = compress(b"hello world").unwrap();
    assert_eq!(&packed[packed.len() - 8..], &[0x85, 0x11, 0x4a, 0x0d, 0x0b, 0, 0, 0]);
    let empty = compress(&[]).unwrap();
    assert_eq!(&empty[empty.len() - 4..], &[0, 0, 0, 0]);
}

#[test]
fn every_strict_prefix_of_a_stream_is_rejected() {
    let packed = compress(b"hello world, hello world, hello world").unwrap();
    for k in 0..packed.len() {
        assert_eq!(decompress(&packed[..k]), Err(TransferError::CorruptStream));
        let outcome = reported(advance(Mode::Decompress, Event::SourceRead { content: packed[..k].to_vec() }));
        assert_eq!(outcome, TransferOutcome::Failed { mode: Mode::Decompress, error: TransferError::CorruptStream });
    }
}

#[test]
fn status_messages() {
    let failed = |mode, error| TransferOutcome::Failed { mode, error }.message();
    assert_eq!(failed(Mode::Compress, TransferError::OpenFailure), "Error opening files.");
    assert_eq!(failed(Mode::Compress, TransferError::CopyFailure), "Error during compression.");
    assert_eq!(failed(Mode::Decompress, TransferError::CopyFailure), "Error during decompression.");
    assert_eq!(
        failed(Mode::Decompress, TransferError::CorruptStream),
        "Error during decompression: the input is not a valid gzip stream."
    );
    assert_eq!(failed(Mode::Compress, TransferError::FinalizeFailure), "Error finishing the output file.");
    let done = TransferOutcome::Succeeded { mode: Mode::Decompress, elapsed_nanos: 0 };
    assert_eq!(done.message(), "Decompressed successfully in 0ns");
    let quick = TransferOutcome::Succeeded { mode: Mode::Compress, elapsed_nanos: 2_500 };
    assert_eq!(quick.message(), "Compressed successfully in 2.5\u{b5}s");
}
