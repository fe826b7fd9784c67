use std::io::Read;

use bspatch_updater::bz::decompress;
use bspatch_updater::codec::offtout;
use bspatch_updater::error::Error;
use bspatch_updater::patch::apply_patch;
use bspatch_updater::sha::{bytes_eq, sha1_of_bytes};

fn bz_compress(data: &[u8]) -> Vec<u8> {
    let mut enc = bzip2::read::BzEncoder::new(data, bzip2::Compression::new(9));
    let mut out = Vec::new();
    enc.read_to_end(&mut out).unwrap();
    out
}

fn build_patch(triples: &[(i64, i64, i64)], diff: &[u8], extra: &[u8], newsize: i64) -> Vec<u8> {
    let mut ctrl_raw = Vec::new();
    for &(a, b, c) in triples {
        ctrl_raw.extend_from_slice(&offtout(a));
        ctrl_raw.extend_from_slice(&offtout(b));
        ctrl_raw.extend_from_slice(&offtout(c));
    }
    let cc = bz_compress(&ctrl_raw);
    let dc = bz_compress(diff);
    let ec = bz_compress(extra);
    let mut p = Vec::new();
    p.extend_from_slice(b"BSDIFF40");
    p.extend_from_slice(&offtout(cc.len() as i64));
    p.extend_from_slice(&offtout(dc.len() as i64));
    p.extend_from_slice(&offtout(newsize));
    p.extend_from_slice(&cc);
    p.extend_from_slice(&dc);
    p.extend_from_slice(&ec);
    p
}

#[test]
fn apply_reproduces_new_file_from_diff_and_extra() {
    let old = b"abcdef";
    let new_expected = b"ABCxyzXYZ";
    // One triple: 6 diffed bytes over the old file, then 3 extra bytes.
    let diff: Vec<u8> = (0..6).map(|i| new_expected[i].wrapping_sub(old[i])).collect();
    let patch = build_patch(&[(6, 3, 0)], &diff, b"XYZ", 9);
    let got = apply_patch(&patch, old).unwrap();
    assert_eq!(got, new_expected.to_vec());
}

#[test]
fn apply_handles_backward_seek_and_two_triples() {
    let old = b"0123456789";
    // Triple 1: copy 4 old bytes (zero diff), 2 extra bytes, then step the
    // old cursor back by 3. Triple 2: copy 6 old bytes from there.
    let patch = build_patch(&[(4, 2, -3), (6, 0, 0)], &[0u8; 10], b"XY", 12);
    let got = apply_patch(&patch, old).unwrap();
    assert_eq!(got, b"0123XY123456".to_vec());
}

#[test]
fn apply_reads_outside_old_file_as_zero() {
    let old = b"ab";
    let patch = build_patch(&[(4, 0, 0)], &[1, 1, 1, 1], b"", 4);
    let got = apply_patch(&patch, old).unwrap();
    assert_eq!(got, vec![b'b', b'c', 1, 1]);
}

#[test]
fn apply_of_empty_new_file_succeeds_without_reading_streams() {
    let mut p = Vec::new();
    p.extend_from_slice(b"BSDIFF40");
    p.extend_from_slice(&offtout(3));
    p.extend_from_slice(&offtout(3));
    p.extend_from_slice(&offtout(0));
    p.extend_from_slice(b"not bzip2 data at all");
    let got = apply_patch(&p, b"whatever").unwrap();
    assert_eq!(got, Vec::<u8>::new());
}

#[test]
fn bad_magic_fails_with_bad_patch_version() {
    let mut p = build_patch(&[(0, 1, 0)], b"", b"x", 1);
    p[7] = b'1'; // "BSDIFF41"
    assert_eq!(apply_patch(&p, b"old"), Err(Error::BadPatchVersion));
}

#[test]
fn negative_length_field_fails_with_bad_patch_size() {
    let mut p = Vec::new();
    p.extend_from_slice(b"BSDIFF40");
    p.extend_from_slice(&offtout(0));
    p.extend_from_slice(&offtout(0));
    p.extend_from_slice(&offtout(-1));
    assert_eq!(apply_patch(&p, b""), Err(Error::BadPatchSize));
}

#[test]
fn short_patch_fails_with_file_read_error() {
    assert_eq!(apply_patch(b"BSDIFF40", b""), Err(Error::FileReadError));
    assert_eq!(apply_patch(b"", b""), Err(Error::FileReadError));
}

#[test]
fn oversized_diff_run_fails_first_sanity_check() {
    // The first triple asks for newsize + 1 diff bytes.
    let patch = build_patch(&[(2, 0, 0)], &[0, 0], b"", 1);
    assert_eq!(apply_patch(&patch, b"old"), Err(Error::PatchSanityCheckFail(0)));
}

#[test]
fn negative_diff_run_fails_first_sanity_check() {
    let patch = build_patch(&[(-1, 0, 0)], b"", b"", 1);
    assert_eq!(apply_patch(&patch, b"old"), Err(Error::PatchSanityCheckFail(0)));
}

#[test]
fn oversized_extra_run_fails_second_sanity_check() {
    let patch = build_patch(&[(0, 2, 0)], b"", &[0, 0], 1);
    assert_eq!(apply_patch(&patch, b"old"), Err(Error::PatchSanityCheckFail(1)));
}

#[test]
fn undecodable_control_stream_fails_with_decode_error() {
    let mut p = Vec::new();
    p.extend_from_slice(b"BSDIFF40");
    p.extend_from_slice(&offtout(7));
    p.extend_from_slice(&offtout(0));
    p.extend_from_slice(&offtout(1));
    p.extend_from_slice(b"garbage");
    assert_eq!(apply_patch(&p, b"old"), Err(Error::DecodeError));
}

#[test]
fn exhausted_control_stream_fails_with_decode_error() {
    // Control stream holds one triple but two are needed.
    let patch = build_patch(&[(1, 0, 0)], &[0], b"", 2);
    assert_eq!(apply_patch(&patch, b"old"), Err(Error::DecodeError));
}

#[test]
fn short_diff_stream_fails_with_decode_error() {
    // The triple asks for 2 diff bytes; the diff stream holds 1.
    let patch = build_patch(&[(2, 0, 0)], &[0], b"", 2);
    assert_eq!(apply_patch(&patch, b"old"), Err(Error::DecodeError));
}

#[test]
fn decompress_inverts_compression() {
    let data = b"some data worth compressing, repeated; repeated; repeated".to_vec();
    let compressed = bz_compress(&data);
    assert_ne!(compressed, data);
    assert_eq!(decompress(&compressed).unwrap(), data);
}

#[test]
fn decompress_rejects_garbage() {
    assert_eq!(decompress(b"definitely not bzip2"), Err(Error::DecodeError));
}

#[test]
fn sha1_of_bytes_matches_known_digest() {
    let d = sha1_of_bytes(b"abc");
    let expected: Vec<u8> = vec![
        0xa9, 0x99, 0x3e, 0x36, 0x47, 0x06, 0x81, 0x6a, 0xba, 0x3e, 0x25, 0x71, 0x78, 0x50, 0xc2,
        0x6c, 0x9c, 0xd0, 0xd8, 0x9d,
    ];
    assert_eq!(d, expected);
}

#[test]
fn sha1_of_empty_input() {
    let d = sha1_of_bytes(b"");
    let expected: Vec<u8> = vec![
        0xda, 0x39, 0xa3, 0xee, 0x5e, 0x6b, 0x4b, 0x0d, 0x32, 0x55, 0xbf, 0xef, 0x95, 0x60, 0x18,
        0x90, 0xaf, 0xd8, 0x07, 0x09,
    ];
    assert_eq!(d, expected);
}

#[test]
fn bytes_eq_compares_contents() {
    assert!(bytes_eq(b"abc", b"abc"));
    assert!(!bytes_eq(b"abc", b"abd"));
    assert!(!bytes_eq(b"abc", b"abcd"));
    assert!(bytes_eq(b"", b""));
}
