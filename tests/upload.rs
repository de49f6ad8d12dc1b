use imgd::digest::token_fingerprint;
use imgd::error::AppError;
use imgd::ingest::{check_field, Upload};
use imgd::pipeline::ingest_chunks;
use imgd::store::{after_move, after_probe, locate, CommitStep, Disposition, MoveResult, Probe};
use imgd::webp::{has_webp_extension, has_webp_signature};

const FIXTURE_SHA256: &str = "4152f56fb29e36b805a629a143e9f1c5fdb9152b452989ab49a1f601d285a60a";

fn webp_fixture() -> Vec<u8> {
    let mut data = Vec::from(*b"RIFF");
    data.extend_from_slice(&[0x10, 0x00, 0x00, 0x00]);
    data.extend_from_slice(b"WEBP");
    data.extend_from_slice(b"VP8 ");
    data.extend_from_slice(&[0x00, 0x00, 0x00, 0x00]);
    data
}

fn upload(name: &str, chunks: Vec<Vec<u8>>) -> Result<(String, u64), AppError> {
    ingest_chunks(Some("file"), Some(name), &chunks, 5 * 1024 * 1024).map(|o| (o.sha256, o.size))
}

#[test]
fn upload_webp_success_and_file_exists() {
    let (sha, size) = upload("ok.webp", vec![webp_fixture()]).expect("accepted");
    assert_eq!(sha, FIXTURE_SHA256);
    assert_eq!(size, 20);
    let loc = locate(2025, 3, &sha);
    assert_eq!(loc.relative_path, format!("/2025/03/{FIXTURE_SHA256}.webp"));
    assert_eq!(loc.year_dir, "2025");
    assert_eq!(loc.month_dir, "03");
    assert_eq!(loc.file_name, format!("{FIXTURE_SHA256}.webp"));
    assert_eq!(after_probe(Probe::Absent), CommitStep::MoveIntoPlace);
    assert_eq!(after_move(MoveResult::Moved), Ok(Disposition::Stored));
}

#[test]
fn reject_fake_webp_text_payload() {
    let r = upload("fake.webp", vec![b"hello, world".to_vec()]);
    assert_eq!(r, Err(AppError::UnsupportedMediaType));
    assert_eq!(AppError::UnsupportedMediaType.status(), 415);
    assert_eq!(AppError::UnsupportedMediaType.code(), "unsupported_media_type");
}

#[test]
fn deduplicate_same_content_by_sha256() {
    let bytes = webp_fixture();
    let (s1, n1) = upload("a.webp", vec![bytes.clone()]).expect("first");
    let (s2, n2) = upload("b.webp", vec![bytes[..5].to_vec(), bytes[5..].to_vec()]).expect("second");
    assert_eq!(s1, s2);
    assert_eq!(n1, n2);
    assert_eq!(locate(2025, 3, &s1).relative_path, locate(2025, 3, &s2).relative_path);
    assert_eq!(after_probe(Probe::Present), CommitStep::AlreadyStored);
    assert_eq!(after_move(MoveResult::DestinationExists), Ok(Disposition::Deduplicated));
}

const SIXTEEN_SHA256: &str = "b14d42e7f2cc868eb64eb62427224aed850d5112498a2bdedc151b9135552576";

fn sixteen_bytes() -> Vec<u8> {
    let mut data = Vec::from(*b"RIFF");
    data.extend_from_slice(&[0x00, 0x00, 0x00, 0x00]);
    data.extend_from_slice(b"WEBP");
    data.extend_from_slice(b"abcd");
    data
}

#[test]
fn sixteen_byte_upload_is_stored_by_digest() {
    let (sha, size) = upload("ok.webp", vec![sixteen_bytes()]).expect("accepted");
    assert_eq!(sha, SIXTEEN_SHA256);
    assert_eq!(size, 16);
    assert_eq!(
        locate(2026, 10, &sha).relative_path,
        format!("/2026/10/{SIXTEEN_SHA256}.webp")
    );
}

#[test]
fn second_upload_under_other_name_gets_same_answer() {
    let (s1, n1) = upload("ok.webp", vec![sixteen_bytes()]).expect("first");
    let (s2, n2) = upload("dup.webp", vec![sixteen_bytes()]).expect("second");
    assert_eq!(s1, s2);
    assert_eq!(n1, n2);
    assert_eq!(locate(2026, 10, &s1).relative_path, locate(2026, 10, &s2).relative_path);
}

#[test]
fn failed_commit_steps_are_internal_errors() {
    assert_eq!(after_probe(Probe::Failed), CommitStep::Abort(AppError::Internal));
    assert_eq!(after_move(MoveResult::Failed), Err(AppError::Internal));
    assert_eq!(AppError::Internal.status(), 500);
    assert_eq!(AppError::Internal.code(), "internal_error");
}

#[test]
fn wrong_extension_is_refused_before_reading() {
    assert_eq!(
        upload("image.png", vec![webp_fixture()]),
        Err(AppError::UnsupportedMediaType)
    );
    assert_eq!(upload("noext", vec![webp_fixture()]), Err(AppError::UnsupportedMediaType));
}

#[test]
fn field_checks() {
    assert_eq!(check_field(Some("file"), Some("a.webp")), Ok(()));
    assert_eq!(check_field(Some("image"), Some("a.webp")), Err(AppError::BadRequest));
    assert_eq!(check_field(None, Some("a.webp")), Err(AppError::BadRequest));
    assert_eq!(check_field(Some("file"), None), Err(AppError::BadRequest));
    assert_eq!(check_field(Some("file"), Some("a.gif")), Err(AppError::UnsupportedMediaType));
    assert_eq!(AppError::BadRequest.status(), 400);
    assert_eq!(AppError::BadRequest.code(), "bad_request");
}

#[test]
fn oversize_body_is_refused_even_with_valid_signature() {
    let chunks = vec![webp_fixture(), webp_fixture()];
    assert_eq!(
        ingest_chunks(Some("file"), Some("a.webp"), &chunks, 39).err(),
        Some(AppError::FileTooLarge)
    );
    assert!(ingest_chunks(Some("file"), Some("a.webp"), &chunks, 40).is_ok());
    assert_eq!(AppError::FileTooLarge.status(), 413);
    assert_eq!(AppError::FileTooLarge.code(), "file_too_large");
}

#[test]
fn chunk_over_limit_changes_nothing() {
    let mut u = Upload::new(10);
    assert_eq!(u.accept_chunk(b"RIFF"), Ok(()));
    assert_eq!(u.accept_chunk(b"0123456789"), Err(AppError::FileTooLarge));
    assert_eq!(u.size(), 4);
    assert_eq!(u.accept_chunk(b"012345"), Ok(()));
    assert_eq!(u.size(), 10);
}

#[test]
fn signature_split_over_many_chunks() {
    let b = webp_fixture();
    let chunks: Vec<Vec<u8>> = b.iter().map(|x| vec![*x]).collect();
    let (sha, size) = upload("x.webp", chunks).expect("accepted");
    assert_eq!(sha, FIXTURE_SHA256);
    assert_eq!(size, 20);
}

#[test]
fn short_body_fails_signature() {
    assert_eq!(upload("x.webp", vec![b"RIFF0000WEB".to_vec()]), Err(AppError::UnsupportedMediaType));
    assert_eq!(upload("x.webp", vec![]), Err(AppError::UnsupportedMediaType));
}

#[test]
fn signature_check() {
    assert!(has_webp_signature(&webp_fixture()));
    assert!(has_webp_signature(b"RIFF\0\0\0\0WEBP"));
    assert!(!has_webp_signature(b"RIFF\0\0\0\0WEB"));
    assert!(!has_webp_signature(b"RIFX\0\0\0\0WEBP"));
    assert!(!has_webp_signature(b"hello, world"));
}

#[test]
fn extension_check() {
    assert!(has_webp_extension("ok.webp"));
    assert!(has_webp_extension("OK.WebP"));
    assert!(has_webp_extension("dir/sub/x.webp"));
    assert!(has_webp_extension("x..webp"));
    assert!(has_webp_extension("x.webp/"));
    assert!(has_webp_extension("x.webp/."));
    assert!(!has_webp_extension(".webp"));
    assert!(!has_webp_extension("webp"));
    assert!(!has_webp_extension("a.webp.png"));
    assert!(!has_webp_extension("a.web"));
    assert!(!has_webp_extension(""));
    assert!(!has_webp_extension("x.webp/.."));
}

#[test]
fn digest_differs_from_input() {
    assert_ne!(token_fingerprint("abc"), "abc");
}

#[test]
fn digest_text_is_sixty_four_hex_digits() {
    let (sha, _) = upload("ok.webp", vec![webp_fixture()]).expect("accepted");
    assert_eq!(sha.len(), 64);
}
