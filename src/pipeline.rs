use vstd::prelude::*;
use vstd::string::StringSliceAdditionalSpecFns;

use crate::digest::{hex_lower, sha256_of};
use crate::error::AppError;
use crate::ingest::{check_field, field_verdict, StagedObject, Upload};
use crate::store::{
    move_outcome, probe_step, CommitStep, Disposition, MoveResult, Probe,
};
use crate::token::text_view;
use crate::webp::{has_webp_extension_spec, is_webp_signature};

verus! {

/// The bytes of a body that arrived in `chunks`, in order.
pub open spec fn concat_chunks(chunks: Seq<Vec<u8>>) -> Seq<u8>
    decreases chunks.len(),
{
    if chunks.len() == 0 {
        Seq::empty()
    } else {
        concat_chunks(chunks.drop_last()) + chunks.last()@
    }
}

/// The verdict of the ingestion pipeline on one body part, before the
/// commit: the field checks first, then the size limit over the whole
/// stream, then the signature; a body that passes is described by its
/// digest in lower-case hex and its size.
pub open spec fn ingest_verdict(
    field_name: Option<Seq<char>>,
    file_name: Option<&str>,
    body: Seq<u8>,
    max_bytes: u64,
) -> Result<(Seq<char>, nat), AppError> {
    match field_verdict(field_name, file_name) {
        Err(e) => Err(e),
        Ok(()) => if body.len() > max_bytes {
            Err(AppError::FileTooLarge)
        } else if !is_webp_signature(body) {
            Err(AppError::UnsupportedMediaType)
        } else {
            Ok((hex_lower(sha256_of(body)), body.len()))
        },
    }
}

proof fn lemma_concat_prefix_len(chunks: Seq<Vec<u8>>, j: int)
    requires
        0 <= j <= chunks.len(),
    ensures
        concat_chunks(chunks.take(j)).len() <= concat_chunks(chunks).len(),
    decreases chunks.len(),
{
    if j < chunks.len() {
        assert(chunks.drop_last().take(j) =~= chunks.take(j));
        lemma_concat_prefix_len(chunks.drop_last(), j);
    } else {
        assert(chunks.take(j) =~= chunks);
    }
}

/// Runs one body part through the pipeline: the field checks, then each
/// chunk in turn under the size limit, then the signature check.
pub fn ingest_chunks(
    field_name: Option<&str>,
    file_name: Option<&str>,
    chunks: &Vec<Vec<u8>>,
    max_bytes: u64,
) -> (r: Result<StagedObject, AppError>)
    ensures
        match r {
            Ok(o) => ingest_verdict(text_view(field_name), file_name, concat_chunks(chunks@), max_bytes)
                == Ok::<(Seq<char>, nat), AppError>((o.sha256@, o.size as nat)) && o.sha256@.len()
                == 64,
            Err(e) => ingest_verdict(
                text_view(field_name),
                file_name,
                concat_chunks(chunks@),
                max_bytes,
            ) == Err::<(Seq<char>, nat), AppError>(e),
        },
{
    match check_field(field_name, file_name) {
        Err(e) => {
            return Err(e);
        },
        Ok(()) => {},
    }
    let mut upload = Upload::new(max_bytes);
    let n = chunks.len();
    let mut i: usize = 0;
    while i < n
        invariant
            n == chunks@.len(),
            i <= n,
            upload.wf(),
            upload.limit() == max_bytes,
            upload.received().len() <= max_bytes,
            upload.received() == concat_chunks(chunks@.take(i as int)),
            field_verdict(text_view(field_name), file_name) == Ok::<(), AppError>(()),
        decreases n - i,
    {
        assert(chunks@.take(i as int + 1).drop_last() =~= chunks@.take(i as int));
        match upload.accept_chunk(chunks[i].as_slice()) {
            Err(e) => {
                proof {
                    lemma_concat_prefix_len(chunks@, i as int + 1);
                }
                return Err(e);
            },
            Ok(()) => {},
        }
        i = i + 1;
    }
    assert(chunks@.take(n as int) =~= chunks@);
    upload.finish()
}

/// A declared file name without the `webp` extension is refused as an
/// unsupported media type before any byte of the body is looked at, so
/// nothing is staged or stored.
pub proof fn lemma_wrong_extension_refused(file_name: &str, body: Seq<u8>, max_bytes: u64)
    requires
        !has_webp_extension_spec(file_name.spec_bytes()),
    ensures
        field_verdict(Some("file"@), Some(file_name)) == Err::<(), AppError>(
            AppError::UnsupportedMediaType,
        ),
        ingest_verdict(Some("file"@), Some(file_name), body, max_bytes) == Err::<
            (Seq<char>, nat),
            AppError,
        >(AppError::UnsupportedMediaType),
{
}

/// A body within the size limit whose first twelve bytes are not the WebP
/// signature is refused as an unsupported media type, whatever its declared
/// file name; nothing is stored.
pub proof fn lemma_bad_signature_refused(file_name: &str, body: Seq<u8>, max_bytes: u64)
    requires
        !is_webp_signature(body),
        body.len() <= max_bytes,
    ensures
        ingest_verdict(Some("file"@), Some(file_name), body, max_bytes) == Err::<
            (Seq<char>, nat),
            AppError,
        >(AppError::UnsupportedMediaType),
{
}

/// A body larger than the limit is refused as too large, whatever its
/// first bytes; nothing is committed.
pub proof fn lemma_oversize_refused(file_name: &str, body: Seq<u8>, max_bytes: u64)
    requires
        has_webp_extension_spec(file_name.spec_bytes()),
        body.len() > max_bytes,
    ensures
        ingest_verdict(Some("file"@), Some(file_name), body, max_bytes) == Err::<
            (Seq<char>, nat),
            AppError,
        >(AppError::FileTooLarge),
{
}

/// Two uploads of identical bytes, under any two accepted file names, are
/// described alike: equal digest and size, hence equal path (a function of
/// the digest and the month) within one month. The later one finds that path taken (already there, or won by a
/// concurrent upload) and succeeds without moving its copy onto it.
pub proof fn lemma_same_bytes_same_object(
    first_name: &str,
    second_name: &str,
    body: Seq<u8>,
    max_bytes: u64,
    probe: Probe,
    moved: MoveResult,
)
    requires
        has_webp_extension_spec(first_name.spec_bytes()),
        has_webp_extension_spec(second_name.spec_bytes()),
        is_webp_signature(body),
        body.len() <= max_bytes,
        probe == Probe::Present || (probe == Probe::Absent && moved
            == MoveResult::DestinationExists),
    ensures
        ingest_verdict(Some("file"@), Some(first_name), body, max_bytes) == ingest_verdict(
            Some("file"@),
            Some(second_name),
            body,
            max_bytes,
        ),
        ingest_verdict(Some("file"@), Some(first_name), body, max_bytes) == Ok::<
            (Seq<char>, nat),
            AppError,
        >((hex_lower(sha256_of(body)), body.len())),
        probe_step(probe) == CommitStep::AlreadyStored || (probe_step(probe)
            == CommitStep::MoveIntoPlace && move_outcome(moved) == Ok::<Disposition, AppError>(
            Disposition::Deduplicated,
        )),
{
}

} // verus!
