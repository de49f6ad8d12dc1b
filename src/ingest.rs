use vstd::prelude::*;
use vstd::string::StringSliceAdditionalSpecFns;

use crate::digest::{fed_bytes, hex_encode, hex_lower, sha256_feed, sha256_finish, sha256_of, sha256_start, Sha256Stream};
use crate::error::AppError;
use crate::token::text_view;
use crate::webp::{has_webp_extension, has_webp_extension_spec, has_webp_signature, is_webp_signature};

verus! {

/// The verdict on the one body part before any of its bytes are read: it
/// must be the `file` field, declare a file name, and that name must carry
/// the `webp` extension.
pub open spec fn field_verdict(field_name: Option<Seq<char>>, file_name: Option<&str>) -> Result<
    (),
    AppError,
> {
    if field_name != Some("file"@) {
        Err(AppError::BadRequest)
    } else if file_name is None {
        Err(AppError::BadRequest)
    } else if !has_webp_extension_spec(file_name->0.spec_bytes()) {
        Err(AppError::UnsupportedMediaType)
    } else {
        Ok(())
    }
}

/// Checks the body part's field name and declared file name.
pub fn check_field(field_name: Option<&str>, file_name: Option<&str>) -> (r: Result<(), AppError>)
    ensures
        r == field_verdict(text_view(field_name), file_name),
{
    let expected = "file";
    proof {
        reveal_strlit("file");
    }
    match field_name {
        Some(n) => {
            if !crate::auth::same_text(n, expected) {
                return Err(AppError::BadRequest);
            }
        },
        None => {
            return Err(AppError::BadRequest);
        },
    }
    match file_name {
        Some(f) => if has_webp_extension(f) {
            Ok(())
        } else {
            Err(AppError::UnsupportedMediaType)
        },
        None => Err(AppError::BadRequest),
    }
}

/// The number of leading bytes that the signature check reads.
pub const SIGNATURE_LEN: usize = 12;

/// The first bytes of `b`, at most as many as the signature check reads.
pub open spec fn signature_prefix(b: Seq<u8>) -> Seq<u8> {
    if b.len() < 12 {
        b
    } else {
        b.take(12)
    }
}

/// One upload being streamed: its size so far, the leading bytes kept for
/// the signature check, and a running digest of everything received.
pub struct Upload {
    max_bytes: u64,
    size: u64,
    header: Vec<u8>,
    hasher: Sha256Stream,
    body: Ghost<Seq<u8>>,
}

/// A received body that passed the signature check: its digest as
/// lower-case hex and its size.
pub struct StagedObject {
    pub sha256: String,
    pub size: u64,
}

impl Upload {
    /// Every byte received so far, in order.
    pub closed spec fn received(&self) -> Seq<u8> {
        self.body@
    }

    /// The largest body that is accepted, in bytes.
    pub closed spec fn limit(&self) -> u64 {
        self.max_bytes
    }

    pub closed spec fn wf(&self) -> bool {
        &&& self.size == self.body@.len()
        &&& self.size <= self.max_bytes
        &&& self.header@ == signature_prefix(self.body@)
        &&& fed_bytes(self.hasher) == self.body@
    }

    /// An upload that has received nothing yet and accepts at most
    /// `max_bytes` bytes.
    pub fn new(max_bytes: u64) -> (r: Upload)
        ensures
            r.wf(),
            r.received() == Seq::<u8>::empty(),
            r.limit() == max_bytes,
    {
        Upload {
            max_bytes,
            size: 0,
            header: Vec::new(),
            hasher: sha256_start(),
            body: Ghost(Seq::empty()),
        }
    }

    /// The number of bytes received so far.
    pub fn size(&self) -> (r: u64)
        requires
            self.wf(),
        ensures
            r == self.received().len(),
    {
        self.size
    }

    /// Takes the next chunk of the body. The chunk is refused with
    /// `FileTooLarge`, and nothing changes, as soon as the running total would
    /// exceed the limit; otherwise it is counted, hashed and its leading bytes
    /// kept for the signature check.
    pub fn accept_chunk(&mut self, chunk: &[u8]) -> (r: Result<(), AppError>)
        requires
            old(self).wf(),
        ensures
            final(self).wf(),
            final(self).limit() == old(self).limit(),
            r is Ok <==> old(self).received().len() + chunk@.len() <= old(self).limit(),
            r is Ok ==> final(self).received() == old(self).received() + chunk@,
            r matches Err(e) ==> e == AppError::FileTooLarge && final(self).received() == old(
                self,
            ).received(),
    {
        let n = chunk.len();
        if n as u64 > self.max_bytes - self.size {
            return Err(AppError::FileTooLarge);
        }
        let ghost new_body = self.body@ + chunk@;
        if self.header.len() < SIGNATURE_LEN {
            let need = SIGNATURE_LEN - self.header.len();
            let take = if need < n {
                need
            } else {
                n
            };
            let ghost h0 = self.header@.len();
            let ghost max0 = self.max_bytes;
            assert(self.header@ == self.body@);
            let mut i: usize = 0;
            while i < take
                invariant
                    take <= n == chunk@.len(),
                    h0 + take <= 12,
                    self.header@ == self.body@ + chunk@.take(i as int),
                    h0 == self.body@.len(),
                    need == 12 - h0,
                    take == (if need < n {
                        need
                    } else {
                        n
                    }),
                    new_body == self.body@ + chunk@,
                    self.size == self.body@.len(),
                    self.size <= self.max_bytes,
                    self.max_bytes == max0,
                    n as u64 <= self.max_bytes - self.size,
                    fed_bytes(self.hasher) == self.body@,
                    i <= take,
                decreases take - i,
            {
                self.header.push(chunk[i]);
                i = i + 1;
                assert(self.header@ =~= self.body@ + chunk@.take(i as int));
            }
            if n < need {
                assert(chunk@.take(n as int) =~= chunk@);
                assert(self.header@ =~= signature_prefix(new_body));
            } else {
                assert(self.header@ =~= new_body.take(12));
                assert(self.header@ =~= signature_prefix(new_body));
            }
        } else {
            assert(signature_prefix(new_body) =~= signature_prefix(self.body@));
        }
        sha256_feed(&mut self.hasher, chunk);
        self.size = self.size + n as u64;
        self.body = Ghost(new_body);
        Ok(())
    }

    /// Ends the stream: the body must open with the WebP signature, else
    /// `UnsupportedMediaType`; a body that passes is described by its SHA-256
    /// digest in lower-case hex and its size.
    pub fn finish(self) -> (r: Result<StagedObject, AppError>)
        requires
            self.wf(),
        ensures
            r is Ok <==> is_webp_signature(self.received()),
            r matches Ok(o) ==> o.sha256@ == hex_lower(sha256_of(self.received())) && o.size
                == self.received().len() && o.sha256@.len() == 64,
            r matches Err(e) ==> e == AppError::UnsupportedMediaType,
    {
        proof {
            let b = self.body@;
            if b.len() >= 12 {
                assert(b.take(12).subrange(0, 4) =~= b.subrange(0, 4));
                assert(b.take(12).subrange(8, 12) =~= b.subrange(8, 12));
            }
        }
        if !has_webp_signature(self.header.as_slice()) {
            return Err(AppError::UnsupportedMediaType);
        }
        let d = sha256_finish(self.hasher);
        let sha256 = hex_encode(d.as_slice());
        Ok(StagedObject { sha256, size: self.size })
    }
}

} // verus!
