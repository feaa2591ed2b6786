//! The upload buffer controller: a pre-allocated fixed-size byte buffer per
//! upload session. A header tags the session authority; payload bytes are
//! written at caller-chosen offsets past the header; the committed contents
//! are streamed back out in fixed-size windows that respect the
//! notification channel's per-call payload limit.
use vstd::prelude::*;
use vstd::string::StringSliceAdditionalSpecFns;
use vstd::slice::{slice_subrange, slice_to_vec};
use crate::serial::{account_discriminator, discriminator_of};
use crate::state::UploadedBlob;

verus! {

/// Where the payload region starts: an 8-byte record tag followed by the
/// 32-byte session authority.
pub const UPLOADED_BLOB_BUFFER_START: usize = 40;

/// The largest payload one notification call may carry.
pub const MAX_CPI_BYTES: usize = 10240;

/// The header an upload session starts with: the session record's tag and
/// its serialized layout, which is the bare authority key.
pub open spec fn upload_header(u: UploadedBlob) -> Seq<u8> {
    account_discriminator("UploadedBlob".spec_bytes()) + u.authority@
}

/// How many windows streaming a buffer of `len` bytes takes.
pub open spec fn window_count(len: int) -> int {
    if len <= UPLOADED_BLOB_BUFFER_START as int {
        0
    } else {
        (len - UPLOADED_BLOB_BUFFER_START + MAX_CPI_BYTES - 1) / MAX_CPI_BYTES as int
    }
}

/// The `i`-th streamed window of a buffer.
pub open spec fn window_at(b: Seq<u8>, i: int) -> Seq<u8> {
    let start = UPLOADED_BLOB_BUFFER_START + MAX_CPI_BYTES * i;
    let stop = if start + MAX_CPI_BYTES <= b.len() {
        start + MAX_CPI_BYTES as int
    } else {
        b.len() as int
    };
    b.subrange(start, stop)
}

/// Opens an upload session: writes the header tagging `authority` at the
/// start of the buffer and touches nothing else. The caller guarantees the
/// buffer was allocated large enough for the declared payload.
pub fn init_blob_upload(buffer: &mut Vec<u8>, authority: &[u8; 32], total_bytes: u32)
    requires
        old(buffer)@.len() >= UPLOADED_BLOB_BUFFER_START as int + total_bytes,
    ensures
        final(buffer)@.len() == old(buffer)@.len(),
        final(buffer)@.subrange(0, UPLOADED_BLOB_BUFFER_START as int) == upload_header(
            (UploadedBlob { authority: *authority }),
        ),
        final(buffer)@.skip(UPLOADED_BLOB_BUFFER_START as int) == old(buffer)@.skip(
            UPLOADED_BLOB_BUFFER_START as int,
        ),
{
    let disc = discriminator_of("UploadedBlob");
    let ghost header = upload_header((UploadedBlob { authority: *authority }));
    let mut i: usize = 0;
    while i < 8
        invariant
            0 <= i <= 8,
            buffer@.len() == old(buffer)@.len(),
            buffer@.len() >= 40,
            disc@ == account_discriminator("UploadedBlob".spec_bytes()),
            header == upload_header((UploadedBlob { authority: *authority })),
            forall|j: int| 0 <= j < i ==> buffer@[j] == header[j],
            forall|j: int| i <= j < buffer@.len() ==> buffer@[j] == old(buffer)@[j],
        decreases 8 - i,
    {
        buffer[i] = disc[i];
        i = i + 1;
    }
    let mut k: usize = 0;
    while k < 32
        invariant
            0 <= k <= 32,
            buffer@.len() == old(buffer)@.len(),
            buffer@.len() >= 40,
            disc@ == account_discriminator("UploadedBlob".spec_bytes()),
            header == upload_header((UploadedBlob { authority: *authority })),
            forall|j: int| 0 <= j < 8 + k ==> buffer@[j] == header[j],
            forall|j: int| 8 + k <= j < buffer@.len() ==> buffer@[j] == old(buffer)@[j],
        decreases 32 - k,
    {
        buffer[8 + k] = authority[k];
        k = k + 1;
    }
    proof {
        assert(buffer@.subrange(0, 40) =~= upload_header((UploadedBlob { authority: *authority })));
        assert(buffer@.skip(40) =~= old(buffer)@.skip(40));
    }
}

/// Writes `bytes` into the payload region at offset `index`. The caller
/// must stay within the buffer's fixed allocation; nothing outside the
/// written range changes.
pub fn upload_blob(buffer: &mut Vec<u8>, index: u32, bytes: &Vec<u8>)
    requires
        UPLOADED_BLOB_BUFFER_START as int + index + bytes@.len() <= old(buffer)@.len(),
    ensures
        final(buffer)@.len() == old(buffer)@.len(),
        forall|j: int|
            0 <= j < final(buffer)@.len() ==> final(buffer)@[j] == (if UPLOADED_BLOB_BUFFER_START
                + index <= j < UPLOADED_BLOB_BUFFER_START + index + bytes@.len() {
                bytes@[j - UPLOADED_BLOB_BUFFER_START - index]
            } else {
                old(buffer)@[j]
            }),
{
    let blen: usize = buffer.len();
    proof {
        assert(UPLOADED_BLOB_BUFFER_START as int + index + bytes@.len() <= blen);
    }
    let offset: usize = UPLOADED_BLOB_BUFFER_START + (index as usize);
    let mut i: usize = 0;
    while i < bytes.len()
        invariant
            0 <= i <= bytes@.len(),
            offset == UPLOADED_BLOB_BUFFER_START + index,
            offset + bytes@.len() <= buffer@.len(),
            buffer@.len() == old(buffer)@.len(),
            buffer@.len() <= usize::MAX,
            forall|j: int|
                0 <= j < buffer@.len() ==> buffer@[j] == (if offset <= j < offset + i {
                    bytes@[j - offset]
                } else {
                    old(buffer)@[j]
                }),
        decreases bytes@.len() - i,
    {
        buffer[offset + i] = bytes[i];
        i = i + 1;
    }
}

/// Splits the committed buffer contents past the header into the windows
/// that are streamed out through the notification channel, in order, each
/// at most the per-call payload limit.
pub fn log_blob(buffer: &Vec<u8>) -> (r: Vec<Vec<u8>>)
    ensures
        r@.len() == window_count(buffer@.len() as int),
        forall|i: int| 0 <= i < r@.len() ==> (#[trigger] r@[i])@ == window_at(buffer@, i),
{
    let mut r: Vec<Vec<u8>> = Vec::new();
    let mut left: usize = UPLOADED_BLOB_BUFFER_START;
    while left < buffer.len()
        invariant
            left >= UPLOADED_BLOB_BUFFER_START,
            left <= buffer@.len() || left == UPLOADED_BLOB_BUFFER_START,
            (left == UPLOADED_BLOB_BUFFER_START + MAX_CPI_BYTES * r@.len()) || (left
                == buffer@.len() && buffer@.len() < UPLOADED_BLOB_BUFFER_START + MAX_CPI_BYTES
                * r@.len()),
            r@.len() > 0 ==> UPLOADED_BLOB_BUFFER_START + MAX_CPI_BYTES * (r@.len() - 1)
                < buffer@.len(),
            forall|i: int| 0 <= i < r@.len() ==> (#[trigger] r@[i])@ == window_at(buffer@, i),
        decreases buffer@.len() - left,
    {
        let right = if buffer.len() - left <= MAX_CPI_BYTES {
            buffer.len()
        } else {
            left + MAX_CPI_BYTES
        };
        let window = slice_to_vec(slice_subrange(buffer.as_slice(), left, right));
        proof {
            assert(window@ == window_at(buffer@, r@.len() as int));
        }
        r.push(window);
        left = right;
    }
    proof {
        let len = buffer@.len() as int;
        let n = r@.len() as int;
        if len <= 40 {
            assert(n == 0);
        } else {
            assert(40 + 10240 * n >= len);
            assert(n > 0);
            assert(40 + 10240 * (n - 1) < len);
            assert(n == window_count(len)) by (nonlinear_arith)
                requires
                    40 + 10240 * n >= len,
                    40 + 10240 * (n - 1) < len,
                    n > 0,
                    len > 40,
            ;
        }
    }
    r
}

} // verus!
