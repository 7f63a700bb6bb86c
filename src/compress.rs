//! Conditional gzip compression of the payload.
use vstd::prelude::*;

verus! {

/// The gzip stream (default level) that `flate2` writes for a buffer.
pub uninterp spec fn gzip_of(data: Seq<u8>) -> Seq<u8>;

/// Relies on `flate2::write::GzEncoder` (`new` at `Compression::default()`, `write_all`,
/// `finish`) over a `Vec`: writing into a `Vec` does not fail, and the result is the
/// buffer's gzip stream (header with mtime 0, so a function of the bytes alone).
#[verifier::external_body]
fn gzip(data: &[u8]) -> (r: Option<Vec<u8>>)
    ensures
        r is Some,
        r matches Some(z) ==> z@ == gzip_of(data@),
{
    let mut e = flate2::write::GzEncoder::new(Vec::new(), flate2::Compression::default());
    match std::io::Write::write_all(&mut e, data) {
        Ok(()) => e.finish().ok(),
        Err(_) => None,
    }
}

/// The bytes to send, and whether they are compressed.
pub struct CompressionOutcome {
    pub payload: Vec<u8>,
    pub was_compressed: bool,
}

/// The compressed form is taken only where it is strictly shorter than the original.
pub open spec fn chosen_payload(data: Seq<u8>, zipped: Option<Seq<u8>>) -> (Seq<u8>, bool) {
    match zipped {
        Some(z) => if z.len() < data.len() {
            (z, true)
        } else {
            (data, false)
        },
        None => (data, false),
    }
}

/// The bytes of an optional buffer.
pub open spec fn opt_bytes(o: Option<Vec<u8>>) -> Option<Seq<u8>> {
    match o {
        Some(v) => Some(v@),
        None => None,
    }
}

/// Chooses between the original bytes and an attempt at compressing them (`None` where
/// compression failed).
pub fn choose_payload(data: Vec<u8>, zipped: Option<Vec<u8>>) -> (r: CompressionOutcome)
    ensures
        (r.payload@, r.was_compressed) == chosen_payload(data@, opt_bytes(zipped)),
{
    match zipped {
        Some(z) => {
            if z.len() < data.len() {
                CompressionOutcome { payload: z, was_compressed: true }
            } else {
                CompressionOutcome { payload: data, was_compressed: false }
            }
        },
        None => CompressionOutcome { payload: data, was_compressed: false },
    }
}

/// Gzips the buffer and keeps the result exactly where it is smaller.
pub fn compress(data: Vec<u8>) -> (r: CompressionOutcome)
    ensures
        r.was_compressed ==> r.payload@ == gzip_of(data@) && r.payload@.len() < data@.len(),
        !r.was_compressed ==> r.payload@ == data@,
        gzip_of(data@).len() >= data@.len() ==> !r.was_compressed,
        gzip_of(data@).len() < data@.len() ==> r.was_compressed,
        (r.payload@, r.was_compressed) == chosen_payload(data@, Some(gzip_of(data@))),
{
    let zipped = gzip(data.as_slice());
    choose_payload(data, zipped)
}

} // verus!
