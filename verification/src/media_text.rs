//! Sound that travels inside text messages: base64, and samples as pairs of bytes.

use crate::messages::{RecordedFileWire, StemSpec};
use base64::Engine;
use vstd::prelude::*;
use vstd::string::*;

verus! {

/// What the standard base64 engine writes for bytes.
pub uninterp spec fn base64_encoded(data: Seq<u8>) -> Seq<char>;

/// What the standard base64 engine reads from a text; nothing where it refuses the text.
pub uninterp spec fn base64_decoded(text: Seq<char>) -> Option<Seq<u8>>;

#[verifier::external_type_specification]
#[verifier::external_body]
pub struct ExDecodeError(base64::DecodeError);

/// Is the text for so many bytes, four characters for every three of them, no longer than a
/// string can be?
pub open spec fn fits_a_string(len: nat) -> bool {
    4 * ((len + 2) / 3) <= isize::MAX
}

/// Calls `Engine::encode` of the standard engine of `base64`, with the standard alphabet and
/// padding. The text depends on the bytes alone, and the same engine reads the bytes back
/// from it. It panics where the text would be longer than a string can be.
#[verifier::external_body]
fn encode_base64(data: &[u8]) -> (r: String)
    requires
        fits_a_string(data@.len()),
    ensures
        r@ == base64_encoded(data@),
        base64_decoded(r@) == Some(data@),
{
    base64::engine::general_purpose::STANDARD.encode(data)
}

/// Calls `Engine::decode` of the standard engine of `base64` on the bytes of the text. What
/// it gives depends on the text alone. Which texts it refuses is not stated.
#[verifier::external_body]
fn decode_base64(text: &str) -> (r: Result<Vec<u8>, base64::DecodeError>)
    ensures
        match r {
            Ok(bytes) => base64_decoded(text@) == Some(bytes@),
            Err(_) => base64_decoded(text@) is None,
        },
{
    base64::engine::general_purpose::STANDARD.decode(text.as_bytes())
}

/// A sample from its two bytes, the low one first.
pub open spec fn sample_of(low: u8, high: u8) -> int {
    let v = low + 256 * high;
    if v >= 32_768 {
        v - 65_536
    } else {
        v
    }
}

/// The samples of bytes. An odd byte at the end is no sample.
pub open spec fn samples_of(bytes: Seq<u8>) -> Seq<int> {
    Seq::new(bytes.len() / 2, |i: int| sample_of(bytes[2 * i], bytes[2 * i + 1]))
}

/// The values of samples.
pub open spec fn values(samples: Seq<i16>) -> Seq<int> {
    samples.map_values(|s: i16| s as int)
}

fn sample(low: u8, high: u8) -> (r: i16)
    ensures
        r == sample_of(low, high),
{
    let v: i32 = low as i32 + 256 * (high as i32);
    if v >= 32_768 {
        (v - 65_536) as i16
    } else {
        v as i16
    }
}

pub fn samples_from_bytes(bytes: &[u8]) -> (r: Vec<i16>)
    ensures
        values(r@) == samples_of(bytes@),
        r@.len() == bytes@.len() / 2,
        forall|i: int|
            0 <= i < r@.len() ==> (#[trigger] r@[i]) == bytes@[2 * i] + 256 * bytes@[2 * i + 1]
                - if bytes@[2 * i + 1] >= 128 {
                65_536int
            } else {
                0
            },
{
    let mut r: Vec<i16> = Vec::new();
    let n: usize = bytes.len() / 2;
    let mut i: usize = 0;
    while i < n
        invariant
            i <= n,
            n == bytes@.len() / 2,
            bytes@.len() <= usize::MAX,
            r@.len() == i,
            forall|k: int| 0 <= k < i ==> #[trigger] r@[k] == samples_of(bytes@)[k],
        decreases n - i,
    {
        r.push(sample(bytes[2 * i], bytes[2 * i + 1]));
        i = i + 1;
    }
    assert(values(r@) =~= samples_of(bytes@));
    r
}

/// The chunk of a backing track is no base64.
#[derive(Clone, Copy, Debug, PartialEq, Eq, Structural)]
pub struct InvalidChunk;

/// Reads a chunk of a backing track: base64 of 16-bit samples, left and right in turn.
pub fn decode_chunk(data_b64: &str) -> (r: Result<Vec<i16>, InvalidChunk>)
    ensures
        match base64_decoded(data_b64@) {
            Some(bytes) => r matches Ok(samples) && values(samples@) == samples_of(bytes),
            None => r == Err::<Vec<i16>, InvalidChunk>(InvalidChunk),
        },
{
    match decode_base64(data_b64) {
        Ok(bytes) => Ok(samples_from_bytes(bytes.as_slice())),
        Err(_) => Err(InvalidChunk),
    }
}

/// A file that was recorded.
#[derive(Debug)]
pub struct RecordedFile {
    pub spec: StemSpec,
    pub data: Vec<u8>,
}

/// Does the text on the wire stand for the file?
pub open spec fn carries(wire: RecordedFileWire, file: RecordedFile) -> bool {
    &&& wire.spec == file.spec
    &&& wire.data_b64@ == base64_encoded(file.data@)
    &&& base64_decoded(wire.data_b64@) == Some(file.data@)
}

/// Makes text of recorded files, in the same order.
pub fn encode_files(files: Vec<RecordedFile>) -> (r: Vec<RecordedFileWire>)
    requires
        forall|i: int|
            0 <= i < files@.len() ==> fits_a_string((#[trigger] files@[i]).data@.len()),
    ensures
        r@.len() == files@.len(),
        forall|i: int| 0 <= i < r@.len() ==> carries(#[trigger] r@[i], files@[i]),
{
    let mut files = files;
    let ghost all = files@;
    let mut r: Vec<RecordedFileWire> = Vec::new();
    while files.len() > 0
        invariant
            r@.len() + files@.len() == all.len(),
            files@ == all.skip(r@.len() as int),
            forall|i: int| 0 <= i < all.len() ==> fits_a_string((#[trigger] all[i]).data@.len()),
            forall|i: int| 0 <= i < r@.len() ==> carries(#[trigger] r@[i], all[i]),
        decreases files@.len(),
    {
        let ghost n = r@.len() as int;
        assert(files@[0] == all[n]);
        let file = files.remove(0);
        let data_b64 = encode_base64(file.data.as_slice());
        r.push(RecordedFileWire { spec: file.spec, data_b64 });
        assert(files@ =~= all.skip(n + 1));
    }
    r
}

/// A sample is written as two bytes, the lower one first, and a negative one as what is missing
/// to 65536.
pub proof fn a_sample_is_two_bytes(value: int)
    requires
        -32_768 <= value <= 32_767,
    ensures
        sample_of((value % 256) as u8, (value % 65_536 / 256) as u8) == value,
{
}

/// Every two bytes are a sample, in their order, and an odd byte at the end is none.
pub proof fn every_two_bytes_are_a_sample(bytes: Seq<u8>, i: int)
    requires
        0 <= 2 * i,
        2 * i + 1 < bytes.len(),
    ensures
        samples_of(bytes).len() == bytes.len() / 2,
        -32_768 <= samples_of(bytes)[i] <= 32_767,
        (samples_of(bytes)[i] - bytes[2 * i] - 256 * bytes[2 * i + 1]) % 65_536 == 0,
{
}

/// A file that was recorded comes to the browser whole, under its own description.
pub proof fn a_recorded_file_arrives_whole(wire: RecordedFileWire, file: RecordedFile)
    requires
        carries(wire, file),
    ensures
        wire.spec == file.spec,
        base64_decoded(wire.data_b64@) == Some(file.data@),
{
}

} // verus!
