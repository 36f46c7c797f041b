//! Program log lines that carry binary event records.
use vstd::prelude::*;
use vstd::utf8::encode_utf8;
use crate::bytes::{rest, spec_rest};
use crate::codec::{base64_decode, base64_decoded};

verus! {

/// The text that opens a data log line: `Program data: `.
pub const DATA_PREFIX: [u8; 14] = [80, 114, 111, 103, 114, 97, 109, 32, 100, 97, 116, 97, 58, 32];

/// The record that a log line carries: for a line that opens with
/// `DATA_PREFIX`, the base-64 decoding of the rest of the line, when it is
/// valid base-64.
pub open spec fn data_log(line: Seq<u8>) -> Option<Seq<u8>> {
    if line.len() >= 14 && line.subrange(0, 14) == DATA_PREFIX@ {
        base64_decoded(spec_rest(line, 14))
    } else {
        None
    }
}

/// The UTF-8 bytes of a log line.
pub open spec fn line_bytes(line: String) -> Seq<u8> {
    encode_utf8(line@)
}

pub fn data_log_record(line: &String) -> (r: Option<Vec<u8>>)
    ensures
        r is Some <==> data_log(line_bytes(*line)) is Some,
        r is Some ==> r->0@ == data_log(line_bytes(*line))->0,
{
    let b = line.as_str().as_bytes();
    let n = b.len();
    assert(b@ == line_bytes(*line));
    if n < 14 {
        return None;
    }
    let mut i: usize = 0;
    while i < 14
        invariant
            i <= 14,
            n == b@.len(),
            n >= 14,
            b@ == line_bytes(*line),
            forall|j: int| 0 <= j < i ==> b@[j] == DATA_PREFIX@[j],
        decreases 14 - i,
    {
        if b[i] != DATA_PREFIX[i] {
            assert(b@.subrange(0, 14)[i as int] != DATA_PREFIX@[i as int]);
            assert(b@.subrange(0, 14) != DATA_PREFIX@);
            return None;
        }
        i = i + 1;
    }
    assert(b@.subrange(0, 14) =~= DATA_PREFIX@);
    base64_decode(rest(b, 14))
}

} // verus!
