//! Where the event record behind an instruction is found: a CPI echo among
//! the instruction's children, or a data log line of the transaction.
use vstd::prelude::*;
use crate::bytes::{is_key, spec_tag_at, tag_at};
use crate::logs::{data_log, data_log_record, line_bytes};
use crate::tree::Instruction;

verus! {

/// A child owned by `program` whose payload, past the 8-byte echo marker,
/// holds `tag`.
pub open spec fn is_echo(child: Instruction, program: Seq<u8>, tag: Seq<u8>) -> bool {
    child.program_id.0@ == program && spec_tag_at(child.data@, 8, tag)
}

/// The first echo among `s[from..]`.
pub open spec fn first_echo(s: Seq<Instruction>, program: Seq<u8>, tag: Seq<u8>, from: nat) -> Option<
    nat,
>
    decreases s.len() - from,
{
    if from >= s.len() {
        None
    } else if is_echo(s[from as int], program, tag) {
        Some(from)
    } else {
        first_echo(s, program, tag, from + 1)
    }
}

/// A data log line whose record opens with `tag`.
pub open spec fn is_log_echo(line: String, tag: Seq<u8>) -> bool {
    match data_log(line_bytes(line)) {
        Some(b) => spec_tag_at(b, 0, tag),
        None => false,
    }
}

/// The first such data log line among `logs[from..]`.
pub open spec fn first_log(logs: Seq<String>, tag: Seq<u8>, from: nat) -> Option<nat>
    decreases logs.len() - from,
{
    if from >= logs.len() {
        None
    } else if is_log_echo(logs[from as int], tag) {
        Some(from)
    } else {
        first_log(logs, tag, from + 1)
    }
}

/// The position of the first echo among the instruction's children.
pub fn find_echo(ix: &Instruction, program: &[u8; 32], tag: &[u8; 8]) -> (r: Option<usize>)
    ensures
        r matches Some(j) ==> first_echo(ix.inner@, program@, tag@, 0) == Some(j as nat) && j
            < ix.inner@.len(),
        r is None ==> first_echo(ix.inner@, program@, tag@, 0) is None,
{
    let n = ix.inner.len();
    let mut j: usize = 0;
    while j < n
        invariant
            n == ix.inner@.len(),
            j <= n,
            first_echo(ix.inner@, program@, tag@, 0) == first_echo(
                ix.inner@,
                program@,
                tag@,
                j as nat,
            ),
        decreases n - j,
    {
        let child = &ix.inner[j];
        if is_key(&child.program_id, program) && tag_at(child.data.as_slice(), 8, tag) {
            return Some(j);
        }
        j = j + 1;
    }
    None
}

/// The position and record of the first data log line whose record opens
/// with `tag`.
pub fn find_log(logs: &Vec<String>, tag: &[u8; 8]) -> (r: Option<(usize, Vec<u8>)>)
    ensures
        r matches Some((j, b)) ==> first_log(logs@, tag@, 0) == Some(j as nat) && j < logs@.len()
            && b@ == data_log(line_bytes(logs@[j as int]))->0,
        r is None ==> first_log(logs@, tag@, 0) is None,
{
    let n = logs.len();
    let mut j: usize = 0;
    while j < n
        invariant
            n == logs@.len(),
            j <= n,
            first_log(logs@, tag@, 0) == first_log(logs@, tag@, j as nat),
        decreases n - j,
    {
        match data_log_record(&logs[j]) {
            Some(b) => {
                if tag_at(b.as_slice(), 0, tag) {
                    return Some((j, b));
                }
            },
            None => {},
        }
        j = j + 1;
    }
    None
}

} // verus!
