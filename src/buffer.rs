//! The growable-buffer protocol: an operation that writes into a buffer of a given capacity
//! either succeeds or reports that more room is needed; the caller retries with twice the
//! capacity until it succeeds.
use vstd::prelude::*;
use vstd::utf8::*;
use vstd::string::*;
use crate::return_codes::AzReturnCode;

verus! {

/// The number of bytes that text takes in UTF-8.
pub open spec fn byte_len(s: Seq<char>) -> nat {
    encode_utf8(s).len()
}

/// The next capacity to try after `capacity` was too small: twice as much, at least one byte,
/// and never past `usize::MAX`.
pub open spec fn next_capacity(capacity: usize) -> usize {
    if capacity == 0 {
        1
    } else if capacity > usize::MAX / 2 {
        usize::MAX
    } else {
        (2 * capacity) as usize
    }
}

pub fn grow_capacity(capacity: usize) -> (r: usize)
    ensures
        r == next_capacity(capacity),
        capacity < usize::MAX ==> r > capacity,
{
    if capacity == 0 {
        1
    } else if capacity > usize::MAX / 2 {
        usize::MAX
    } else {
        2 * capacity
    }
}

/// The sizing step over finished text: all of `out` when its UTF-8 length fits within
/// `capacity` bytes, else `AzResultCoreErrorNotEnoughSpace`.
pub fn copy_within_capacity(out: &str, capacity: usize) -> (r: Result<String, AzReturnCode>)
    ensures
        byte_len(out@) <= capacity ==> r is Ok && r->Ok_0@ == out@,
        byte_len(out@) > capacity ==> r == Err::<String, AzReturnCode>(
            AzReturnCode::AzResultCoreErrorNotEnoughSpace,
        ),
{
    if out.as_bytes().len() <= capacity {
        Ok(out.to_string())
    } else {
        Err(AzReturnCode::AzResultCoreErrorNotEnoughSpace)
    }
}

/// Runs `op` with `initial_capacity`, and again with twice the capacity each time it reports
/// `AzResultCoreErrorNotEnoughSpace`; any other outcome is returned as it is.
pub fn grow_until_fits<F>(initial_capacity: usize, op: F) -> (r: Result<String, AzReturnCode>) where
    F: Fn(usize) -> Result<String, AzReturnCode>,

    requires
        forall|c: usize| #[trigger] op.requires((c,)),
        forall|r: Result<String, AzReturnCode>|
            #[trigger] op.ensures((usize::MAX,), r) ==> r != Err::<String, AzReturnCode>(
                AzReturnCode::AzResultCoreErrorNotEnoughSpace,
            ),
    ensures
        r != Err::<String, AzReturnCode>(AzReturnCode::AzResultCoreErrorNotEnoughSpace),
        exists|c: usize| c >= initial_capacity && #[trigger] op.ensures((c,), r),
{
    let mut capacity = initial_capacity;
    loop
        invariant
            capacity >= initial_capacity,
            forall|c: usize| #[trigger] op.requires((c,)),
            forall|r: Result<String, AzReturnCode>|
                #[trigger] op.ensures((usize::MAX,), r) ==> r != Err::<String, AzReturnCode>(
                    AzReturnCode::AzResultCoreErrorNotEnoughSpace,
                ),
        decreases usize::MAX - capacity,
    {
        let r = op(capacity);
        match r {
            Err(AzReturnCode::AzResultCoreErrorNotEnoughSpace) => {
                capacity = grow_capacity(capacity);
            },
            _ => {
                return r;
            },
        }
    }
}

/// Relies on `String::shrink_to_fit`: it lowers the capacity to the length and keeps the text.
#[verifier::external_body]
fn shrink_to_fit(s: &mut String)
    ensures
        final(s)@ == old(s)@,
{
    s.shrink_to_fit()
}

/// Fits `out` through the growable-buffer protocol, starting from `initial_capacity`: whatever
/// the starting capacity, the result is exactly `out`, with no room to spare.
pub fn fit_text(out: &str, initial_capacity: usize) -> (r: String)
    ensures
        r@ == out@,
        byte_len(r@) == byte_len(out@),
{
    let op = |c: usize| -> (r: Result<String, AzReturnCode>)
        ensures
            byte_len(out@) <= c ==> r is Ok && r->Ok_0@ == out@,
            byte_len(out@) > c ==> r == Err::<String, AzReturnCode>(
                AzReturnCode::AzResultCoreErrorNotEnoughSpace,
            ),
        { copy_within_capacity(out, c) };
    let n = out.as_bytes().len();
    assert(byte_len(out@) == n);
    let r = grow_until_fits(initial_capacity, op);
    match r {
        Ok(mut s) => {
            shrink_to_fit(&mut s);
            s
        },
        Err(_) => String::new(),
    }
}

/// Relies on `String::capacity`: the number of bytes the string can hold without reallocating.
#[verifier::external_body]
fn string_capacity(s: &String) -> usize {
    s.capacity()
}

/// Relies on `Vec::capacity`: the number of elements the vector can hold without reallocating.
#[verifier::external_body]
pub(crate) fn vec_capacity(v: &Vec<u8>) -> usize {
    v.capacity()
}

/// Writes `out` over `result` when it fits within `capacity` bytes; otherwise leaves `result`
/// as it was and reports `AzResultCoreErrorNotEnoughSpace`.
pub fn write_within_capacity(out: &str, capacity: usize, result: &mut String) -> (rc: AzReturnCode)
    ensures
        byte_len(out@) <= capacity ==> rc == AzReturnCode::AzResultCoreOk && final(result)@ == out@,
        byte_len(out@) > capacity ==> rc == AzReturnCode::AzResultCoreErrorNotEnoughSpace
            && final(result)@ == old(result)@,
{
    match copy_within_capacity(out, capacity) {
        Ok(s) => {
            *result = s;
            AzReturnCode::AzResultCoreOk
        },
        Err(e) => e,
    }
}

/// Writes `out` over `result` when it fits within the capacity that `result` has allocated.
pub fn write_into_buffer(out: &str, result: &mut String) -> (rc: AzReturnCode)
    ensures
        rc == AzReturnCode::AzResultCoreOk && final(result)@ == out@ || rc
            == AzReturnCode::AzResultCoreErrorNotEnoughSpace && final(result)@ == old(result)@
            && byte_len(out@) > 0,
{
    let capacity = string_capacity(result);
    write_within_capacity(out, capacity, result)
}

/// Writes `out` over `result` when it holds at most `capacity` bytes; otherwise leaves `result`
/// as it was and reports `AzResultCoreErrorNotEnoughSpace`.
pub fn write_bytes_within_capacity(out: Vec<u8>, capacity: usize, result: &mut Vec<u8>) -> (rc:
    AzReturnCode)
    ensures
        out@.len() <= capacity ==> rc == AzReturnCode::AzResultCoreOk && final(result)@ == out@,
        out@.len() > capacity ==> rc == AzReturnCode::AzResultCoreErrorNotEnoughSpace
            && final(result)@ == old(result)@,
{
    if out.len() <= capacity {
        *result = out;
        AzReturnCode::AzResultCoreOk
    } else {
        AzReturnCode::AzResultCoreErrorNotEnoughSpace
    }
}

/// Writes `out` over `result` when it fits within the capacity that `result` has allocated;
/// otherwise leaves `result` as it was and reports `AzResultCoreErrorNotEnoughSpace`.
pub fn write_bytes_into_buffer(out: Vec<u8>, result: &mut Vec<u8>) -> (rc: AzReturnCode)
    ensures
        rc == AzReturnCode::AzResultCoreOk && final(result)@ == out@ || rc
            == AzReturnCode::AzResultCoreErrorNotEnoughSpace && final(result)@ == old(result)@
            && out@.len() > 0,
{
    let capacity = vec_capacity(result);
    write_bytes_within_capacity(out, capacity, result)
}

} // verus!
