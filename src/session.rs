//! What a session hands the driver: the serial number it opens a device by,
//! and pipe timeouts in the driver's unit.
use vstd::prelude::*;
use vstd::string::StringSliceAdditionalSpecFns;

use crate::error::D3xxError;

verus! {

/// Nanoseconds in a second.
pub const NANOS_PER_SEC: u32 = 1_000_000_000;

/// Nanoseconds in a millisecond.
pub const NANOS_PER_MILLI: u32 = 1_000_000;

/// The largest timeout, in milliseconds, that the driver can hold.
pub const MAX_TIMEOUT_MILLIS: u64 = 0xffff_ffff;

/// The request that opens a device by its serial number: the serial number's
/// bytes followed by a nul byte. A serial number that holds a nul byte cannot
/// be expressed, and is an error (`InvalidParameter`).
pub fn serial_number_request(serial_number: &str) -> (r: Result<Vec<u8>, D3xxError>)
    ensures
        r is Err <==> serial_number.spec_bytes().contains(0u8),
        r matches Ok(v) ==> v@ == serial_number.spec_bytes().push(0u8),
        r matches Err(e) ==> e == D3xxError::InvalidParameter,
{
    let bytes = serial_number.as_bytes();
    let mut request: Vec<u8> = Vec::new();
    let mut i: usize = 0;
    while i < bytes.len()
        invariant
            bytes@ == serial_number.spec_bytes(),
            i <= bytes@.len(),
            request@ == bytes@.subrange(0, i as int),
            forall|j: int| 0 <= j < i ==> bytes@[j] != 0u8,
        decreases bytes@.len() - i,
    {
        if bytes[i] == 0 {
            assert(bytes@.contains(0u8)) by {
                assert(bytes@[i as int] == 0u8);
            }
            return Err(D3xxError::InvalidParameter);
        }
        request.push(bytes[i]);
        i = i + 1;
        assert(request@ =~= bytes@.subrange(0, i as int));
    }
    assert(!bytes@.contains(0u8));
    request.push(0);
    assert(request@ =~= bytes@.push(0u8));
    Ok(request)
}

/// A timeout of `secs` seconds and `nanos` nanoseconds, in whole milliseconds.
pub open spec fn millis_of(secs: u64, nanos: u32) -> int {
    secs as int * 1000 + nanos as int / (NANOS_PER_MILLI as int)
}

/// The pipe timeout to hand the driver for a duration of `secs` seconds and
/// `nanos` nanoseconds: its whole milliseconds. A duration longer than the
/// driver can hold is an error (`InvalidParameter`).
pub fn timeout_millis(secs: u64, nanos: u32) -> (r: Result<u32, D3xxError>)
    requires
        nanos < NANOS_PER_SEC,
    ensures
        r is Ok <==> millis_of(secs, nanos) <= MAX_TIMEOUT_MILLIS,
        r matches Ok(ms) ==> ms == millis_of(secs, nanos),
        r matches Err(e) ==> e == D3xxError::InvalidParameter,
{
    let extra = (nanos / NANOS_PER_MILLI) as u64;
    if secs > (MAX_TIMEOUT_MILLIS - extra) / 1000 {
        assert(secs * 1000 + extra > MAX_TIMEOUT_MILLIS) by (nonlinear_arith)
            requires
                secs > (MAX_TIMEOUT_MILLIS - extra) / 1000,
                extra <= 999,
        ;
        return Err(D3xxError::InvalidParameter);
    }
    assert(secs * 1000 + extra <= MAX_TIMEOUT_MILLIS) by (nonlinear_arith)
        requires
            secs <= (MAX_TIMEOUT_MILLIS - extra) / 1000,
            extra <= 999,
    ;
    Ok((secs * 1000 + extra) as u32)
}

/// The duration, as whole seconds and the nanoseconds beyond them, of a pipe
/// timeout of `millis` milliseconds that the driver reported.
pub fn timeout_from_millis(millis: u32) -> (r: (u64, u32))
    ensures
        r.0 == millis / 1000,
        r.1 == (millis % 1000) * NANOS_PER_MILLI,
        r.1 < NANOS_PER_SEC,
{
    ((millis / 1000) as u64, (millis % 1000) * NANOS_PER_MILLI)
}

/// A timeout read back from the driver converts to the milliseconds it was
/// read as; and a timeout of whole milliseconds that the driver can hold reads
/// back as the same seconds and nanoseconds that were set.
pub proof fn lemma_timeout_round_trip(millis: u32, secs: u64, nanos: u32)
    ensures
        ({
            let (s, n) = (millis / 1000, (millis % 1000) * NANOS_PER_MILLI);
            n < NANOS_PER_SEC && millis_of(s as u64, n as u32) == millis
        }),
        nanos < NANOS_PER_SEC && nanos % NANOS_PER_MILLI == 0 && millis_of(secs, nanos)
            <= MAX_TIMEOUT_MILLIS ==> ({
            let ms = millis_of(secs, nanos);
            ms / 1000 == secs && (ms % 1000) * NANOS_PER_MILLI == nanos
        }),
{
    let m = millis as int;
    assert(((m % 1000) * 1_000_000) / 1_000_000 == m % 1000) by (nonlinear_arith);
    assert((m / 1000) * 1000 + m % 1000 == m) by (nonlinear_arith);
    if nanos < NANOS_PER_SEC && nanos % NANOS_PER_MILLI == 0 {
        let (s, n) = (secs as int, nanos as int);
        let k = n / 1_000_000;
        assert(k * 1_000_000 == n) by (nonlinear_arith)
            requires
                n % 1_000_000 == 0,
                k == n / 1_000_000,
        ;
        assert(0 <= k < 1000) by (nonlinear_arith)
            requires
                0 <= n < 1_000_000_000,
                k == n / 1_000_000,
        ;
        assert((s * 1000 + k) / 1000 == s && (s * 1000 + k) % 1000 == k) by (nonlinear_arith)
            requires
                0 <= k < 1000,
                s >= 0,
        ;
    }
}

} // verus!
