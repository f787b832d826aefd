//! The measured loop: one stream decoded over and over against the clock.

use vstd::prelude::*;
use crate::decode::{decode, decoded, law_decode_repeats, overlay};
use crate::report::{
    BenchError, Measurement, REPS, elapsed_nanos, nanos_of, report, report_text, report_view,
    scale_iters, scaled,
};

verus! {

/// What decoding a stream `iters` times in a row gives: the sum of the
/// bytes written. Each pass gives what the first gave, so the first failure
/// is the only one, and the sum is a product.
pub open spec fn repeated(src: Seq<u8>, room: nat, iters: u64) -> Result<u64, BenchError> {
    let once = decoded(src, room);
    if iters == 0 {
        Ok(0)
    } else {
        match once.failure {
            Some(e) => Err(BenchError::Decode(e)),
            None => if iters * once.bytes.len() > u64::MAX {
                Err(BenchError::TotalOverflow)
            } else {
                Ok((iters * once.bytes.len()) as u64)
            },
        }
    }
}

/// Decodes `src` into `dst` `iters` times, each time from index 0 on, and
/// returns the sum of the bytes written. Stops at the first failure.
pub fn decode_repeatedly(dst: &mut [u8], src: &[u8], iters: u64) -> (r: Result<u64, BenchError>)
    requires
        src@.len() > 0,
    ensures
        r == repeated(src@, old(dst)@.len(), iters),
        final(dst)@ == if iters == 0 {
            old(dst)@
        } else {
            overlay(decoded(src@, old(dst)@.len()).bytes, old(dst)@)
        },
        final(dst)@.len() == old(dst)@.len(),
{
    let ghost room = old(dst)@.len();
    let ghost once = decoded(src@, room);
    let mut total: u64 = 0;
    let mut done: u64 = 0;
    proof {
        law_decode_repeats(src@, old(dst)@);
    }
    while done < iters
        invariant
            src@.len() > 0,
            done <= iters,
            room == old(dst)@.len(),
            once == decoded(src@, room),
            dst@.len() == room,
            dst@ == if done == 0 {
                old(dst)@
            } else {
                overlay(once.bytes, old(dst)@)
            },
            done > 0 ==> once.failure is None,
            total == done * once.bytes.len(),
            overlay(once.bytes, old(dst)@).len() == room,
            overlay(once.bytes, overlay(once.bytes, old(dst)@)) == overlay(once.bytes, old(dst)@),
        decreases iters - done,
    {
        match decode(dst, src) {
            Err(e) => {
                return Err(BenchError::Decode(e));
            },
            Ok(n) => {
                match total.checked_add(n as u64) {
                    None => {
                        assert(iters * once.bytes.len() > u64::MAX) by (nonlinear_arith)
                            requires
                                done < iters,
                                total == done * once.bytes.len(),
                                total + once.bytes.len() > u64::MAX,
                        ;
                        return Err(BenchError::TotalOverflow);
                    },
                    Some(sum) => {
                        assert(sum == (done + 1) * once.bytes.len()) by (nonlinear_arith)
                            requires
                                total == done * once.bytes.len(),
                                sum == total + once.bytes.len(),
                        ;
                        total = sum;
                        done += 1;
                    },
                }
            },
        }
    }
    assert(iters * once.bytes.len() <= u64::MAX);
    Ok(total)
}

/// What a run of `iters` iterations that decoded `total_bytes` in all
/// reports, once the clock has given the time it took.
pub open spec fn conclude_text(
    name: Seq<char>,
    iters: u64,
    total_bytes: u64,
    secs: u64,
    subsec_nanos: u32,
    warm_up: bool,
) -> Result<Option<Seq<char>>, BenchError> {
    match nanos_of(secs, subsec_nanos) {
        None => Err(BenchError::ClockOverflow),
        Some(nanos) => report_text(
            name,
            Measurement { iters: iters, total_bytes: total_bytes, elapsed_nanos: nanos },
            warm_up,
        ),
    }
}

/// Reports a run of `iters` iterations that decoded `total_bytes` in all,
/// from the time that the clock gave for it.
pub fn conclude(
    name: &str,
    iters: u64,
    total_bytes: u64,
    secs: u64,
    subsec_nanos: u32,
    warm_up: bool,
) -> (r: Result<Option<String>, BenchError>)
    ensures
        report_view(r) == conclude_text(name@, iters, total_bytes, secs, subsec_nanos, warm_up),
        warm_up ==> !(r matches Ok(Some(_))),
{
    match elapsed_nanos(secs, subsec_nanos) {
        None => Err(BenchError::ClockOverflow),
        Some(nanos) => {
            let m = Measurement { iters: iters, total_bytes: total_bytes, elapsed_nanos: nanos };
            report(name, &m, warm_up)
        },
    }
}

/// What a whole run reports if the clock gives `secs` seconds and
/// `subsec_nanos` nanoseconds for its loop. Only the last step looks at
/// the clock: a count that overflows and a stream that fails are reported
/// whatever the time.
pub open spec fn bench_text(
    name: Seq<char>,
    src: Seq<u8>,
    room: nat,
    iters_unscaled: u64,
    warm_up: bool,
    secs: u64,
    subsec_nanos: u32,
) -> Result<Option<Seq<char>>, BenchError> {
    match scaled(iters_unscaled) {
        None => Err(BenchError::IterationOverflow),
        Some(iters) => match repeated(src, room, iters) {
            Err(e) => Err(e),
            Ok(total_bytes) => conclude_text(
                name,
                iters,
                total_bytes,
                secs,
                subsec_nanos,
                warm_up,
            ),
        },
    }
}

/// Runs one case: decodes `src` into `dst` `iters_unscaled * ITERSCALE`
/// times against the clock and reports the run, with no line for a
/// warm-up. The clock is read once before the loop and once after it.
pub fn bench(name: &str, src: &[u8], dst: &mut [u8], iters_unscaled: u64, warm_up: bool) -> (r:
    Result<Option<String>, BenchError>)
    requires
        src@.len() > 0,
    ensures
        exists|secs: u64, subsec_nanos: u32|
            #![trigger bench_text(name@, src@, old(dst)@.len(), iters_unscaled, warm_up, secs, subsec_nanos)]
            subsec_nanos < 1_000_000_000 && report_view(r) == bench_text(
                name@,
                src@,
                old(dst)@.len(),
                iters_unscaled,
                warm_up,
                secs,
                subsec_nanos,
            ),
        warm_up ==> !(r matches Ok(Some(_))),
        final(dst)@ == if iters_unscaled == 0 || scaled(iters_unscaled) is None {
            old(dst)@
        } else {
            overlay(decoded(src@, old(dst)@.len()).bytes, old(dst)@)
        },
        final(dst)@.len() == old(dst)@.len(),
{
    let ghost room = old(dst)@.len();
    let iters: u64 = match scale_iters(iters_unscaled) {
        None => {
            assert(report_view(Err(BenchError::IterationOverflow)) == bench_text(
                name@,
                src@,
                room,
                iters_unscaled,
                warm_up,
                0,
                0,
            ));
            return Err(BenchError::IterationOverflow);
        },
        Some(iters) => iters,
    };
    let start = std::time::Instant::now();
    let outcome = decode_repeatedly(dst, src, iters);
    let elapsed = start.elapsed();
    match outcome {
        Err(e) => {
            assert(report_view(Err(e)) == bench_text(
                name@,
                src@,
                room,
                iters_unscaled,
                warm_up,
                0,
                0,
            ));
            Err(e)
        },
        Ok(total_bytes) => {
            let secs: u64 = elapsed.as_secs();
            let subsec_nanos: u32 = elapsed.subsec_nanos();
            let r = conclude(name, iters, total_bytes, secs, subsec_nanos, warm_up);
            assert(report_view(r) == bench_text(
                name@,
                src@,
                room,
                iters_unscaled,
                warm_up,
                secs,
                subsec_nanos,
            ));
            r
        },
    }
}

/// The count of passes over each case: one warm-up, then `REPS` measured.
pub fn rounds() -> (n: u64)
    ensures
        n == 1 + REPS,
{
    1 + REPS
}

/// Whether the pass of the given index is the warm-up: the first one is,
/// and no other.
pub fn is_warm_up(round: u64) -> (b: bool)
    ensures
        b == (round == 0),
{
    round == 0
}

} // verus!
