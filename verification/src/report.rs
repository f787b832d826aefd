//! What one measured run amounts to, and the line that reports it.

use vstd::prelude::*;
use crate::decode::DecodeError;
use crate::text::{
    decimal, decimal_value, law_decimal_len, law_decimal_reads_back, law_leading_zeros, pad_left,
    pad_right, push_decimal, push_decimal_field, push_name_field,
};

verus! {

/// Each case runs its base count of iterations times this.
pub const ITERSCALE: u64 = 20;

/// The count of measured passes that follow the one warm-up pass.
pub const REPS: u64 = 5;

/// The width of the field that holds a case's name.
pub const NAME_WIDTH: usize = 16;

/// The width of the field that holds the count of iterations.
pub const ITERS_WIDTH: usize = 8;

/// The width of the field that holds the nanoseconds per iteration.
pub const NANOS_WIDTH: usize = 12;

/// The width of each of the two fields of the throughput.
pub const RATE_WIDTH: usize = 3;

/// Why a run gave no result.
#[derive(Clone, Copy, Debug, PartialEq, Eq, Structural)]
pub enum BenchError {
    /// The base count times `ITERSCALE` does not fit in 64 bits.
    IterationOverflow,
    /// The stream could not be drained.
    Decode(DecodeError),
    /// The sum of the bytes decoded does not fit in 64 bits.
    TotalOverflow,
    /// The elapsed time in nanoseconds does not fit in 64 bits.
    ClockOverflow,
    /// No time elapsed, so there is no rate.
    NoTimeElapsed,
    /// The bytes decoded times one million do not fit in 64 bits.
    ThroughputOverflow,
    /// A line was asked for a run of no iterations.
    NoIterations,
}

/// One run: how often the stream was decoded, how many bytes that gave in
/// all, and how long it took.
#[derive(Clone, Copy, Debug, PartialEq, Eq, Structural)]
pub struct Measurement {
    pub iters: u64,
    pub total_bytes: u64,
    pub elapsed_nanos: u64,
}

/// The count of iterations for a base count: the product with `ITERSCALE`,
/// where it fits in 64 bits.
pub open spec fn scaled(iters_unscaled: u64) -> Option<u64> {
    if iters_unscaled * ITERSCALE <= u64::MAX {
        Some((iters_unscaled * ITERSCALE) as u64)
    } else {
        None
    }
}

/// Scaling loses nothing: a scaled count divided by `ITERSCALE` is the base
/// count again, with no remainder. And it keeps the order: a base count
/// that is no larger scales wherever the larger one does, to a count that
/// is no larger.
pub proof fn law_scaled_is_exact_and_monotone(a: u64, b: u64)
    requires
        a <= b,
    ensures
        scaled(a) matches Some(i) ==> i / ITERSCALE == a && i % ITERSCALE == 0,
        scaled(b) matches Some(j) ==> scaled(a) matches Some(i) && i <= j,
{
}

/// The count of iterations for a base count, if it fits in 64 bits.
pub fn scale_iters(iters_unscaled: u64) -> (r: Option<u64>)
    ensures
        r == scaled(iters_unscaled),
{
    iters_unscaled.checked_mul(ITERSCALE)
}

/// The elapsed time in nanoseconds of a duration given as whole seconds and
/// the nanoseconds beyond them, if it fits in 64 bits.
pub open spec fn nanos_of(secs: u64, subsec_nanos: u32) -> Option<u64> {
    if secs * 1_000_000_000 + subsec_nanos <= u64::MAX {
        Some((secs * 1_000_000_000 + subsec_nanos) as u64)
    } else {
        None
    }
}

/// The elapsed time in nanoseconds of a duration given as whole seconds and
/// the nanoseconds beyond them, if it fits in 64 bits.
pub fn elapsed_nanos(secs: u64, subsec_nanos: u32) -> (r: Option<u64>)
    ensures
        r == nanos_of(secs, subsec_nanos),
{
    match secs.checked_mul(1_000_000_000) {
        None => None,
        Some(whole) => whole.checked_add(subsec_nanos as u64),
    }
}

impl Measurement {
    /// The throughput in thousands of bytes per second, rounded down.
    pub open spec fn rate(self) -> int
        recommends
            self.elapsed_nanos > 0,
    {
        self.total_bytes * 1_000_000 / (self.elapsed_nanos as int)
    }

    /// The nanoseconds that one iteration took, rounded down.
    pub open spec fn pace(self) -> int
        recommends
            self.iters > 0,
    {
        self.elapsed_nanos as int / self.iters as int
    }

    /// The throughput in thousands of bytes per second, rounded down.
    pub fn kb_per_s(&self) -> (r: u64)
        requires
            self.elapsed_nanos > 0,
            self.total_bytes * 1_000_000 <= u64::MAX,
        ensures
            r == self.rate(),
    {
        self.total_bytes * 1_000_000 / self.elapsed_nanos
    }

    /// The nanoseconds that one iteration took, rounded down.
    pub fn ns_per_op(&self) -> (r: u64)
        requires
            self.iters > 0,
        ensures
            r == self.pace(),
    {
        self.elapsed_nanos / self.iters
    }
}

/// The line that reports a run: the case's name behind a fixed prefix, the
/// count of iterations, the nanoseconds per iteration, and the throughput
/// in megabytes per second with three decimals, each in its field.
pub open spec fn line_text(name: Seq<char>, iters: u64, ns_per_op: u64, kb_per_s: u64) -> Seq<char> {
    "Benchmarkrust_lzw_decode_"@
        + pad_right(name, NAME_WIDTH as nat)
        + "   "@
        + pad_left(decimal(iters as nat), ITERS_WIDTH as nat, ' ')
        + "   "@
        + pad_left(decimal(ns_per_op as nat), NANOS_WIDTH as nat, ' ')
        + " ns/op   "@
        + pad_left(decimal((kb_per_s / 1_000) as nat), RATE_WIDTH as nat, ' ')
        + "."@
        + pad_left(decimal((kb_per_s % 1_000) as nat), RATE_WIDTH as nat, '0')
        + " MB/s\n"@
}

/// The line ends with a point, the three decimals of the throughput, the
/// unit and a line feed; and the three decimals read back as the rate's
/// remainder by a thousand.
pub proof fn law_three_decimals(name: Seq<char>, iters: u64, ns_per_op: u64, kb_per_s: u64)
    ensures
        ({
            let line = line_text(name, iters, ns_per_op, kb_per_s);
            let decimals = pad_left(decimal((kb_per_s % 1_000) as nat), RATE_WIDTH as nat, '0');
            &&& decimals.len() == 3
            &&& decimal_value(decimals) == kb_per_s % 1_000
            &&& line.len() >= 10
            &&& line.skip(line.len() - 10) == "."@ + decimals + " MB/s\n"@
        }),
{
    let rest = (kb_per_s % 1_000) as nat;
    let decimals = pad_left(decimal(rest), RATE_WIDTH as nat, '0');
    law_decimal_len(rest);
    law_decimal_reads_back(rest);
    if decimal(rest).len() < 3 {
        law_leading_zeros((3 - decimal(rest).len()) as nat, decimal(rest));
    }
    reveal_strlit(".");
    reveal_strlit(" MB/s\n");
    let line = line_text(name, iters, ns_per_op, kb_per_s);
    assert(line.skip(line.len() - 10) =~= "."@ + decimals + " MB/s\n"@);
}

/// Writes the line that reports a run.
pub fn format_line(name: &str, iters: u64, ns_per_op: u64, kb_per_s: u64) -> (line: String)
    ensures
        line@ == line_text(name@, iters, ns_per_op, kb_per_s),
{
    let mut line: String = String::from_str("Benchmarkrust_lzw_decode_");
    push_name_field(&mut line, name, NAME_WIDTH);
    line.append("   ");
    push_decimal_field(&mut line, iters, ITERS_WIDTH, ' ');
    line.append("   ");
    push_decimal_field(&mut line, ns_per_op, NANOS_WIDTH, ' ');
    line.append(" ns/op   ");
    push_decimal_field(&mut line, kb_per_s / 1_000, RATE_WIDTH, ' ');
    line.append(".");
    push_decimal_field(&mut line, kb_per_s % 1_000, RATE_WIDTH, '0');
    line.append(" MB/s\n");
    line
}

/// What a run reports: nothing for a warm-up, else its line. The rate is
/// worked out first, so a run without elapsed time fails even as a
/// warm-up.
pub open spec fn report_text(name: Seq<char>, m: Measurement, warm_up: bool) -> Result<
    Option<Seq<char>>,
    BenchError,
> {
    if m.elapsed_nanos == 0 {
        Err(BenchError::NoTimeElapsed)
    } else if m.total_bytes * 1_000_000 > u64::MAX {
        Err(BenchError::ThroughputOverflow)
    } else if warm_up {
        Ok(None)
    } else if m.iters == 0 {
        Err(BenchError::NoIterations)
    } else {
        Ok(Some(line_text(name, m.iters, m.pace() as u64, m.rate() as u64)))
    }
}

/// A report with its line, if it has one, as a sequence of characters.
pub open spec fn report_view(r: Result<Option<String>, BenchError>) -> Result<
    Option<Seq<char>>,
    BenchError,
> {
    match r {
        Ok(Some(line)) => Ok(Some(line@)),
        Ok(None) => Ok(None),
        Err(e) => Err(e),
    }
}

/// Reports a run: nothing for a warm-up, else its line.
pub fn report(name: &str, m: &Measurement, warm_up: bool) -> (r: Result<Option<String>, BenchError>)
    ensures
        report_view(r) == report_text(name@, *m, warm_up),
        warm_up ==> !(r matches Ok(Some(_))),
{
    if m.elapsed_nanos == 0 {
        return Err(BenchError::NoTimeElapsed);
    }
    if m.total_bytes > u64::MAX / 1_000_000 {
        return Err(BenchError::ThroughputOverflow);
    }
    let kb_per_s: u64 = m.kb_per_s();
    if warm_up {
        return Ok(None);
    }
    if m.iters == 0 {
        return Err(BenchError::NoIterations);
    }
    Ok(Some(format_line(name, m.iters, m.ns_per_op(), kb_per_s)))
}

/// The comment block that stands before the lines of a run: the version
/// of the compiler that built the program, then a note on the format.
pub open spec fn header_text(major: u64, minor: u64, patch: u64) -> Seq<char> {
    "# Rust "@
        + decimal(major as nat)
        + "."@
        + decimal(minor as nat)
        + "."@
        + decimal(patch as nat)
        + "\n#\n"@
        + "# The output format, including the \"Benchmark\" prefixes, is compatible with the\n"@
        + "# https://godoc.org/golang.org/x/perf/cmd/benchstat tool. To install it, first\n"@
        + "# install Go, then run \"go get golang.org/x/perf/cmd/benchstat\".\n"@
}

/// Writes the comment block that stands before the lines of a run.
pub fn header(major: u64, minor: u64, patch: u64) -> (text: String)
    ensures
        text@ == header_text(major, minor, patch),
{
    let mut text: String = String::from_str("# Rust ");
    push_decimal(&mut text, major);
    text.append(".");
    push_decimal(&mut text, minor);
    text.append(".");
    push_decimal(&mut text, patch);
    text.append("\n#\n");
    text.append("# The output format, including the \"Benchmark\" prefixes, is compatible with the\n");
    text.append("# https://godoc.org/golang.org/x/perf/cmd/benchstat tool. To install it, first\n");
    text.append("# install Go, then run \"go get golang.org/x/perf/cmd/benchstat\".\n");
    text
}

} // verus!
