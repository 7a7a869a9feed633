//! The runtime arithmetic and notification texts of the generated wrapper.
//! The monotonic clock itself is an external collaborator; the library
//! computes on the readings it hands over, in nanoseconds.

use vstd::prelude::*;
use vstd::string::StringExecFns;

verus! {

/// The elapsed duration between two monotonic clock readings.
pub open spec fn spec_elapsed(start: u64, end: u64) -> int {
    if end >= start {
        end - start
    } else {
        0
    }
}

/// Computes the elapsed duration between the reading taken immediately
/// before the wrapped body was invoked and the one taken immediately after
/// it returned. A monotonic clock never runs backwards; a reading pair in
/// the wrong order yields zero rather than a panic.
pub fn elapsed_nanos(start: u64, end: u64) -> (r: u64)
    ensures
        r == spec_elapsed(start, end),
{
    if end >= start {
        end - start
    } else {
        0
    }
}

/// The duration a measurement yields is never negative, whatever readings
/// the clock produced; in `give_back` mode the pair's second element is
/// exactly this duration.
pub proof fn lemma_elapsed_non_negative(start: u64, end: u64)
    ensures
        spec_elapsed(start, end) >= 0,
        end >= start ==> spec_elapsed(start, end) == end - start,
{
}

/// A measurement around a body that sleeps about fifty milliseconds: under
/// normal scheduling the two monotonic readings around the single body
/// invocation lie between 45 and 150 milliseconds apart, and then the
/// duration the wrapper computes — the pair's second element in `give_back`
/// mode — lies in that range too. What the clock itself reads of the wall
/// is outside the library.
pub proof fn lemma_fifty_millisecond_measurement_range(start: u64, end: u64)
    requires
        start <= end,
        45_000_000 <= end - start <= 150_000_000,
    ensures
        45_000_000 <= spec_elapsed(start, end) <= 150_000_000,
{
}

/// Binds the original result and the elapsed duration into the pair that a
/// `give_back` wrapper returns; the original result is passed through
/// unchanged.
pub fn give_back_pair<T>(value: T, elapsed: u64) -> (r: (T, u64))
    ensures
        r.0 == value,
        r.1 == elapsed,
{
    (value, elapsed)
}

/// The start notification: exactly the materialized message.
pub fn start_notification(message: &str) -> (r: String)
    ensures
        r@ == message@,
{
    message.to_owned()
}

/// What the debug rendering of a duration of the given number of
/// nanoseconds looks like, with two fractional digits. The rendering
/// depends on the nanosecond count alone.
pub uninterp spec fn duration_rendering(nanos: u64) -> Seq<char>;

/// Relies on the Debug formatting of `core::time::Duration` under the
/// precision `{:.2?}`: a pure function of the duration value.
#[verifier::external_body]
fn render_elapsed(nanos: u64) -> (r: String)
    ensures
        r@ == duration_rendering(nanos),
{
    format!("{:.2?}", core::time::Duration::from_nanos(nanos))
}

/// The done notification: the materialized message, `: Done in `, and the
/// elapsed duration rendered with two fractional digits.
pub fn done_notification(message: &str, elapsed: u64) -> (r: String)
    ensures
        r@ == message@ + ": Done in "@ + duration_rendering(elapsed),
{
    let mut out = message.to_owned();
    out.append(": Done in ");
    let rendered = render_elapsed(elapsed);
    out.append(rendered.as_str());
    out
}

} // verus!
