use opentelemetry::trace::TraceContextExt;
use std::num::ParseIntError;
use tracing_opentelemetry::OpenTelemetrySpanExt;
use vstd::prelude::*;

verus! {

#[verifier::external_type_specification]
#[verifier::external_body]
pub struct ExParseIntError(ParseIntError);

/// Identifier of a distributed trace: 16 bytes, held as one big-endian 128-bit
/// value. The value 0 names no trace.
#[derive(Clone, Copy, Debug, PartialEq, Eq, Structural, Hash)]
pub struct TraceId(u128);

impl View for TraceId {
    type V = u128;

    closed spec fn view(&self) -> u128 {
        self.0
    }
}

/// The value of a hexadecimal digit, either case.
pub open spec fn hex_digit_value(c: char) -> Option<int> {
    if '0' <= c && c <= '9' {
        Some(c as int - '0' as int)
    } else if 'a' <= c && c <= 'f' {
        Some(c as int - 'a' as int + 10)
    } else if 'A' <= c && c <= 'F' {
        Some(c as int - 'A' as int + 10)
    } else {
        None
    }
}

/// The number that the hexadecimal digits `digits` write, if all of them are
/// digits (0 for none).
pub open spec fn hex_digits_value(digits: Seq<char>) -> Option<int>
    decreases digits.len(),
{
    if digits.len() == 0 {
        Some(0)
    } else {
        match (hex_digits_value(digits.drop_last()), hex_digit_value(digits.last())) {
            (Some(high), Some(low)) => Some(high * 16 + low),
            _ => None,
        }
    }
}

/// The trace identifier that the text `hex` denotes, read as `u128::from_str_radix`
/// reads base 16: an optional `+`, then at least one hexadecimal digit, for a
/// value that fits in 128 bits.
pub open spec fn trace_id_from_hex(hex: Seq<char>) -> Option<u128> {
    let digits = if hex.len() > 0 && hex[0] == '+' {
        hex.drop_first()
    } else {
        hex
    };
    if digits.len() == 0 {
        None
    } else {
        match hex_digits_value(digits) {
            Some(v) => if v <= u128::MAX {
                Some(v as u128)
            } else {
                None
            },
            None => None,
        }
    }
}

/// `TraceId::from_hex` of `opentelemetry` (which is `u128::from_str_radix(hex, 16)`),
/// with the identifier taken as its 128-bit value: it succeeds exactly when the
/// text denotes an identifier by [`trace_id_from_hex`], and then gives that
/// identifier.
#[verifier::external_body]
pub(crate) fn parse_trace_id_hex(hex: &str) -> (r: Result<u128, ParseIntError>)
    ensures
        r is Ok <==> trace_id_from_hex(hex@) is Some,
        r matches Ok(v) ==> trace_id_from_hex(hex@) == Some(v),
{
    match opentelemetry::trace::TraceId::from_hex(hex) {
        Ok(id) => Ok(u128::from_be_bytes(id.to_bytes())),
        Err(e) => Err(e),
    }
}

/// `Display` of `opentelemetry`'s `TraceId` for the identifier with the 128-bit
/// value `value`: 32 lowercase hexadecimal digits (`{:032x}`), which
/// `TraceId::from_hex` reads back as the same value.
#[verifier::external_body]
fn format_trace_id_hex(value: u128) -> (r: String)
    ensures
        r@.len() == 32,
        trace_id_from_hex(r@) == Some(value),
{
    opentelemetry::trace::TraceId::from(value).to_string()
}

/// The OpenTelemetry span context of the current `tracing` span
/// (`OpenTelemetrySpanExt::context` of `tracing_opentelemetry`, then
/// `TraceContextExt::span` and `SpanContext` of `opentelemetry`): whether it is
/// valid, and its trace identifier as a 128-bit value. A valid context has a
/// non-zero trace identifier (`SpanContext::is_valid`). Which span is current
/// depends on the calling task, so nothing more is stated.
#[verifier::external_body]
pub(crate) fn current_span_trace_context() -> (r: (bool, u128))
    ensures
        r.0 ==> r.1 != 0,
{
    let context = tracing::Span::current().context();
    let span = context.span();
    let span_context = span.span_context();
    (span_context.is_valid(), u128::from_be_bytes(span_context.trace_id().to_bytes()))
}

impl TraceId {
    /// The identifier with the given 128-bit value.
    pub fn from_u128(value: u128) -> (r: TraceId)
        ensures
            r@ == value,
    {
        TraceId(value)
    }

    /// The 128-bit value of the identifier.
    pub fn as_u128(&self) -> (r: u128)
        ensures
            r == self@,
    {
        self.0
    }

    /// The identifier as it is stored: 32 lowercase hexadecimal digits, which
    /// read back as the same identifier.
    pub fn to_hex(&self) -> (r: String)
        ensures
            r@.len() == 32,
            trace_id_from_hex(r@) == Some(self@),
    {
        format_trace_id_hex(self.0)
    }

    /// The trace of a span context: its trace identifier when the context is
    /// valid, none otherwise.
    pub fn of_span_context(is_valid: bool, trace_id: u128) -> (r: Option<TraceId>)
        ensures
            r is Some <==> is_valid,
            r matches Some(t) ==> t@ == trace_id,
    {
        if is_valid {
            Some(TraceId(trace_id))
        } else {
            None
        }
    }

    /// The trace of the current span, if it belongs to one.
    pub fn current() -> (r: Option<TraceId>)
        ensures
            r matches Some(t) ==> t@ != 0,
    {
        let (is_valid, trace_id) = current_span_trace_context();
        TraceId::of_span_context(is_valid, trace_id)
    }
}

} // verus!
