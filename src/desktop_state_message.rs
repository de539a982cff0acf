use vstd::prelude::*;
use vstd::string::StringSliceAdditionalSpecFns;

use json::JsonError;
use json::JsonValue;

use crate::pod_states::{state_byte, state_of_byte, PodState};

verus! {

#[verifier::external_type_specification]
#[verifier::external_body]
pub struct ExJsonError(JsonError);

pub const REQUESTED_STATE: &'static str = "requested_state";
pub const MOST_RECENT_TIMESTAMP: &'static str = "most_recent_timestamp";

/// The desktop's request: the state it wants and its latest timestamp.
#[derive(PartialEq, Eq, Structural, Debug, Copy, Clone)]
pub struct DesktopStateMessage {
    pub requested_state: PodState,
    /// Unix seconds.
    pub most_recent_timestamp: i64,
}

#[derive(Debug)]
pub enum DesktopStateMessageError {
    JsonParseError(JsonError),
    InvalidMessage(String),
}

/// Decimal text of an integer, as ASCII bytes.
pub open spec fn decimal(n: int) -> Seq<u8>
    decreases (if n < 0 { -n + 1 } else { n }),
{
    if n < 0 {
        seq![45u8] + decimal(-n)
    } else if n < 10 {
        seq![(48 + n) as u8]
    } else {
        decimal(n / 10) + seq![(48 + n % 10) as u8]
    }
}

/// The wire form of a request.
pub open spec fn desktop_json(m: DesktopStateMessage) -> Seq<u8> {
    "{\"requested_state\":".spec_bytes() + decimal(state_byte(m.requested_state) as int)
        + ",\"most_recent_timestamp\":".spec_bytes() + decimal(m.most_recent_timestamp as int)
        + "}".spec_bytes()
}

/// `data` without the NUL bytes at its start and end.
pub open spec fn trim_nul(data: Seq<u8>) -> Seq<u8>
    decreases data.len(),
{
    if data.len() > 0 && data[0] == 0 {
        trim_nul(data.drop_first())
    } else if data.len() > 0 && data.last() == 0 {
        trim_nul(data.drop_last())
    } else {
        data
    }
}

/// Appends the decimal digits of `m`.
fn push_decimal(out: &mut Vec<u8>, m: u64)
    ensures
        final(out)@ == old(out)@ + decimal(m as int),
    decreases m,
{
    if m >= 10 {
        push_decimal(out, m / 10);
    }
    out.push((48 + m % 10) as u8);
    assert(out@ =~= old(out)@ + decimal(m as int));
}

/// The decimal text of `n`, with a leading `-` when negative.
fn decimal_bytes(n: i64) -> (r: Vec<u8>)
    ensures
        r@ == decimal(n as int),
{
    let mut out: Vec<u8> = Vec::new();
    if n < 0 {
        out.push(45u8);
        let magnitude: u64 = if n == i64::MIN {
            i64::MAX as u64 + 1
        } else {
            (-n) as u64
        };
        push_decimal(&mut out, magnitude);
        assert(out@ =~= decimal(n as int));
    } else {
        push_decimal(&mut out, n as u64);
        assert(out@ =~= decimal(n as int));
    }
    out
}

/// Sign (`true` when not negative), mantissa and decimal exponent of a JSON
/// number: it stands for `mantissa * 10^exponent`.
pub type NumberParts = (bool, u64, i16);

/// Longest request text handed to the JSON parser, in characters; a
/// datagram never holds more.
pub const MAX_REQUEST_LEN: usize = 1024;

/// The text `String::from_utf8_lossy` makes of some bytes.
pub uninterp spec fn lossy_text(bytes: Seq<u8>) -> Seq<char>;

/// What `json::parse` makes of a request text, read as the number parts of
/// its `requested_state` and `most_recent_timestamp` members (`None` for a
/// member that is absent or not a number); `None` when the text does not parse.
pub uninterp spec fn json_request_members(text: Seq<char>) -> Option<
    (Option<NumberParts>, Option<NumberParts>),
>;

/// Relies on `String::from_utf8_lossy`: the text depends on the bytes alone,
/// and every character of it stands for at least one byte.
#[verifier::external_body]
fn utf8_lossy(bytes: &[u8]) -> (r: String)
    ensures
        r@ == lossy_text(bytes@),
        r@.len() <= bytes@.len(),
{
    String::from_utf8_lossy(bytes).into_owned()
}

/// Relies on `json::parse`, then on json's `Index<&str>` (null for a missing
/// member) and `Number::as_parts` for the two members. The text is kept short:
/// the parser counts fraction digits in an `i16` that very long numbers overflow.
#[verifier::external_body]
fn request_members(text: &str) -> (r: Result<(Option<NumberParts>, Option<NumberParts>), JsonError>)
    requires
        text@.len() <= MAX_REQUEST_LEN,
    ensures
        r is Ok <==> json_request_members(text@) is Some,
        r matches Ok(f) ==> json_request_members(text@) == Some(f),
{
    let doc = json::parse(text)?;
    let state = match &doc[REQUESTED_STATE] {
        JsonValue::Number(n) => Some(n.as_parts()),
        _ => None,
    };
    let timestamp = match &doc[MOST_RECENT_TIMESTAMP] {
        JsonValue::Number(n) => Some(n.as_parts()),
        _ => None,
    };
    Ok((state, timestamp))
}

/// `m` with its last `k` decimal digits dropped.
pub open spec fn shift_down(m: nat, k: nat) -> nat
    decreases k,
{
    if k == 0 {
        m
    } else {
        shift_down(m / 10, (k - 1) as nat)
    }
}

/// `m` times `10^k`.
pub open spec fn shift_up(m: nat, k: nat) -> nat
    decreases k,
{
    if k == 0 {
        m
    } else {
        shift_up(m * 10, (k - 1) as nat)
    }
}

/// The magnitude of a number with any fraction dropped.
pub open spec fn integer_magnitude(p: NumberParts) -> nat {
    if p.2 >= 0 {
        shift_up(p.1 as nat, p.2 as nat)
    } else {
        shift_down(p.1 as nat, (-p.2) as nat)
    }
}

/// A number as an unsigned integer (fraction dropped): `None` when it is
/// negative, absent, or too large.
pub open spec fn number_as_u64(p: Option<NumberParts>) -> Option<u64> {
    match p {
        Some(p) => if p.0 && integer_magnitude(p) <= u64::MAX {
            Some(integer_magnitude(p) as u64)
        } else {
            None
        },
        None => None,
    }
}

/// A number as a signed integer (fraction dropped toward zero): `None` when
/// it is absent or out of range.
pub open spec fn number_as_i64(p: Option<NumberParts>) -> Option<i64> {
    match p {
        Some(p) => {
            let v: int = if p.0 {
                integer_magnitude(p) as int
            } else {
                -(integer_magnitude(p) as int)
            };
            if i64::MIN <= v <= i64::MAX {
                Some(v as i64)
            } else {
                None
            }
        },
        None => None,
    }
}

proof fn lemma_shift_down_zero(k: nat)
    ensures
        shift_down(0, k) == 0,
    decreases k,
{
    if k > 0 {
        lemma_shift_down_zero((k - 1) as nat);
    }
}

proof fn lemma_shift_up_grows(m: nat, k: nat)
    ensures
        shift_up(m, k) >= m,
        k > 0 ==> shift_up(m, k) >= m * 10,
    decreases k,
{
    if k > 0 {
        lemma_shift_up_grows(m * 10, (k - 1) as nat);
    }
}

/// The magnitude of a number, or `None` when it exceeds `u64::MAX`.
fn magnitude(p: NumberParts) -> (r: Option<u64>)
    ensures
        r matches Some(v) ==> v == integer_magnitude(p),
        r is None ==> integer_magnitude(p) > u64::MAX,
{
    let (_, mantissa, exponent) = p;
    let mut acc: u64 = mantissa;
    if exponent >= 0 {
        let k: u32 = exponent as u32;
        let mut i: u32 = 0;
        while i < k
            invariant
                i <= k,
                k == p.2,
                mantissa == p.1,
                shift_up(acc as nat, (k - i) as nat) == integer_magnitude(p),
            decreases k - i,
        {
            if acc == 0 {
                proof {
                    lemma_shift_up_grows(0, (k - i) as nat);
                    assert(shift_up(0, (k - i) as nat) == 0) by {
                        lemma_shift_up_zero((k - i) as nat);
                    }
                }
                return Some(0);
            }
            if acc > u64::MAX / 10 {
                proof {
                    lemma_shift_up_grows(acc as nat, (k - i) as nat);
                }
                return None;
            }
            acc = acc * 10;
            i = i + 1;
        }
        Some(acc)
    } else {
        let k: u32 = (-(exponent as i32)) as u32;
        let mut i: u32 = 0;
        while i < k && acc > 0
            invariant
                i <= k,
                k == -p.2,
                shift_down(acc as nat, (k - i) as nat) == integer_magnitude(p),
            decreases k - i,
        {
            acc = acc / 10;
            i = i + 1;
        }
        proof {
            if acc == 0 {
                lemma_shift_down_zero((k - i) as nat);
            }
        }
        Some(acc)
    }
}

proof fn lemma_shift_up_zero(k: nat)
    ensures
        shift_up(0, k) == 0,
    decreases k,
{
    if k > 0 {
        lemma_shift_up_zero((k - 1) as nat);
    }
}

/// A number as an unsigned integer, as `number_as_u64` states.
pub fn number_to_u64(p: Option<NumberParts>) -> (r: Option<u64>)
    ensures
        r == number_as_u64(p),
{
    match p {
        Some(parts) => if parts.0 {
            magnitude(parts)
        } else {
            None
        },
        None => None,
    }
}

/// A number as a signed integer, as `number_as_i64` states.
pub fn number_to_i64(p: Option<NumberParts>) -> (r: Option<i64>)
    ensures
        r == number_as_i64(p),
{
    match p {
        Some(parts) => match magnitude(parts) {
            Some(m) => if parts.0 {
                if m <= i64::MAX as u64 {
                    Some(m as i64)
                } else {
                    None
                }
            } else if m <= i64::MAX as u64 {
                Some(-(m as i64))
            } else if m == i64::MAX as u64 + 1 {
                Some(i64::MIN)
            } else {
                None
            },
            None => None,
        },
        None => None,
    }
}

/// The request two integers read off the wire make: the state must be
/// below 256 and both must be present.
pub open spec fn fields_message(requested_state: Option<u64>, most_recent_timestamp: Option<i64>) -> Option<
    DesktopStateMessage,
> {
    match (requested_state, most_recent_timestamp) {
        (Some(s), Some(t)) => if s < 256 {
            Some(
                DesktopStateMessage { requested_state: state_of_byte(s as u8), most_recent_timestamp: t },
            )
        } else {
            None
        },
        _ => None,
    }
}

fn push_bytes(out: &mut Vec<u8>, s: &str)
    ensures
        final(out)@ == old(out)@ + s.spec_bytes(),
{
    let mut bytes = vstd::slice::slice_to_vec(s.as_bytes());
    out.append(&mut bytes);
}

/// `data` without its leading and trailing NUL bytes.
pub fn trim_nul_bytes(data: &[u8]) -> (r: &[u8])
    ensures
        r@ == trim_nul(data@),
{
    let mut start: usize = 0;
    let mut end: usize = data.len();
    assert(data@.subrange(0, data@.len() as int) =~= data@);
    while start < end && data[start] == 0
        invariant
            start <= end <= data@.len(),
            end == data@.len(),
            trim_nul(data@.subrange(start as int, end as int)) == trim_nul(data@),
        decreases end - start,
    {
        assert(data@.subrange(start as int, end as int).drop_first() =~= data@.subrange(
            start + 1,
            end as int,
        ));
        start = start + 1;
    }
    while start < end && data[end - 1] == 0
        invariant
            start <= end <= data@.len(),
            start == end || data@[start as int] != 0,
            trim_nul(data@.subrange(start as int, end as int)) == trim_nul(data@),
        decreases end - start,
    {
        assert(data@.subrange(start as int, end as int).drop_last() =~= data@.subrange(
            start as int,
            end - 1,
        ));
        end = end - 1;
    }
    &data[start..end]
}

impl DesktopStateMessage {
    /// Builds a request from the two integers read off the wire: the state
    /// must be below 256 and the timestamp present.
    pub fn from_fields(requested_state: Option<u64>, most_recent_timestamp: Option<i64>) -> (r: Result<
        DesktopStateMessage,
        DesktopStateMessageError,
    >)
        ensures
            match fields_message(requested_state, most_recent_timestamp) {
                Some(m) => (r matches Ok(x) && x == m),
                None => (r matches Err(e) && e is InvalidMessage),
            },
    {
        if let Some(state) = requested_state {
            if state < 256 {
                if let Some(timestamp) = most_recent_timestamp {
                    return Ok(
                        DesktopStateMessage {
                            requested_state: PodState::from_byte(state as u8),
                            most_recent_timestamp: timestamp,
                        },
                    );
                }
            }
        }
        Err(
            DesktopStateMessageError::InvalidMessage(
                String::from_str("Unable to read numbers from parsed message"),
            ),
        )
    }

    /// Decodes a request from a datagram, ignoring NUL padding around it:
    /// text longer than `MAX_REQUEST_LEN` bytes is refused, text that does not
    /// parse is a `JsonParseError`, and otherwise the two members decide as
    /// `fields_message` states.
    pub fn from_json_bytes(json_bytes: &[u8]) -> (r: Result<
        DesktopStateMessage,
        DesktopStateMessageError,
    >)
        ensures
            trim_nul(json_bytes@).len() > MAX_REQUEST_LEN ==> (r matches Err(e) && e is InvalidMessage),
            trim_nul(json_bytes@).len() <= MAX_REQUEST_LEN ==> match json_request_members(
                lossy_text(trim_nul(json_bytes@)),
            ) {
                None => (r matches Err(e) && e is JsonParseError),
                Some(f) => match fields_message(number_as_u64(f.0), number_as_i64(f.1)) {
                    Some(m) => (r matches Ok(x) && x == m),
                    None => (r matches Err(e) && e is InvalidMessage),
                },
            },
    {
        let trimmed = trim_nul_bytes(json_bytes);
        if trimmed.len() > MAX_REQUEST_LEN {
            return Err(DesktopStateMessageError::InvalidMessage(String::from_str("Request too long")));
        }
        let text = utf8_lossy(trimmed);
        let (state, timestamp) = match request_members(text.as_str()) {
            Ok(f) => f,
            Err(e) => {
                return Err(DesktopStateMessageError::JsonParseError(e));
            },
        };
        DesktopStateMessage::from_fields(number_to_u64(state), number_to_i64(timestamp))
    }

    /// The wire form: `{"requested_state":<byte>,"most_recent_timestamp":<seconds>}`.
    pub fn to_json_bytes(&self) -> (r: Vec<u8>)
        ensures
            r@ == desktop_json(*self),
    {
        let mut out: Vec<u8> = Vec::new();
        push_bytes(&mut out, "{\"requested_state\":");
        let mut state = decimal_bytes(self.requested_state.to_byte() as i64);
        out.append(&mut state);
        push_bytes(&mut out, ",\"most_recent_timestamp\":");
        let mut timestamp = decimal_bytes(self.most_recent_timestamp);
        out.append(&mut timestamp);
        push_bytes(&mut out, "}");
        assert(out@ =~= desktop_json(*self));
        out
    }
}

} // verus!
