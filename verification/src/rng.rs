use vstd::prelude::*;

verus! {

/// The largest value an EO "short" can hold, plus one (`eolib::data::SHORT_MAX`).
pub const SHORT_MAX: i32 = 64009;

/// Draws a session id uniformly from `[10, SHORT_MAX)` with `rand::random_range`.
/// The contract states only the range, which every outcome satisfies.
#[verifier::external_body]
pub(crate) fn random_session_id() -> (r: i32)
    ensures
        10 <= r < SHORT_MAX,
{
    rand::random_range(10..eolib::data::SHORT_MAX)
}

/// Draws one upper case ASCII letter with `rand::random_range('A'..='Z')` and
/// returns it as a one-letter string. The contract states what every outcome
/// satisfies: one character between 'A' and 'Z'.
#[verifier::external_body]
pub(crate) fn random_upper_case_letter() -> (r: String)
    ensures
        r@.len() == 1,
        'A' <= r@[0] <= 'Z',
{
    String::from(rand::random_range('A'..='Z'))
}

/// Draws a ping sequence start with `eolib::packet::generate_sequence_start`,
/// which returns a value in `0..=CHAR_MAX - 10` (`CHAR_MAX` is 253).
#[verifier::external_body]
pub(crate) fn random_sequence_start() -> (r: i32)
    ensures
        0 <= r <= 243,
{
    eolib::packet::generate_sequence_start()
}

/// Splits a ping sequence start into the two bytes sent to the client with
/// `eolib::packet::get_ping_sequence_bytes`: it draws `seq1` from
/// `start..=start + 252` and sets `seq2 = seq1 - start`.
#[verifier::external_body]
pub(crate) fn ping_sequence_bytes(start: i32) -> (r: (i32, i32))
    requires
        0 <= start <= 243,
    ensures
        start <= r.0 <= start + 252,
        r.1 == r.0 - start,
{
    let bytes = eolib::packet::get_ping_sequence_bytes(start);
    (bytes[0], bytes[1])
}

} // verus!
