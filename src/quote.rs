//! Response generation.

use vstd::prelude::*;
use vstd::utf8::{encode_utf8, is_ascii_chars, is_ascii_chars_encode_utf8};

use crate::cli::{Cli, ResponseAlgorithm};
use crate::clock::{format_timestamp, local_time, now_at_offset, timestamp_text, CalendarTime};

verus! {

/// Length of the pattern response.
pub const PATTERN_LEN: usize = 64;

/// Hawaii's offset from UTC, in hours.
pub const HAWAII_OFFSET_HOURS: i8 = -10;

/// Why no response could be produced.
#[derive(Clone, Copy, PartialEq, Eq, Structural, Debug)]
pub enum QuoteError {
    /// The current time, seen in Hawaii, lies outside the representable dates.
    ClockOutOfRange,
}

/// `PATTERN_LEN` copies of `U`, whose code is 0x55.
pub open spec fn pattern_text() -> Seq<char> {
    Seq::new(PATTERN_LEN as nat, |i: int| 'U')
}

/// The time-and-place line for a peer, at a local time.
pub open spec fn time_and_place_text(peer: Seq<char>, t: CalendarTime) -> Seq<char> {
    "Hello, you are "@ + peer + " and it is now "@ + timestamp_text(t) + " in Hawaii\n"@
}

/// What `generate_quote` may return for a configuration and a peer address.
pub open spec fn quote_outcome(cli: Cli, peer: Seq<char>, r: Result<String, QuoteError>) -> bool {
    match cli.alg {
        ResponseAlgorithm::Pattern => r matches Ok(q) && q@ == pattern_text(),
        ResponseAlgorithm::Text => r matches Ok(q) && q@ == cli.text@,
        ResponseAlgorithm::TimeAndPlace => match r {
            Ok(q) => exists|s: int|
                {
                    let t = #[trigger] local_time(s, HAWAII_OFFSET_HOURS as int);
                    t.wf() && q@ == time_and_place_text(peer, t)
                },
            Err(e) => e == QuoteError::ClockOutOfRange,
        },
    }
}

/// The pattern response.
pub fn pattern_quote() -> (r: String)
    ensures
        r@ == pattern_text(),
{
    proof {
        reveal_strlit("U");
        assert("U"@ =~= seq!['U']);
    }
    let mut s = String::new();
    let mut i: usize = 0;
    while i < PATTERN_LEN
        invariant
            i <= PATTERN_LEN,
            "U"@ == seq!['U'],
            s@ =~= Seq::new(i as nat, |j: int| 'U'),
        decreases PATTERN_LEN - i,
    {
        s.append("U");
        i = i + 1;
    }
    s
}

/// The time-and-place response for a peer at a given local time.
pub fn time_and_place_quote(remote_addr: &str, now: &CalendarTime) -> (r: String)
    requires
        now.wf(),
    ensures
        r@ == time_and_place_text(remote_addr@, *now),
{
    let mut s = String::from_str("Hello, you are ");
    s.append(remote_addr);
    s.append(" and it is now ");
    let stamp = format_timestamp(now);
    s.append(stamp.as_str());
    s.append(" in Hawaii\n");
    s
}

/// The response to a peer, by the configured algorithm.
pub fn generate_quote(cli: &Cli, remote_addr: &str) -> (r: Result<String, QuoteError>)
    ensures
        quote_outcome(*cli, remote_addr@, r),
{
    match cli.alg {
        ResponseAlgorithm::Pattern => Ok(pattern_quote()),
        ResponseAlgorithm::TimeAndPlace => match now_at_offset(HAWAII_OFFSET_HOURS) {
            Some(now) => Ok(time_and_place_quote(remote_addr, &now)),
            None => Err(QuoteError::ClockOutOfRange),
        },
        ResponseAlgorithm::Text => Ok(cli.text.clone()),
    }
}

/// The pattern response is `PATTERN_LEN` bytes, each 0x55, whatever the peer.
pub proof fn lemma_pattern_bytes(cli: Cli, peer: Seq<char>, r: Result<String, QuoteError>)
    requires
        cli.alg == ResponseAlgorithm::Pattern,
        quote_outcome(cli, peer, r),
    ensures
        r matches Ok(q) && encode_utf8(q@) == Seq::new(PATTERN_LEN as nat, |i: int| 0x55u8),
{
    let q = r->Ok_0;
    assert(is_ascii_chars(q@));
    is_ascii_chars_encode_utf8(q@);
    assert(encode_utf8(q@) =~= Seq::new(PATTERN_LEN as nat, |i: int| 0x55u8));
}

/// The text response is the configured text, unchanged, whatever the peer.
pub proof fn lemma_text_verbatim(cli: Cli, peer: Seq<char>, r: Result<String, QuoteError>)
    requires
        cli.alg == ResponseAlgorithm::Text,
        quote_outcome(cli, peer, r),
    ensures
        r matches Ok(q) && q@ == cli.text@ && encode_utf8(q@) == encode_utf8(cli.text@),
{
}

/// A time-and-place response holds the peer's address and ends with ` in Hawaii`
/// and a newline.
pub proof fn lemma_time_and_place_shape(cli: Cli, peer: Seq<char>, r: Result<String, QuoteError>)
    requires
        cli.alg == ResponseAlgorithm::TimeAndPlace,
        quote_outcome(cli, peer, r),
        r is Ok,
    ensures
        ({
            let q = r->Ok_0@;
            let k = "Hello, you are "@.len() as int;
            let tail = " in Hawaii\n"@;
            &&& q.subrange(k, k + peer.len()) == peer
            &&& q.len() >= tail.len()
            &&& q.subrange(q.len() - tail.len(), q.len() as int) == tail
        }),
{
    let q = r->Ok_0@;
    let s = choose|s: int|
        {
            let t = #[trigger] local_time(s, HAWAII_OFFSET_HOURS as int);
            t.wf() && q == time_and_place_text(peer, t)
        };
    let k = "Hello, you are "@.len() as int;
    let tail = " in Hawaii\n"@;
    assert(q.subrange(k, k + peer.len()) =~= peer);
    assert(q.subrange(q.len() - tail.len(), q.len() as int) =~= tail);
}

/// Under the pattern and text algorithms, two generations for the same
/// configuration and peer give identical responses.
pub proof fn lemma_fixed_quotes_repeat(
    cli: Cli,
    peer: Seq<char>,
    first: Result<String, QuoteError>,
    second: Result<String, QuoteError>,
)
    requires
        cli.alg != ResponseAlgorithm::TimeAndPlace,
        quote_outcome(cli, peer, first),
        quote_outcome(cli, peer, second),
    ensures
        first matches Ok(a) && second matches Ok(b) && a@ == b@,
{
}

} // verus!
