//! The shape of one HTTP exchange: the request the library asks to be sent,
//! the outcome the transport hands back, and the error kinds a call ends in.

use vstd::prelude::*;
use ureq::Error as TransportError;

verus! {

#[verifier::external_type_specification]
#[verifier::external_body]
pub struct ExTransportError(TransportError);

/// Why creating an issue failed.
#[derive(Debug)]
pub enum Error {
    /// The transport could not complete the exchange (DNS, connection, TLS,
    /// timeout).
    Http(TransportError),
    /// The tracker's API rejected the request, by HTTP status or by an
    /// `errors` field in its response.
    Api(String),
    /// The response was not valid JSON or lacked an expected field.
    Parse(String),
    /// The relay answered with a non-2xx status; its body is kept verbatim.
    Proxy { status: u16, body: String },
}

/// A POST with a JSON body, to be sent as it stands.
pub struct HttpRequest {
    pub url: String,
    /// Header names and values, in the order they are to be set.
    pub headers: Vec<(String, String)>,
    pub body: String,
}

/// What came of sending an `HttpRequest`.
pub enum Outcome {
    /// The exchange could not be completed.
    Failed(TransportError),
    /// The server answered with a non-2xx status; the body text, or the
    /// empty string where it could not be read.
    Status { code: u16, body: String },
    /// The server answered with a 2xx status but its body could not be read
    /// as text; what the reader said.
    Unreadable(String),
    /// The server answered with a 2xx status and this body text.
    Received(String),
}

/// The header names and values of a request, as character sequences.
pub open spec fn headers_view(h: Seq<(String, String)>) -> Seq<(Seq<char>, Seq<char>)> {
    h.map_values(|p: (String, String)| (p.0@, p.1@))
}

/// The decimal digit for `d`, which is below ten.
pub open spec fn digit(d: nat) -> char {
    if d == 0 { '0' }
    else if d == 1 { '1' }
    else if d == 2 { '2' }
    else if d == 3 { '3' }
    else if d == 4 { '4' }
    else if d == 5 { '5' }
    else if d == 6 { '6' }
    else if d == 7 { '7' }
    else if d == 8 { '8' }
    else { '9' }
}

/// `n` written in decimal, without leading zeros.
pub open spec fn decimal(n: nat) -> Seq<char>
    decreases n,
{
    if n < 10 {
        seq![digit(n)]
    } else {
        decimal(n / 10) + seq![digit(n % 10)]
    }
}

fn digit_str(d: u16) -> (r: &'static str)
    requires
        d < 10,
    ensures
        r@ == seq![digit(d as nat)],
{
    proof {
        reveal_strlit("0");
        reveal_strlit("1");
        reveal_strlit("2");
        reveal_strlit("3");
        reveal_strlit("4");
        reveal_strlit("5");
        reveal_strlit("6");
        reveal_strlit("7");
        reveal_strlit("8");
        reveal_strlit("9");
    }
    match d {
        0 => "0",
        1 => "1",
        2 => "2",
        3 => "3",
        4 => "4",
        5 => "5",
        6 => "6",
        7 => "7",
        8 => "8",
        _ => "9",
    }
}

/// Appends `n` in decimal to `out`.
pub fn append_decimal(out: &mut String, n: u16)
    ensures
        final(out)@ == old(out)@ + decimal(n as nat),
    decreases n,
{
    if n >= 10 {
        append_decimal(out, n / 10);
    }
    out.append(digit_str(n % 10));
    assert(final(out)@ =~= old(out)@ + decimal(n as nat));
}

} // verus!
