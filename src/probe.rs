use vstd::prelude::*;
use vstd::string::{StrSliceExecFns, StringExecFns};

use crate::checkerror::{verdict, CheckError, FailureKind};

verus! {

/// The optional scheme marker in front of a TCP target.
pub open spec fn tcp_scheme() -> Seq<char> {
    seq!['t', 'c', 'p', ':', '/', '/']
}

/// A TCP target with its scheme marker, if any, taken off.
pub open spec fn target_of(addr: Seq<char>) -> Seq<char> {
    if addr.len() >= tcp_scheme().len() && addr.subrange(0, tcp_scheme().len() as int)
        == tcp_scheme() {
        addr.subrange(tcp_scheme().len() as int, addr.len() as int)
    } else {
        addr
    }
}

/// The host and port to resolve for a TCP target: the target without a leading
/// `tcp://`.
pub fn tcp_target(addr: &str) -> (r: &str)
    ensures
        r@ == target_of(addr@),
{
    let n = addr.unicode_len();
    if n < 6 {
        return addr;
    }
    let marker = ['t', 'c', 'p', ':', '/', '/'];
    let mut i: usize = 0;
    while i < 6
        invariant
            n == addr@.len(),
            6 <= n,
            i <= 6,
            marker@ == tcp_scheme(),
            forall|j: int| 0 <= j < i ==> addr@[j] == tcp_scheme()[j],
        decreases 6 - i,
    {
        if addr.get_char(i) != marker[i] {
            return addr;
        }
        i = i + 1;
    }
    assert(addr@.subrange(0, 6) =~= tcp_scheme());
    addr.substring_char(6, n)
}

/// The verdict on a TCP target's name resolution, which yields either the
/// number of socket addresses found or an error text. `None` means that the
/// probe goes on and connects to the first address.
pub open spec fn resolution_verdict(addr: Seq<char>, resolved: Result<usize, String>) -> Option<
    (FailureKind, Seq<char>),
> {
    match resolved {
        Err(e) => Some((FailureKind::InvalidAddress, addr + ": "@ + e@)),
        Ok(n) => if n == 0 {
            Some((FailureKind::InvalidAddress, "No addresses resolved for: "@ + addr))
        } else {
            None
        },
    }
}

/// Classifies the resolution of the TCP target `addr`. `Ok` tells the caller
/// to connect to the first address that was found.
pub fn resolution_outcome(addr: &str, resolved: Result<usize, String>) -> (r: Result<(), CheckError>)
    ensures
        verdict(r) == resolution_verdict(addr@, resolved),
{
    match resolved {
        Err(e) => {
            let m = String::from_str(addr).concat(": ").concat(e.as_str());
            Err(CheckError::InvalidAddress(m))
        },
        Ok(n) => {
            if n == 0 {
                let m = String::from_str("No addresses resolved for: ").concat(addr);
                Err(CheckError::InvalidAddress(m))
            } else {
                Ok(())
            }
        },
    }
}

/// The verdict on a connection attempt to the first resolved address of `addr`.
pub open spec fn connection_verdict(addr: Seq<char>, connected: Result<(), String>) -> Option<
    (FailureKind, Seq<char>),
> {
    match connected {
        Err(e) => Some((FailureKind::ConnectionFailed, addr + ": "@ + e@)),
        Ok(()) => None,
    }
}

/// Classifies a connection attempt to the first resolved address of `addr`.
pub fn connection_outcome(addr: &str, connected: Result<(), String>) -> (r: Result<(), CheckError>)
    ensures
        verdict(r) == connection_verdict(addr@, connected),
{
    match connected {
        Err(e) => {
            let m = String::from_str(addr).concat(": ").concat(e.as_str());
            Err(CheckError::ConnectionFailed(m))
        },
        Ok(()) => Ok(()),
    }
}

/// The verdict on a whole TCP probe: resolution first, then, only where it
/// found an address, the connection.
pub open spec fn tcp_verdict(
    addr: Seq<char>,
    resolved: Result<usize, String>,
    connected: Result<(), String>,
) -> Option<(FailureKind, Seq<char>)> {
    match resolution_verdict(addr, resolved) {
        Some(v) => Some(v),
        None => connection_verdict(addr, connected),
    }
}

/// What one HTTP GET showed: the client could not be built, the request failed
/// on its way (name lookup, connection, TLS, timeout), or an answer came back
/// with a status code and, where the code has one, its standard reason phrase.
/// The body of the answer plays no part.
pub enum HttpObservation {
    ClientFailed(String),
    TransportFailed(String),
    Status(u16, Option<String>),
}

/// The reason phrase shown for a status code that has none of its own.
pub open spec fn unknown_reason() -> Seq<char> {
    "<unknown status code>"@
}

/// A status as it is shown: the code in decimal, a space, then its reason
/// phrase or, lacking one, `<unknown status code>`.
pub open spec fn status_text(code: u16, reason: Option<String>) -> Seq<char> {
    decimal(code as nat) + " "@ + match reason {
        Some(r) => r@,
        None => unknown_reason(),
    }
}

/// A status code in the success class, 200 to 299.
pub open spec fn is_success_status(code: u16) -> bool {
    200 <= code <= 299
}

/// Tells whether a status code is in the success class, 200 to 299.
pub fn status_is_success(code: u16) -> (r: bool)
    ensures
        r == is_success_status(code),
{
    200 <= code && code <= 299
}

/// The decimal digit for `d`, below ten.
pub open spec fn digit_char(d: nat) -> char {
    if d == 0 { '0' }
    else if d == 1 { '1' }
    else if d == 2 { '2' }
    else if d == 3 { '3' }
    else if d == 4 { '4' }
    else if d == 5 { '5' }
    else if d == 6 { '6' }
    else if d == 7 { '7' }
    else if d == 8 { '8' }
    else { '9' }
}

/// The decimal numeral of `n`, without leading zeros.
pub open spec fn decimal(n: nat) -> Seq<char>
    decreases n,
{
    if n < 10 {
        seq![digit_char(n)]
    } else {
        decimal(n / 10) + seq![digit_char(n % 10)]
    }
}

fn digit_text(d: u16) -> (r: &'static str)
    requires
        d < 10,
    ensures
        r@ == seq![digit_char(d as nat)],
{
    proof {
        reveal_strlit("0");
        reveal_strlit("1");
        reveal_strlit("2");
        reveal_strlit("3");
        reveal_strlit("4");
        reveal_strlit("5");
        reveal_strlit("6");
        reveal_strlit("7");
        reveal_strlit("8");
        reveal_strlit("9");
    }
    if d == 0 { "0" }
    else if d == 1 { "1" }
    else if d == 2 { "2" }
    else if d == 3 { "3" }
    else if d == 4 { "4" }
    else if d == 5 { "5" }
    else if d == 6 { "6" }
    else if d == 7 { "7" }
    else if d == 8 { "8" }
    else { "9" }
}

fn append_decimal(out: &mut String, n: u16)
    ensures
        final(out)@ == old(out)@ + decimal(n as nat),
    decreases n,
{
    if n >= 10 {
        append_decimal(out, n / 10);
    }
    out.append(digit_text(n % 10));
    assert(final(out)@ =~= old(out)@ + decimal(n as nat));
}

/// The verdict on an HTTP probe of `url`.
pub open spec fn http_verdict(url: Seq<char>, obs: HttpObservation) -> Option<
    (FailureKind, Seq<char>),
> {
    match obs {
        HttpObservation::ClientFailed(e) => Some(
            (FailureKind::InvalidAddress, "Client creation failed: "@ + e@),
        ),
        HttpObservation::TransportFailed(e) => Some(
            (FailureKind::RequestFailed, url + ": "@ + e@),
        ),
        HttpObservation::Status(code, reason) => if is_success_status(code) {
            None
        } else {
            Some((FailureKind::RequestFailed, url + ": HTTP "@ + status_text(code, reason)))
        },
    }
}

/// Classifies what one HTTP GET of `url` showed. Only a status from 200 to 299
/// counts as success.
pub fn http_outcome(url: &str, obs: HttpObservation) -> (r: Result<(), CheckError>)
    ensures
        verdict(r) == http_verdict(url@, obs),
{
    match obs {
        HttpObservation::ClientFailed(e) => {
            let m = String::from_str("Client creation failed: ").concat(e.as_str());
            Err(CheckError::InvalidAddress(m))
        },
        HttpObservation::TransportFailed(e) => {
            let m = String::from_str(url).concat(": ").concat(e.as_str());
            Err(CheckError::RequestFailed(m))
        },
        HttpObservation::Status(code, reason) => {
            if status_is_success(code) {
                Ok(())
            } else {
                let mut m = String::from_str(url).concat(": HTTP ");
                append_decimal(&mut m, code);
                m.append(" ");
                match reason {
                    Some(r) => m.append(r.as_str()),
                    None => m.append("<unknown status code>"),
                }
                assert(m@ =~= url@ + ": HTTP "@ + status_text(code, reason));
                Err(CheckError::RequestFailed(m))
            }
        },
    }
}

/// A status outside 200 to 299 is a `RequestFailed`, never a success,
/// whatever its reason phrase: the verdict has no input from the body of the
/// answer.
pub proof fn lemma_non_success_status_fails(url: Seq<char>, code: u16, reason: Option<String>)
    requires
        !is_success_status(code),
    ensures
        http_verdict(url, HttpObservation::Status(code, reason)) matches Some(v) && v.0
            == FailureKind::RequestFailed,
{
}

/// A probe keeps no state between calls: probing a still reachable TCP
/// endpoint twice (each time some address is found and the connection is
/// made) gives success both times, and so does probing a still healthy HTTP
/// endpoint twice (each time with a status from 200 to 299).
pub proof fn lemma_reachable_probe_repeats(
    addr: Seq<char>,
    first_found: usize,
    second_found: usize,
    url: Seq<char>,
    first_status: u16,
    second_status: u16,
    reason: Option<String>,
)
    requires
        first_found > 0,
        second_found > 0,
        is_success_status(first_status),
        is_success_status(second_status),
    ensures
        tcp_verdict(addr, Ok(first_found), Ok(())) is None,
        tcp_verdict(addr, Ok(second_found), Ok(())) is None,
        http_verdict(url, HttpObservation::Status(first_status, reason)) is None,
        http_verdict(url, HttpObservation::Status(second_status, reason)) is None,
{
}

} // verus!
