//! Validation of a protocol-upgrade response: pure checks over the
//! status code and header values. The caller's transport supplies the
//! header values and the accept key it derived from its nonce.

use vstd::prelude::*;
use vstd::string::*;

use crate::outside::{ascii_lowercase, lower_ascii};

verus! {

/// The subprotocol this runtime speaks over an upgraded connection: the
/// binary channel protocol whose error channel carries a structured
/// status object.
pub open spec fn channel_protocol() -> Seq<char> {
    "v4.channel.k8s.io"@
}

/// Why an upgrade response was rejected, in the order the checks run.
#[derive(Clone, Debug)]
pub enum UpgradeError {
    /// The server did not switch protocols; carries its status code.
    ProtocolSwitch(u16),
    /// The upgrade header is missing or does not name a websocket.
    MissingUpgradeWebSocketHeader,
    /// The connection header is missing or does not ask to upgrade.
    MissingConnectionUpgradeHeader,
    /// The accept key does not match the one derived from the nonce.
    SecWebSocketAcceptKeyMismatch,
    /// The server did not confirm the expected subprotocol.
    SecWebSocketProtocolMismatch,
}

/// Two strings that agree up to ASCII case.
pub open spec fn eq_ignore_ascii_case(a: Seq<char>, b: Seq<char>) -> bool {
    lower_ascii(a) == lower_ascii(b)
}

/// Whether an optional header value agrees with the wanted value up to
/// ASCII case.
pub open spec fn header_matches(h: Option<Seq<char>>, wanted: Seq<char>) -> bool {
    match h {
        Some(v) => eq_ignore_ascii_case(v, wanted),
        None => false,
    }
}

fn str_eq_ignore_ascii_case(a: &str, b: &str) -> (r: bool)
    ensures
        r == eq_ignore_ascii_case(a@, b@),
{
    ascii_lowercase(a) == ascii_lowercase(b)
}

/// Check an upgrade response: the status code must announce a protocol
/// switch, the upgrade and connection headers must name a websocket
/// upgrade (case-insensitively), the accept header must equal the key
/// the transport derived from its nonce, and the server must confirm the
/// channel subprotocol. `Ok` exactly when all five hold; the error names
/// the first check that failed.
pub fn verify_upgrade_response(
    code: u16,
    upgrade: Option<&str>,
    connection: Option<&str>,
    accept: Option<&str>,
    expected_accept: &str,
    protocol: Option<&str>,
) -> (r: Result<(), UpgradeError>)
    ensures
        r is Ok <==> {
            &&& code == 101
            &&& header_matches(
                match upgrade {
                    Some(u) => Some(u@),
                    None => None,
                },
                "websocket"@,
            )
            &&& header_matches(
                match connection {
                    Some(c) => Some(c@),
                    None => None,
                },
                "Upgrade"@,
            )
            &&& (accept matches Some(a) && a@ == expected_accept@)
            &&& (protocol matches Some(p) && p@ == channel_protocol())
        },
        r matches Err(e) ==> match e {
            UpgradeError::ProtocolSwitch(c) => c == code && code != 101,
            UpgradeError::MissingUpgradeWebSocketHeader => code == 101 && !header_matches(
                match upgrade {
                    Some(u) => Some(u@),
                    None => None,
                },
                "websocket"@,
            ),
            UpgradeError::MissingConnectionUpgradeHeader => code == 101 && !header_matches(
                match connection {
                    Some(c) => Some(c@),
                    None => None,
                },
                "Upgrade"@,
            ),
            UpgradeError::SecWebSocketAcceptKeyMismatch => code == 101 && !(accept matches Some(a)
                && a@ == expected_accept@),
            UpgradeError::SecWebSocketProtocolMismatch => code == 101 && !(protocol matches Some(p)
                && p@ == channel_protocol()),
        },
{
    if code != 101 {
        return Err(UpgradeError::ProtocolSwitch(code));
    }
    let upgrade_ok = match upgrade {
        Some(u) => str_eq_ignore_ascii_case(u, "websocket"),
        None => false,
    };
    if !upgrade_ok {
        return Err(UpgradeError::MissingUpgradeWebSocketHeader);
    }
    let connection_ok = match connection {
        Some(c) => str_eq_ignore_ascii_case(c, "Upgrade"),
        None => false,
    };
    if !connection_ok {
        return Err(UpgradeError::MissingConnectionUpgradeHeader);
    }
    let accept_ok = match accept {
        Some(a) => a.to_owned() == expected_accept.to_owned(),
        None => false,
    };
    if !accept_ok {
        return Err(UpgradeError::SecWebSocketAcceptKeyMismatch);
    }
    let protocol_ok = match protocol {
        Some(p) => p.to_owned() == String::from_str("v4.channel.k8s.io"),
        None => false,
    };
    if !protocol_ok {
        return Err(UpgradeError::SecWebSocketProtocolMismatch);
    }
    Ok(())
}

} // verus!
