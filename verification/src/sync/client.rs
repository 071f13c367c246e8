//! The addresses a baby device calls on the giver.
use vstd::prelude::*;
use vstd::string::*;
use crate::sync::discovery::PeerInfo;
use crate::text::{append_text, decimal, decimal_of};

verus! {

/// Whether byte `b` is left as it is by URL encoding: an ASCII letter or digit, or one of
/// `-`, `.`, `_`, `~`.
pub open spec fn url_unreserved(b: u8) -> bool {
    (48 <= b <= 57) || (65 <= b <= 90) || (97 <= b <= 122) || b == 45 || b == 46 || b == 95 || b
        == 126
}

/// The upper-case hexadecimal digit for `d` (below 16).
pub open spec fn hex_digit(d: int) -> char {
    if d < 10 {
        (48 + d) as char
    } else {
        (55 + d) as char
    }
}

/// The URL encoding of the bytes: unreserved bytes as they are, every other byte as `%`
/// and two upper-case hexadecimal digits.
pub open spec fn percent_encoded(bytes: Seq<u8>) -> Seq<char>
    decreases bytes.len(),
{
    if bytes.len() == 0 {
        Seq::empty()
    } else {
        let b = bytes.last();
        percent_encoded(bytes.drop_last()) + if url_unreserved(b) {
            seq![b as char]
        } else {
            seq!['%', hex_digit(b as int / 16), hex_digit(b as int % 16)]
        }
    }
}

/// urlencoding's `encode`: percent-encodes every byte of the UTF-8 text except ASCII
/// letters, digits and `-`, `_`, `.`, `~` (as its documentation and source state).
#[verifier::external_body]
fn url_encode(s: &str) -> (r: String)
    ensures
        r@ == percent_encoded(s.spec_bytes()),
{
    urlencoding::encode(s).into_owned()
}

/// The base address of a peer: `http://<ip>:<port>`.
pub fn base_url(peer: &PeerInfo) -> (s: String)
    ensures
        s@ == "http://"@ + peer.ip@ + ":"@ + decimal(peer.port as int),
{
    let mut s = "http://".to_owned();
    append_text(&mut s, peer.ip.as_str());
    append_text(&mut s, ":");
    append_text(&mut s, decimal_of(peer.port as i64).as_str());
    s
}

/// The address of the handshake.
pub fn handshake_url(base: &str) -> (s: String)
    ensures
        s@ == base@ + "/sync/handshake"@,
{
    let mut s = base.to_owned();
    append_text(&mut s, "/sync/handshake");
    s
}

/// The address changes are pushed to.
pub fn push_url(base: &str) -> (s: String)
    ensures
        s@ == base@ + "/sync/push"@,
{
    let mut s = base.to_owned();
    append_text(&mut s, "/sync/push");
    s
}

/// The address changes are pulled from, asking for those after `since` when given.
pub fn pull_url(base: &str, since: Option<&str>) -> (s: String)
    ensures
        since is None ==> s@ == base@ + "/sync/pull"@,
        since matches Some(t) ==> s@ == base@ + "/sync/pull"@ + "?since="@ + percent_encoded(
            t.spec_bytes(),
        ),
{
    let mut s = base.to_owned();
    append_text(&mut s, "/sync/pull");
    if let Some(t) = since {
        append_text(&mut s, "?since=");
        append_text(&mut s, url_encode(t).as_str());
    }
    s
}

} // verus!
