//! What the network hooks send: the game's requests and responses are
//! posted to the notifier while notifications are enabled.
use vstd::prelude::*;
use crate::config::Config;

verus! {

/// Which side of the game's traffic a payload is.
#[derive(Clone, Copy, PartialEq, Eq, Structural, Debug)]
pub enum Direction {
    /// A request before it is compressed and sent.
    Request,
    /// A response after it was received and decompressed.
    Response,
}

/// The path that payloads of `direction` are posted to.
pub open spec fn endpoint_path(direction: Direction) -> Seq<char> {
    match direction {
        Direction::Request => "/notify/request"@,
        Direction::Response => "/notify/response"@,
    }
}

/// The URL on the notifier at `host` for payloads of `direction`.
pub fn endpoint(host: &str, direction: Direction) -> (url: String)
    ensures
        url@ == host@ + endpoint_path(direction),
{
    let mut url = String::from_str(host);
    match direction {
        Direction::Request => url.append("/notify/request"),
        Direction::Response => url.append("/notify/response"),
    }
    url
}

/// A payload to post, and where.
pub struct Notification {
    pub url: String,
    pub body: Vec<u8>,
}

/// The post that a hook makes for `body` under `config`: none while
/// notifications are off.
pub fn notification(config: &Config, url: &str, body: Vec<u8>) -> (n: Option<Notification>)
    ensures
        config.enable <==> n.is_some(),
        n matches Some(n) ==> n.url@ == url@ && n.body@ == body@,
{
    if config.enable {
        Some(Notification { url: String::from_str(url), body })
    } else {
        None
    }
}

} // verus!
