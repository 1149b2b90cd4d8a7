//! Addresses of the hub.

use crate::text::join;
use vstd::prelude::*;

verus! {

/// The address to go to instead of an unencrypted one: the same host and path, over
/// HTTPS. A request without a host means the hub's own, one without a path its front
/// page.
pub fn https_url(host: Option<String>, path: Option<String>) -> (r: String)
    ensures
        r@ == "https://"@ + (match host {
            Some(h) => h@,
            None => "airlink.y4z.dev"@,
        }) + (match path {
            Some(p) => p@,
            None => "/"@,
        }),
{
    let host: String = match host {
        Some(h) => h,
        None => "airlink.y4z.dev".to_owned(),
    };
    let path: String = match path {
        Some(p) => p,
        None => "/".to_owned(),
    };
    let site: String = join("https://", host.as_str());
    join(site.as_str(), path.as_str())
}

/// The address of the hub in the local network; that of the machine itself where
/// there is no network.
pub fn local_lan_ip(found: Option<String>) -> (r: String)
    ensures
        r@ == (match found {
            Some(ip) => ip@,
            None => "127.0.0.1"@,
        }),
{
    match found {
        Some(ip) => ip,
        None => "127.0.0.1".to_owned(),
    }
}

} // verus!
