//! The compute side of the store connections: how the key/value store's
//! connection URL is put together. Opening the connections themselves is
//! the runtime's work.

use vstd::prelude::*;
use crate::environment::RedisSection;
use crate::text::spec_usize_numeral;
use crate::text::usize_to_string;

verus! {

/// An account row of the user store. The runtime fills it from and writes
/// it to the relational store.
#[derive(Debug, Clone)]
pub struct User {
    pub id: Option<u32>,
    pub email: String,
    pub username: String,
    pub password: Option<String>,
    pub created_at: String,
}

/// An optional string's text, empty when absent.
pub open spec fn opt_text(o: Option<String>) -> Seq<char> {
    match o {
        Some(s) => s@,
        None => Seq::empty(),
    }
}

/// The key/value store's connection URL: scheme, credentials, host, port
/// and database name, in the client's expected shape.
pub open spec fn spec_redis_url(section: RedisSection, db: Seq<char>) -> Seq<char> {
    (if section.use_tls {
        "rediss"@
    } else {
        "redis"@
    }) + "://"@ + opt_text(section.username) + ":"@ + opt_text(section.password) + "@"@
        + section.host@ + ":"@ + spec_usize_numeral(section.port as nat) + "/"@ + db
}

pub fn redis_connection_url(section: &RedisSection, db: &str) -> (r: String)
    ensures
        r@ == spec_redis_url(*section, db@),
{
    let mut url = if section.use_tls {
        "rediss".to_owned()
    } else {
        "redis".to_owned()
    };
    url.append("://");
    match &section.username {
        Some(u) => url.append(u.as_str()),
        None => (),
    }
    url.append(":");
    match &section.password {
        Some(p) => url.append(p.as_str()),
        None => (),
    }
    url.append("@");
    url.append(section.host.as_str());
    url.append(":");
    let port = usize_to_string(section.port as usize);
    url.append(port.as_str());
    url.append("/");
    url.append(db);
    proof {
        assert(url@ =~= spec_redis_url(*section, db@));
    }
    url
}

} // verus!
