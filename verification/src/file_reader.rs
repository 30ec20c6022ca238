//! Server configuration and the connection addresses built from it.

use vstd::prelude::*;
use vstd::string::*;
use crate::text::{signed_decimal, signed_decimal_string};

verus! {

/// Addresses of the Redis and MongoDB servers and the database name.
pub struct Config {
    pub redis_host: String,
    pub redis_port: i16,
    pub mongo_host: String,
    pub mongo_port: i16,
    pub mongo_db_name: String,
}

/// Credentials for the identity provider.
pub struct FirebaseConfig {
    pub api_key: String,
}

/// The Redis connection URL for `host` and `port`.
pub open spec fn redis_url_spec(host: Seq<char>, port: int) -> Seq<char> {
    "redis://"@ + host + ":"@ + signed_decimal(port) + "/"@
}

/// The MongoDB connection URI for `host` and `port`.
pub open spec fn mongo_uri_spec(host: Seq<char>, port: int) -> Seq<char> {
    "mongodb://"@ + host + ":"@ + signed_decimal(port)
}

/// Builds `redis://{host}:{port}/`.
pub fn redis_url(host: &str, port: i16) -> (url: String)
    ensures
        url@ == redis_url_spec(host@, port as int),
{
    let mut url = String::from_str("redis://");
    url.append(host);
    url.append(":");
    let p = signed_decimal_string(port);
    url.append(p.as_str());
    url.append("/");
    url
}

/// Builds `mongodb://{host}:{port}`.
pub fn mongo_uri(host: &str, port: i16) -> (uri: String)
    ensures
        uri@ == mongo_uri_spec(host@, port as int),
{
    let mut uri = String::from_str("mongodb://");
    uri.append(host);
    uri.append(":");
    let p = signed_decimal_string(port);
    uri.append(p.as_str());
    uri
}

impl Config {
    /// The Redis connection URL of this configuration.
    pub fn redis_url(&self) -> (url: String)
        ensures
            url@ == redis_url_spec(self.redis_host@, self.redis_port as int),
    {
        redis_url(self.redis_host.as_str(), self.redis_port)
    }

    /// The MongoDB connection URI of this configuration.
    pub fn mongo_uri(&self) -> (uri: String)
        ensures
            uri@ == mongo_uri_spec(self.mongo_host@, self.mongo_port as int),
    {
        mongo_uri(self.mongo_host.as_str(), self.mongo_port)
    }
}

/// The Redis URL is `redis://`, the host unchanged, `:`, the port in
/// decimal (as `signed_decimal` renders it) and `/`.
pub proof fn law_redis_url_parts(host: Seq<char>, port: int)
    ensures
        redis_url_spec(host, port).take(8) == "redis://"@,
        redis_url_spec(host, port).subrange(8, 8 + host.len() as int) == host,
        redis_url_spec(host, port)[8 + host.len() as int] == ':',
        redis_url_spec(host, port).subrange(
            9 + host.len() as int,
            9 + host.len() + signed_decimal(port).len() as int,
        ) == signed_decimal(port),
        redis_url_spec(host, port).len() == 10 + host.len() + signed_decimal(port).len(),
        redis_url_spec(host, port).last() == '/',
{
    reveal_strlit("redis://");
    reveal_strlit(":");
    reveal_strlit("/");
    assert("redis://"@.len() == 8);
    assert(":"@.len() == 1);
    assert("/"@.len() == 1);
    let u = redis_url_spec(host, port);
    let p = signed_decimal(port);
    assert(u == "redis://"@ + host + ":"@ + p + "/"@);
    assert(u.take(8) =~= "redis://"@);
    assert(u.subrange(8, 8 + host.len() as int) =~= host);
    assert(u[8 + host.len() as int] == ":"@[0]);
    assert(u.subrange(9 + host.len() as int, 9 + host.len() + p.len() as int) =~= p);
    assert(u.last() == "/"@[0]);
}

/// The MongoDB URI is `mongodb://`, the host unchanged, `:` and the port
/// in decimal (as `signed_decimal` renders it).
pub proof fn law_mongo_uri_parts(host: Seq<char>, port: int)
    ensures
        mongo_uri_spec(host, port).take(10) == "mongodb://"@,
        mongo_uri_spec(host, port).subrange(10, 10 + host.len() as int) == host,
        mongo_uri_spec(host, port)[10 + host.len() as int] == ':',
        mongo_uri_spec(host, port).skip(11 + host.len() as int) == signed_decimal(port),
{
    reveal_strlit("mongodb://");
    reveal_strlit(":");
    assert("mongodb://"@.len() == 10);
    assert(":"@.len() == 1);
    let u = mongo_uri_spec(host, port);
    let p = signed_decimal(port);
    assert(u == "mongodb://"@ + host + ":"@ + p);
    assert(u.take(10) =~= "mongodb://"@);
    assert(u.subrange(10, 10 + host.len() as int) =~= host);
    assert(u[10 + host.len() as int] == ":"@[0]);
    assert(u.skip(11 + host.len() as int) =~= p);
}

} // verus!
