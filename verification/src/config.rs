//! The settings of the daemon, and the address of the store that they name.

use vstd::prelude::*;
use vstd::string::*;
use crate::clients::{open_client, store_error_text, store_url_accepted};
use crate::failure::{Failure, FailureKind};
use crate::text::{join, starts_with};

verus! {

/// The pause between two polls of the store, in milliseconds, where the
/// settings name none.
pub const DEFAULT_REDIS_POLL_INTERVAL: u64 = 5000;

/// The settings as they are written down: the pause may be left out.
#[derive(Debug, PartialEq, Eq)]
pub struct ConfigFile {
    pub cf_token: String,
    pub zone_name: String,
    pub record_name: String,
    pub redis_host: String,
    pub redis_key: String,
    pub redis_poll_interval: Option<u64>,
}

/// A `ConfigFile` as a mathematical value.
pub struct ConfigFileView {
    pub cf_token: Seq<char>,
    pub zone_name: Seq<char>,
    pub record_name: Seq<char>,
    pub redis_host: Seq<char>,
    pub redis_key: Seq<char>,
    pub redis_poll_interval: Option<u64>,
}

impl View for ConfigFile {
    type V = ConfigFileView;

    open spec fn view(&self) -> ConfigFileView {
        ConfigFileView {
            cf_token: self.cf_token@,
            zone_name: self.zone_name@,
            record_name: self.record_name@,
            redis_host: self.redis_host@,
            redis_key: self.redis_key@,
            redis_poll_interval: self.redis_poll_interval,
        }
    }
}

/// The settings that the daemon runs on.
#[derive(Debug, PartialEq, Eq)]
pub struct Config {
    pub cf_token: String,
    pub zone_name: String,
    pub record_name: String,
    pub redis_host: String,
    pub redis_key: String,
    pub redis_poll_interval: u64,
}

/// A `Config` as a mathematical value.
pub struct ConfigView {
    pub cf_token: Seq<char>,
    pub zone_name: Seq<char>,
    pub record_name: Seq<char>,
    pub redis_host: Seq<char>,
    pub redis_key: Seq<char>,
    pub redis_poll_interval: u64,
}

impl View for Config {
    type V = ConfigView;

    open spec fn view(&self) -> ConfigView {
        ConfigView {
            cf_token: self.cf_token@,
            zone_name: self.zone_name@,
            record_name: self.record_name@,
            redis_host: self.redis_host@,
            redis_key: self.redis_key@,
            redis_poll_interval: self.redis_poll_interval,
        }
    }
}

impl Clone for Config {
    fn clone(&self) -> (copy: Self)
        ensures
            copy@ == self@,
    {
        Config {
            cf_token: self.cf_token.clone(),
            zone_name: self.zone_name.clone(),
            record_name: self.record_name.clone(),
            redis_host: self.redis_host.clone(),
            redis_key: self.redis_key.clone(),
            redis_poll_interval: self.redis_poll_interval,
        }
    }
}

/// The settings that `file` stands for: its own, with the default pause
/// where it names none.
pub open spec fn completed(file: ConfigFileView) -> ConfigView {
    ConfigView {
        cf_token: file.cf_token,
        zone_name: file.zone_name,
        record_name: file.record_name,
        redis_host: file.redis_host,
        redis_key: file.redis_key,
        redis_poll_interval: match file.redis_poll_interval {
            Some(millis) => millis,
            None => DEFAULT_REDIS_POLL_INTERVAL,
        },
    }
}

/// The connection URL of the store at `host`: `host` itself where it
/// already is such a URL, else `host` behind the scheme.
pub open spec fn store_address(host: Seq<char>) -> Seq<char> {
    if "redis://"@.is_prefix_of(host) {
        host
    } else {
        "redis://"@ + host
    }
}

impl Config {
    /// The settings that the contents of a settings file stand for.
    pub fn from_file(file: ConfigFile) -> (config: Config)
        ensures
            config@ == completed(file@),
    {
        Config {
            cf_token: file.cf_token,
            zone_name: file.zone_name,
            record_name: file.record_name,
            redis_host: file.redis_host,
            redis_key: file.redis_key,
            redis_poll_interval: match file.redis_poll_interval {
                Some(millis) => millis,
                None => DEFAULT_REDIS_POLL_INTERVAL,
            },
        }
    }

    /// The connection URL of the store.
    pub fn redis_url(&self) -> (url: String)
        ensures
            url@ == store_address(self@.redis_host),
    {
        store_url(self.redis_host.as_str())
    }
}

/// The connection URL of the store at `host`.
pub fn store_url(host: &str) -> (url: String)
    ensures
        url@ == store_address(host@),
{
    if starts_with(host, "redis://") {
        host.to_owned()
    } else {
        join("redis://", host)
    }
}

/// The client for the store at `host`, which opens no connection yet.
///
/// The URL handed to the parser is `store_address(host)`. There is a
/// client exactly when the parser takes that URL; its refusal is a failure
/// of the settings.
pub fn open_store(host: &str) -> (opened: Result<redis::Client, Failure>)
    ensures
        opened is Ok <==> store_url_accepted(store_address(host@)),
        opened is Err ==> opened->Err_0@.kind == FailureKind::Config,
{
    let url = store_url(host);
    proof {
        lemma_store_address_settles(host@);
    }
    store_access(open_client(url.as_str()))
}

/// The client that the parser of connection URLs returned, or the failure
/// of the settings that its refusal means.
pub fn store_access(parsed: Result<redis::Client, redis::RedisError>) -> (opened: Result<
    redis::Client,
    Failure,
>)
    ensures
        opened is Ok <==> parsed is Ok,
        opened is Ok ==> opened->Ok_0 == parsed->Ok_0,
        opened is Err ==> opened->Err_0@.kind == FailureKind::Config,
{
    match parsed {
        Ok(client) => Ok(client),
        Err(refused) => Err(Failure::new(FailureKind::Config, store_error_text(&refused))),
    }
}

/// A connection URL stands for itself: giving the scheme twice adds nothing.
pub proof fn lemma_store_address_settles(host: Seq<char>)
    ensures
        "redis://"@.is_prefix_of(store_address(host)),
        store_address(store_address(host)) == store_address(host),
{
    let scheme = "redis://"@;
    if !scheme.is_prefix_of(host) {
        assert((scheme + host).subrange(0, scheme.len() as int) =~= scheme);
    }
}

} // verus!
