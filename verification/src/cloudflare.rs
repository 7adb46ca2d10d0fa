//! The record API: what it holds, how a request to it is addressed, and
//! how its replies are read.
//!
//! Every operation of the API is split in two around the exchange itself:
//! a function that gives the address to ask, and a function that reads
//! what came back. The exchange lies between the two calls and is made by
//! the caller, with the client that `Cloudflare::client` hands out.

use vstd::prelude::*;
use vstd::string::*;
use crate::clients::{build_client, header_text, header_value, http_error_text,
    invalid_header_text, set_sensitive};
use crate::failure::{Failure, FailureKind, FailureView};
use crate::text::{join, same_text};

verus! {

/// A zone, as the API lists it.
#[derive(Debug, PartialEq, Eq)]
pub struct Zone {
    pub id: String,
    pub name: String,
}

/// A `Zone` as a mathematical value.
pub struct ZoneView {
    pub id: Seq<char>,
    pub name: Seq<char>,
}

impl View for Zone {
    type V = ZoneView;

    open spec fn view(&self) -> ZoneView {
        ZoneView { id: self.id@, name: self.name@ }
    }
}

/// One DNS record, as the API lists it and takes it back.
#[derive(Debug, PartialEq, Eq)]
pub struct DnsRecord {
    pub id: String,
    pub name: String,
    pub record_type: String,
    pub content: String,
    pub proxied: bool,
    pub ttl: isize,
}

/// A `DnsRecord` as a mathematical value.
pub struct DnsRecordView {
    pub id: Seq<char>,
    pub name: Seq<char>,
    pub record_type: Seq<char>,
    pub content: Seq<char>,
    pub proxied: bool,
    pub ttl: int,
}

impl DnsRecordView {
    /// The same record with `content` in place of its content.
    pub open spec fn with_content(self, content: Seq<char>) -> DnsRecordView {
        DnsRecordView { content, ..self }
    }
}

impl View for DnsRecord {
    type V = DnsRecordView;

    open spec fn view(&self) -> DnsRecordView {
        DnsRecordView {
            id: self.id@,
            name: self.name@,
            record_type: self.record_type@,
            content: self.content@,
            proxied: self.proxied,
            ttl: self.ttl as int,
        }
    }
}

impl Clone for DnsRecord {
    fn clone(&self) -> (copy: Self)
        ensures
            copy@ == self@,
    {
        DnsRecord {
            id: self.id.clone(),
            name: self.name.clone(),
            record_type: self.record_type.clone(),
            content: self.content.clone(),
            proxied: self.proxied,
            ttl: self.ttl,
        }
    }
}

/// The zones of a list, each as a mathematical value.
pub open spec fn zone_views(zones: Seq<Zone>) -> Seq<ZoneView> {
    zones.map_values(|zone: Zone| zone@)
}

/// The records of a list, each as a mathematical value.
pub open spec fn record_views(records: Seq<DnsRecord>) -> Seq<DnsRecordView> {
    records.map_values(|record: DnsRecord| record@)
}

/// The answer to a request that lists zones.
#[derive(Debug, PartialEq, Eq)]
pub struct ZonesResponse {
    pub success: bool,
    pub result: Option<Vec<Zone>>,
}

/// A `ZonesResponse` as a mathematical value.
pub struct ZonesResponseView {
    pub success: bool,
    pub result: Option<Seq<ZoneView>>,
}

impl View for ZonesResponse {
    type V = ZonesResponseView;

    open spec fn view(&self) -> ZonesResponseView {
        ZonesResponseView {
            success: self.success,
            result: match self.result {
                Some(zones) => Some(zone_views(zones@)),
                None => None,
            },
        }
    }
}

/// The answer to a request that lists records.
#[derive(Debug, PartialEq, Eq)]
pub struct DnsRecordsResponse {
    pub success: bool,
    pub result: Option<Vec<DnsRecord>>,
}

/// A `DnsRecordsResponse` as a mathematical value.
pub struct DnsRecordsResponseView {
    pub success: bool,
    pub result: Option<Seq<DnsRecordView>>,
}

impl View for DnsRecordsResponse {
    type V = DnsRecordsResponseView;

    open spec fn view(&self) -> DnsRecordsResponseView {
        DnsRecordsResponseView {
            success: self.success,
            result: match self.result {
                Some(records) => Some(record_views(records@)),
                None => None,
            },
        }
    }
}

/// The answer to a request that changes a record.
#[derive(Clone, Copy, Debug, PartialEq, Eq, Structural)]
pub struct BasicResponse {
    pub success: bool,
}


/// The address that lists the zones named `zone_name`.
pub open spec fn zones_address(zone_name: Seq<char>) -> Seq<char> {
    "https://api.cloudflare.com/client/v4/zones?name="@ + zone_name
}

/// The address that lists the records of the zone `zone_id`: all of them,
/// or those named `name`.
pub open spec fn records_address(zone_id: Seq<char>, name: Option<Seq<char>>) -> Seq<char> {
    let all = "https://api.cloudflare.com/client/v4/zones/"@ + zone_id + "/dns_records"@;
    match name {
        Some(name) => all + "?name="@ + name,
        None => all,
    }
}

/// The address of the record `record_id` in the zone `zone_id`.
pub open spec fn record_address(zone_id: Seq<char>, record_id: Seq<char>) -> Seq<char> {
    "https://api.cloudflare.com/client/v4/zones/"@ + zone_id + "/dns_records/"@ + record_id
}

/// The value of the authorization header for the credential `token`.
pub open spec fn bearer(token: Seq<char>) -> Seq<char> {
    "Bearer "@ + token
}

/// A reply that reports no usable answer, with the transport's own words.
pub open spec fn transport_failure(text: Seq<char>) -> FailureView {
    FailureView { kind: FailureKind::Transport, message: text }
}

/// Whether a reply to a zone listing can be read at all: one that claims
/// success must carry a list, and the first zone of that list must bear
/// the name that was asked for.
pub open spec fn zones_reply_sound(
    zone_name: Seq<char>,
    reply: Result<ZonesResponseView, Seq<char>>,
) -> bool {
    reply matches Ok(response) ==> (response.success ==> {
        &&& response.result is Some
        &&& response.result->0.len() > 0 ==> response.result->0[0].name == zone_name
    })
}

/// What a reply to a zone listing means: the identifier of the first zone,
/// or the failure to report.
pub open spec fn zone_lookup(
    zone_name: Seq<char>,
    reply: Result<ZonesResponseView, Seq<char>>,
) -> Result<Seq<char>, FailureView> {
    match reply {
        Err(text) => Err(transport_failure(text)),
        Ok(response) => if !response.success {
            Err(FailureView { kind: FailureKind::Remote, message: "Failed to list zones"@ })
        } else if response.result->0.len() == 0 {
            Err(
                FailureView {
                    kind: FailureKind::NotFound,
                    message: "Failed to find zone "@ + zone_name,
                },
            )
        } else {
            Ok(response.result->0[0].id)
        },
    }
}

/// Whether a reply to a record listing can be read at all: one that claims
/// success must carry a list.
pub open spec fn records_reply_sound(reply: Result<DnsRecordsResponseView, Seq<char>>) -> bool {
    reply matches Ok(response) ==> (response.success ==> response.result is Some)
}

/// What a reply to a record listing means: the records, or the failure to
/// report.
pub open spec fn records_listing(reply: Result<DnsRecordsResponseView, Seq<char>>) -> Result<
    Seq<DnsRecordView>,
    FailureView,
> {
    match reply {
        Err(text) => Err(transport_failure(text)),
        Ok(response) => if !response.success {
            Err(FailureView { kind: FailureKind::Remote, message: "Failed to list DNS records"@ })
        } else {
            Ok(response.result->0)
        },
    }
}

/// What a reply to the change of the record named `record_name` means.
pub open spec fn patch_outcome(
    record_name: Seq<char>,
    reply: Result<BasicResponse, Seq<char>>,
) -> Result<(), FailureView> {
    match reply {
        Err(text) => Err(transport_failure(text)),
        Ok(response) => if !response.success {
            Err(
                FailureView {
                    kind: FailureKind::Remote,
                    message: "Failed to patch DNS record '"@ + record_name + "'"@,
                },
            )
        } else {
            Ok(())
        },
    }
}

/// A reply to a zone listing as a mathematical value.
pub open spec fn zones_reply_view(reply: Result<ZonesResponse, String>) -> Result<
    ZonesResponseView,
    Seq<char>,
> {
    match reply {
        Ok(response) => Ok(response@),
        Err(text) => Err(text@),
    }
}

/// A reply to a record listing as a mathematical value.
pub open spec fn records_reply_view(reply: Result<DnsRecordsResponse, String>) -> Result<
    DnsRecordsResponseView,
    Seq<char>,
> {
    match reply {
        Ok(response) => Ok(response@),
        Err(text) => Err(text@),
    }
}

/// A reply to a change as a mathematical value.
pub open spec fn patch_reply_view(reply: Result<BasicResponse, String>) -> Result<
    BasicResponse,
    Seq<char>,
> {
    match reply {
        Ok(response) => Ok(response),
        Err(text) => Err(text@),
    }
}

/// The failure inside a result, as a mathematical value.
pub open spec fn failure_of<T>(result: Result<T, Failure>) -> FailureView {
    result->Err_0@
}

/// The access to the record API: the client that sends the credential with
/// every request, and the text of the header it sends.
#[derive(Debug)]
pub struct Cloudflare {
    authorization: String,
    client: reqwest::Client,
}

impl Cloudflare {
    /// The value of the authorization header.
    pub closed spec fn authorization_text(&self) -> Seq<char> {
        self.authorization@
    }

    /// The client that the access makes its exchanges with.
    pub closed spec fn http_client(&self) -> reqwest::Client {
        self.client
    }

    /// The access for the credential `token`.
    ///
    /// A credential that cannot stand in a header is refused. For one that
    /// can, the client is built, and whether that succeeds is for the
    /// machine's TLS backend to say: `assemble` tells what is returned then.
    pub fn new(token: &str) -> (made: Result<Cloudflare, Failure>)
        ensures
            !header_text(token@) ==> made is Err && failure_of(made) == (FailureView {
                kind: FailureKind::Config,
                message: "failed to parse header value"@,
            }),
            made is Ok ==> made->Ok_0.authorization_text() == bearer(token@),
            made is Err ==> failure_of(made).kind == FailureKind::Config,
    {
        let authorization = join("Bearer ", token);
        proof {
            lemma_bearer_header_text(token@);
        }
        match header_value(authorization.as_str()) {
            Err(refused) => Err(Failure::new(FailureKind::Config, invalid_header_text(&refused))),
            Ok(value) => {
                let mut value = value;
                set_sensitive(&mut value, true);
                Cloudflare::assemble(authorization, build_client(value))
            },
        }
    }

    /// The access that sends `authorization`, from the attempt to build
    /// its client: the access if a client was built, a failure of the
    /// settings if not.
    pub fn assemble(authorization: String, built: Result<reqwest::Client, reqwest::Error>) -> (made:
        Result<Cloudflare, Failure>)
        ensures
            made is Ok <==> built is Ok,
            made is Ok ==> made->Ok_0.authorization_text() == authorization@,
            made is Ok ==> made->Ok_0.http_client() == built->Ok_0,
            made is Err ==> failure_of(made).kind == FailureKind::Config,
    {
        match built {
            Ok(client) => Ok(Cloudflare { authorization, client }),
            Err(refused) => Err(Failure::new(FailureKind::Config, http_error_text(&refused))),
        }
    }

    /// The value of the authorization header.
    pub fn authorization(&self) -> (text: &str)
        ensures
            text@ == self.authorization_text(),
    {
        self.authorization.as_str()
    }

    /// The client to make the exchanges with: the one that the access
    /// was assembled with.
    pub fn client(&self) -> (client: &reqwest::Client)
        ensures
            *client == self.http_client(),
    {
        &self.client
    }

    /// The address to ask for the zones named `zone_name`.
    pub fn zones_url(&self, zone_name: &str) -> (url: String)
        ensures
            url@ == zones_address(zone_name@),
    {
        join("https://api.cloudflare.com/client/v4/zones?name=", zone_name)
    }

    /// Reads the reply to a listing of the zones named `zone_name`: the
    /// identifier of the first zone listed.
    ///
    /// A reply that did not arrive is a transport failure, one that reports
    /// no success a remote failure, and an empty list means that the zone
    /// does not exist.
    pub fn zone_id(&self, zone_name: &str, reply: Result<ZonesResponse, String>) -> (found: Result<
        String,
        Failure,
    >)
        requires
            zones_reply_sound(zone_name@, zones_reply_view(reply)),
        ensures
            text_result_view(found) == zone_lookup(zone_name@, zones_reply_view(reply)),
    {
        let response = match reply {
            Ok(response) => response,
            Err(text) => {
                return Err(Failure::new(FailureKind::Transport, text));
            },
        };
        if !response.success {
            return Err(Failure::new(FailureKind::Remote, "Failed to list zones".to_owned()));
        }
        let mut zones = response.result.unwrap();
        if zones.is_empty() {
            return Err(
                Failure::new(FailureKind::NotFound, join("Failed to find zone ", zone_name)),
            );
        }
        let zone = zones.remove(0);
        Ok(zone.id)
    }

    /// Tells whether `zone_id` can read `reply` for the zone `zone_name`.
    pub fn zones_reply_is_sound(zone_name: &str, reply: &Result<ZonesResponse, String>) -> (sound:
        bool)
        ensures
            sound == zones_reply_sound(zone_name@, zones_reply_view(*reply)),
    {
        match reply {
            Err(_) => true,
            Ok(response) => {
                if !response.success {
                    true
                } else {
                    match &response.result {
                        None => false,
                        Some(zones) => {
                            if zones.len() == 0 {
                                true
                            } else {
                                same_text(zones[0].name.as_str(), zone_name)
                            }
                        },
                    }
                }
            },
        }
    }

    /// The address to ask for the records of the zone `zone_id`: all of
    /// them, or those named `name`.
    pub fn records_url(&self, zone_id: &str, name: Option<&str>) -> (url: String)
        ensures
            url@ == records_address(
                zone_id@,
                match name {
                    Some(name) => Some(name@),
                    None => None,
                },
            ),
    {
        let mut url = join("https://api.cloudflare.com/client/v4/zones/", zone_id);
        url.append("/dns_records");
        if let Some(name) = name {
            url.append("?name=");
            url.append(name);
        }
        url
    }

    /// Reads the reply to a listing of records: the records, which may be
    /// none.
    pub fn list_records(&self, reply: Result<DnsRecordsResponse, String>) -> (listed: Result<
        Vec<DnsRecord>,
        Failure,
    >)
        requires
            records_reply_sound(records_reply_view(reply)),
        ensures
            records_result_view(listed) == records_listing(records_reply_view(reply)),
    {
        let response = match reply {
            Ok(response) => response,
            Err(text) => {
                return Err(Failure::new(FailureKind::Transport, text));
            },
        };
        if !response.success {
            return Err(Failure::new(FailureKind::Remote, "Failed to list DNS records".to_owned()));
        }
        Ok(response.result.unwrap())
    }

    /// Tells whether `list_records` can read `reply`.
    pub fn records_reply_is_sound(reply: &Result<DnsRecordsResponse, String>) -> (sound: bool)
        ensures
            sound == records_reply_sound(records_reply_view(*reply)),
    {
        match reply {
            Err(_) => true,
            Ok(response) => !response.success || response.result.is_some(),
        }
    }

    /// The address at which `record` of the zone `zone_id` is changed.
    pub fn record_url(&self, zone_id: &str, record: &DnsRecord) -> (url: String)
        ensures
            url@ == record_address(zone_id@, record@.id),
    {
        let mut url = join("https://api.cloudflare.com/client/v4/zones/", zone_id);
        url.append("/dns_records/");
        url.append(record.id.as_str());
        url
    }

    /// Reads the reply to the change of `record`.
    pub fn patch_record(&self, record: &DnsRecord, reply: Result<BasicResponse, String>) -> (done:
        Result<(), Failure>)
        ensures
            unit_result_view(done) == patch_outcome(record@.name, patch_reply_view(reply)),
    {
        let response = match reply {
            Ok(response) => response,
            Err(text) => {
                return Err(Failure::new(FailureKind::Transport, text));
            },
        };
        if !response.success {
            let mut message = join("Failed to patch DNS record '", record.name.as_str());
            message.append("'");
            return Err(Failure::new(FailureKind::Remote, message));
        }
        Ok(())
    }
}

/// The result of reading a text, as a mathematical value.
pub open spec fn text_result_view(result: Result<String, Failure>) -> Result<
    Seq<char>,
    FailureView,
> {
    match result {
        Ok(text) => Ok(text@),
        Err(failure) => Err(failure@),
    }
}

/// The result of reading a list of records, as a mathematical value.
pub open spec fn records_result_view(result: Result<Vec<DnsRecord>, Failure>) -> Result<
    Seq<DnsRecordView>,
    FailureView,
> {
    match result {
        Ok(records) => Ok(record_views(records@)),
        Err(failure) => Err(failure@),
    }
}

/// The result of an operation that returns nothing, as a mathematical value.
pub open spec fn unit_result_view(result: Result<(), Failure>) -> Result<(), FailureView> {
    match result {
        Ok(_) => Ok(()),
        Err(failure) => Err(failure@),
    }
}

/// The header for a credential is acceptable exactly when the credential is.
pub proof fn lemma_bearer_header_text(token: Seq<char>)
    ensures
        header_text(bearer(token)) <==> header_text(token),
{
    reveal_strlit("Bearer ");
    let whole = bearer(token);
    if header_text(token) {
        assert forall|i: int| 0 <= i < whole.len() implies crate::clients::header_char(
            #[trigger] whole[i],
        ) by {
            if i >= 7 {
                assert(whole[i] == token[i - 7]);
            }
        }
    }
    if header_text(whole) {
        assert forall|i: int| 0 <= i < token.len() implies crate::clients::header_char(
            #[trigger] token[i],
        ) by {
            assert(whole[i + 7] == token[i]);
        }
    }
}

} // verus!
