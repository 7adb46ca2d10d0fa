//! The reconciliation loop, as a machine.
//!
//! The machine owns the belief: the content that the record was last
//! confirmed to hold. It never performs an operation itself. In every
//! state one operation is outstanding, `pending` names it, and `step`
//! takes its outcome and moves on. Whoever drives the machine performs
//! the operation and hands back what happened, nothing else.

use vstd::prelude::*;
use vstd::string::*;
use crate::cloudflare::{record_address, records_address, records_listing, records_reply_sound,
    records_reply_view, patch_outcome, patch_reply_view, zone_lookup, zones_address,
    zones_reply_sound, zones_reply_view, BasicResponse, Cloudflare, DnsRecord, DnsRecordView,
    DnsRecordsResponse, DnsRecordsResponseView, ZonesResponse, ZonesResponseView};
use crate::clients::header_text;
use crate::config::{store_address, Config, ConfigView};
use crate::failure::{Failure, FailureKind, FailureView};
use crate::text::join;

verus! {

/// What a listing of the records named `record_name` says the record
/// holds: the content of the first record listed.
pub open spec fn current_content(
    record_name: Seq<char>,
    reply: Result<DnsRecordsResponseView, Seq<char>>,
) -> Result<Seq<char>, FailureView> {
    match records_listing(reply) {
        Err(failure) => Err(failure),
        Ok(records) => if records.len() == 0 {
            Err(
                FailureView {
                    kind: FailureKind::NotFound,
                    message: "Failed to find DNS record "@ + record_name,
                },
            )
        } else {
            Ok(records[0].content)
        },
    }
}

/// The record to write so that the record named `record_name` holds
/// `new_ip`: the first record of a fresh listing, with that content and
/// nothing else changed.
pub open spec fn updated_record(
    record_name: Seq<char>,
    new_ip: Seq<char>,
    reply: Result<DnsRecordsResponseView, Seq<char>>,
) -> Result<DnsRecordView, FailureView> {
    match records_listing(reply) {
        Err(failure) => Err(failure),
        Ok(records) => if records.len() == 0 {
            Err(
                FailureView {
                    kind: FailureKind::NotFound,
                    message: "Failed to find record "@ + record_name,
                },
            )
        } else {
            Ok(records[0].with_content(new_ip))
        },
    }
}

/// The result of choosing a record, as a mathematical value.
pub open spec fn record_result_view(result: Result<DnsRecord, Failure>) -> Result<
    DnsRecordView,
    FailureView,
> {
    match result {
        Ok(record) => Ok(record@),
        Err(failure) => Err(failure@),
    }
}

/// Reads from a listing of the records named `record_name` what the
/// record holds now.
pub fn get_current_record_content(
    cf: &Cloudflare,
    record_name: &str,
    reply: Result<DnsRecordsResponse, String>,
) -> (content: Result<String, Failure>)
    requires
        records_reply_sound(records_reply_view(reply)),
    ensures
        crate::cloudflare::text_result_view(content) == current_content(
            record_name@,
            records_reply_view(reply),
        ),
{
    let mut records = match cf.list_records(reply) {
        Ok(records) => records,
        Err(failure) => {
            return Err(failure);
        },
    };
    if records.is_empty() {
        return Err(
            Failure::new(FailureKind::NotFound, join("Failed to find DNS record ", record_name)),
        );
    }
    let record = records.remove(0);
    Ok(record.content)
}

/// Prepares the change of the record named `record_name` to `new_ip` from
/// a fresh listing: the record to send.
pub fn update_record_ip(
    cf: &Cloudflare,
    record_name: &str,
    new_ip: &str,
    reply: Result<DnsRecordsResponse, String>,
) -> (prepared: Result<DnsRecord, Failure>)
    requires
        records_reply_sound(records_reply_view(reply)),
    ensures
        record_result_view(prepared) == updated_record(
            record_name@,
            new_ip@,
            records_reply_view(reply),
        ),
{
    let mut records = match cf.list_records(reply) {
        Ok(records) => records,
        Err(failure) => {
            return Err(failure);
        },
    };
    if records.is_empty() {
        return Err(
            Failure::new(FailureKind::NotFound, join("Failed to find record ", record_name)),
        );
    }
    let mut record = records.remove(0);
    record.content = new_ip.to_owned();
    Ok(record)
}


/// Where the machine stands, as a mathematical value. Each state holds
/// what is known in it and no more.
pub enum State {
    /// The zone is being looked up.
    ResolvingZone,
    /// The zone is known; the connection to the store is being opened.
    Connecting { zone_id: Seq<char> },
    /// The record is being read for the first time.
    ReadingRecord { zone_id: Seq<char> },
    /// The published value is being fetched.
    Polling { zone_id: Seq<char>, belief: Seq<char> },
    /// A value other than the belief was seen; the record is being read
    /// afresh.
    Rereading { zone_id: Seq<char>, belief: Seq<char>, target: Seq<char> },
    /// The record is being written.
    Writing { zone_id: Seq<char>, belief: Seq<char>, record: DnsRecordView },
    /// The cycle is over; the machine waits for the next one.
    Sleeping { zone_id: Seq<char>, belief: Seq<char> },
    /// A fatal failure ended the run.
    Stopped { failure: FailureView },
}

/// What the driver is to do, as a mathematical value.
pub enum ActionView {
    ResolveZone { url: Seq<char> },
    Connect { url: Seq<char> },
    ListRecords { url: Seq<char> },
    PatchRecord { url: Seq<char>, record: DnsRecordView },
    Fetch { key: Seq<char> },
    Sleep { millis: u64 },
    Exit { failure: FailureView },
}

/// What the driver reports, as a mathematical value.
pub enum EventView {
    Zones(Result<ZonesResponseView, Seq<char>>),
    Connected(Result<(), FailureView>),
    Records(Result<DnsRecordsResponseView, Seq<char>>),
    Patched(Result<BasicResponse, Seq<char>>),
    Fetched(Option<Seq<char>>),
    Woke,
}

/// The operation that is outstanding in `state`.
pub open spec fn pending(config: ConfigView, state: State) -> ActionView {
    match state {
        State::ResolvingZone => ActionView::ResolveZone { url: zones_address(config.zone_name) },
        State::Connecting { .. } => ActionView::Connect { url: store_address(config.redis_host) },
        State::ReadingRecord { zone_id } => ActionView::ListRecords {
            url: records_address(zone_id, Some(config.record_name)),
        },
        State::Polling { .. } => ActionView::Fetch { key: config.redis_key },
        State::Rereading { zone_id, .. } => ActionView::ListRecords {
            url: records_address(zone_id, Some(config.record_name)),
        },
        State::Writing { zone_id, record, .. } => ActionView::PatchRecord {
            url: record_address(zone_id, record.id),
            record,
        },
        State::Sleeping { .. } => ActionView::Sleep { millis: config.redis_poll_interval },
        State::Stopped { failure } => ActionView::Exit { failure },
    }
}

/// Whether `event` can be read in `state`: a reply that claims success
/// carries what it claims, and the zone it lists is the one asked for.
pub open spec fn acceptable(config: ConfigView, state: State, event: EventView) -> bool {
    match state {
        State::ResolvingZone => event matches EventView::Zones(reply) ==> zones_reply_sound(
            config.zone_name,
            reply,
        ),
        State::ReadingRecord { .. } => event matches EventView::Records(reply)
            ==> records_reply_sound(reply),
        State::Rereading { .. } => event matches EventView::Records(reply) ==> records_reply_sound(
            reply,
        ),
        _ => true,
    }
}

/// The state that follows `state` when `event` is reported.
///
/// Only the outcome of the outstanding operation moves the machine; any
/// other event leaves it where it is. Before the first poll every failure
/// is fatal. From then on one thing is: a fresh listing that holds no
/// record. A failed fetch, a failed listing and a failed write end the
/// cycle with the belief as it was.
pub open spec fn next(config: ConfigView, state: State, event: EventView) -> State {
    match state {
        State::ResolvingZone => match event {
            EventView::Zones(reply) => match zone_lookup(config.zone_name, reply) {
                Ok(zone_id) => State::Connecting { zone_id },
                Err(failure) => State::Stopped { failure },
            },
            _ => state,
        },
        State::Connecting { zone_id } => match event {
            EventView::Connected(Ok(_)) => State::ReadingRecord { zone_id },
            EventView::Connected(Err(failure)) => State::Stopped { failure },
            _ => state,
        },
        State::ReadingRecord { zone_id } => match event {
            EventView::Records(reply) => match current_content(config.record_name, reply) {
                Ok(content) => State::Polling { zone_id, belief: content },
                Err(failure) => State::Stopped { failure },
            },
            _ => state,
        },
        State::Polling { zone_id, belief } => match event {
            EventView::Fetched(Some(observed)) => if observed == belief {
                State::Sleeping { zone_id, belief }
            } else {
                State::Rereading { zone_id, belief, target: observed }
            },
            EventView::Fetched(None) => State::Sleeping { zone_id, belief },
            _ => state,
        },
        State::Rereading { zone_id, belief, target } => match event {
            EventView::Records(reply) => match updated_record(config.record_name, target, reply) {
                Ok(record) => State::Writing { zone_id, belief, record },
                Err(failure) => if failure.kind == FailureKind::NotFound {
                    State::Stopped { failure }
                } else {
                    State::Sleeping { zone_id, belief }
                },
            },
            _ => state,
        },
        State::Writing { zone_id, belief, record } => match event {
            EventView::Patched(reply) => match patch_outcome(record.name, reply) {
                Ok(_) => State::Sleeping { zone_id, belief: record.content },
                Err(_) => State::Sleeping { zone_id, belief },
            },
            _ => state,
        },
        State::Sleeping { zone_id, belief } => match event {
            EventView::Woke => State::Polling { zone_id, belief },
            _ => state,
        },
        State::Stopped { .. } => state,
    }
}

/// The line to print when `event` is reported in `state`: one when the
/// startup is through, one for each confirmed write.
pub open spec fn notice(config: ConfigView, state: State, event: EventView) -> Option<Seq<char>> {
    match (state, next(config, state, event)) {
        (State::ReadingRecord { .. }, State::Polling { .. }) => Some(
            "Running and connected to redis"@,
        ),
        (State::Writing { record, .. }, State::Sleeping { .. }) => if event matches EventView::Patched(
            reply,
        ) && patch_outcome(record.name, reply) is Ok {
            Some("Updated record "@ + config.record_name + " to "@ + record.content)
        } else {
            None
        },
        _ => None,
    }
}


/// Where the machine stands.
#[derive(Debug, PartialEq, Eq)]
pub enum Phase {
    ResolvingZone,
    Connecting { zone_id: String },
    ReadingRecord { zone_id: String },
    Polling { zone_id: String, belief: String },
    Rereading { zone_id: String, belief: String, target: String },
    Writing { zone_id: String, belief: String, record: DnsRecord },
    Sleeping { zone_id: String, belief: String },
    Stopped { failure: Failure },
}

impl View for Phase {
    type V = State;

    open spec fn view(&self) -> State {
        match self {
            Phase::ResolvingZone => State::ResolvingZone,
            Phase::Connecting { zone_id } => State::Connecting { zone_id: zone_id@ },
            Phase::ReadingRecord { zone_id } => State::ReadingRecord { zone_id: zone_id@ },
            Phase::Polling { zone_id, belief } => State::Polling {
                zone_id: zone_id@,
                belief: belief@,
            },
            Phase::Rereading { zone_id, belief, target } => State::Rereading {
                zone_id: zone_id@,
                belief: belief@,
                target: target@,
            },
            Phase::Writing { zone_id, belief, record } => State::Writing {
                zone_id: zone_id@,
                belief: belief@,
                record: record@,
            },
            Phase::Sleeping { zone_id, belief } => State::Sleeping {
                zone_id: zone_id@,
                belief: belief@,
            },
            Phase::Stopped { failure } => State::Stopped { failure: failure@ },
        }
    }
}

/// What the driver is to do.
#[derive(Debug, PartialEq, Eq)]
pub enum Action {
    /// Ask the record API at `url` for the zone.
    ResolveZone { url: String },
    /// Open the connection to the store at `url`.
    Connect { url: String },
    /// Ask the record API at `url` for the record.
    ListRecords { url: String },
    /// Send `record` to the record API at `url`.
    PatchRecord { url: String, record: DnsRecord },
    /// Fetch the value that the store holds under `key`.
    Fetch { key: String },
    /// Wait for `millis` milliseconds.
    Sleep { millis: u64 },
    /// Report `failure` and end the process with a status other than 0.
    Exit { failure: Failure },
}

impl View for Action {
    type V = ActionView;

    open spec fn view(&self) -> ActionView {
        match self {
            Action::ResolveZone { url } => ActionView::ResolveZone { url: url@ },
            Action::Connect { url } => ActionView::Connect { url: url@ },
            Action::ListRecords { url } => ActionView::ListRecords { url: url@ },
            Action::PatchRecord { url, record } => ActionView::PatchRecord {
                url: url@,
                record: record@,
            },
            Action::Fetch { key } => ActionView::Fetch { key: key@ },
            Action::Sleep { millis } => ActionView::Sleep { millis: *millis },
            Action::Exit { failure } => ActionView::Exit { failure: failure@ },
        }
    }
}

/// What the driver reports: the outcome of the operation it performed.
#[derive(Debug, PartialEq, Eq)]
pub enum Event {
    /// The reply to `ResolveZone`, or the words of the transport that
    /// brought none.
    Zones(Result<ZonesResponse, String>),
    /// The outcome of `Connect`.
    Connected(Result<(), Failure>),
    /// The reply to `ListRecords`, or the words of the transport that
    /// brought none.
    Records(Result<DnsRecordsResponse, String>),
    /// The reply to `PatchRecord`, or the words of the transport that
    /// brought none.
    Patched(Result<BasicResponse, String>),
    /// The value that `Fetch` found, or `None` where it found none, for
    /// whatever reason.
    Fetched(Option<String>),
    /// `Sleep` is over.
    Woke,
}

impl View for Event {
    type V = EventView;

    open spec fn view(&self) -> EventView {
        match self {
            Event::Zones(reply) => EventView::Zones(zones_reply_view(*reply)),
            Event::Connected(outcome) => EventView::Connected(
                crate::cloudflare::unit_result_view(*outcome),
            ),
            Event::Records(reply) => EventView::Records(records_reply_view(*reply)),
            Event::Patched(reply) => EventView::Patched(patch_reply_view(*reply)),
            Event::Fetched(Some(observed)) => EventView::Fetched(Some(observed@)),
            Event::Fetched(None) => EventView::Fetched(None),
            Event::Woke => EventView::Woke,
        }
    }
}

/// What a step of the machine hands back.
#[derive(Debug, PartialEq, Eq)]
pub struct Outcome {
    /// The line to print, if the step calls for one.
    pub notice: Option<String>,
    /// The operation to perform next.
    pub action: Action,
}

/// An optional line as a mathematical value.
pub open spec fn line_view(line: Option<String>) -> Option<Seq<char>> {
    match line {
        Some(text) => Some(text@),
        None => None,
    }
}

/// The machine: the settings, the access to the record API, and the state.
#[derive(Debug)]
pub struct Reconciler {
    config: Config,
    cloudflare: Cloudflare,
    phase: Phase,
}


impl Reconciler {
    /// The settings that the machine runs on.
    pub closed spec fn settings(&self) -> ConfigView {
        self.config@
    }

    /// The state that the machine is in.
    pub closed spec fn state(&self) -> State {
        self.phase@
    }

    /// The value of the authorization header that the machine's access to
    /// the record API sends.
    pub closed spec fn authorization_text(&self) -> Seq<char> {
        self.cloudflare.authorization_text()
    }

    /// The machine for `config`, about to look up the zone.
    ///
    /// A credential that cannot stand in a header is refused. For one that
    /// can, success is for the building of the client to decide, as in
    /// `Cloudflare::new`; `with_access` tells what the machine is then.
    pub fn new(config: Config) -> (made: Result<Reconciler, Failure>)
        ensures
            !header_text(config@.cf_token) ==> made is Err,
            made is Err ==> made->Err_0@.kind == FailureKind::Config,
            made is Ok ==> {
                &&& made->Ok_0.settings() == config@
                &&& made->Ok_0.state() == State::ResolvingZone
                &&& made->Ok_0.authorization_text() == crate::cloudflare::bearer(config@.cf_token)
            },
    {
        match Cloudflare::new(config.cf_token.as_str()) {
            Ok(cloudflare) => Ok(Reconciler::with_access(config, cloudflare)),
            Err(failure) => Err(failure),
        }
    }

    /// The machine for `config` that reaches the record API through
    /// `cloudflare`, about to look up the zone.
    pub fn with_access(config: Config, cloudflare: Cloudflare) -> (machine: Reconciler)
        ensures
            machine.settings() == config@,
            machine.state() == State::ResolvingZone,
            machine.authorization_text() == cloudflare.authorization_text(),
    {
        Reconciler { config, cloudflare, phase: Phase::ResolvingZone }
    }

    /// The settings.
    pub fn config(&self) -> (config: &Config)
        ensures
            config@ == self.settings(),
    {
        &self.config
    }

    /// The access to the record API.
    pub fn cloudflare(&self) -> (cloudflare: &Cloudflare)
        ensures
            cloudflare.authorization_text() == self.authorization_text(),
    {
        &self.cloudflare
    }

    /// Where the machine stands.
    pub fn phase(&self) -> (phase: &Phase)
        ensures
            phase@ == self.state(),
    {
        &self.phase
    }

    /// The operation that is outstanding.
    pub fn pending(&self) -> (action: Action)
        ensures
            action@ == pending(self.settings(), self.state()),
    {
        match &self.phase {
            Phase::ResolvingZone => Action::ResolveZone {
                url: self.cloudflare.zones_url(self.config.zone_name.as_str()),
            },
            Phase::Connecting { .. } => Action::Connect { url: self.config.redis_url() },
            Phase::ReadingRecord { zone_id } => Action::ListRecords {
                url: self.cloudflare.records_url(
                    zone_id.as_str(),
                    Some(self.config.record_name.as_str()),
                ),
            },
            Phase::Polling { .. } => Action::Fetch { key: self.config.redis_key.clone() },
            Phase::Rereading { zone_id, .. } => Action::ListRecords {
                url: self.cloudflare.records_url(
                    zone_id.as_str(),
                    Some(self.config.record_name.as_str()),
                ),
            },
            Phase::Writing { zone_id, record, .. } => Action::PatchRecord {
                url: self.cloudflare.record_url(zone_id.as_str(), record),
                record: record.clone(),
            },
            Phase::Sleeping { .. } => Action::Sleep { millis: self.config.redis_poll_interval },
            Phase::Stopped { failure } => Action::Exit { failure: failure.clone() },
        }
    }

    /// Tells whether `step` can read `event` in the present state.
    pub fn accepts(&self, event: &Event) -> (accepted: bool)
        ensures
            accepted == acceptable(self.settings(), self.state(), event@),
    {
        match &self.phase {
            Phase::ResolvingZone => match event {
                Event::Zones(reply) => Cloudflare::zones_reply_is_sound(
                    self.config.zone_name.as_str(),
                    reply,
                ),
                _ => true,
            },
            Phase::ReadingRecord { .. } => match event {
                Event::Records(reply) => Cloudflare::records_reply_is_sound(reply),
                _ => true,
            },
            Phase::Rereading { .. } => match event {
                Event::Records(reply) => Cloudflare::records_reply_is_sound(reply),
                _ => true,
            },
            _ => true,
        }
    }

    /// Takes the outcome of the outstanding operation and moves on: the
    /// machine is then in the state that follows, and the operation handed
    /// back is the one outstanding there.
    pub fn step(&mut self, event: Event) -> (outcome: Outcome)
        requires
            acceptable(old(self).settings(), old(self).state(), event@),
        ensures
            final(self).settings() == old(self).settings(),
            final(self).authorization_text() == old(self).authorization_text(),
            final(self).state() == next(old(self).settings(), old(self).state(), event@),
            line_view(outcome.notice) == notice(old(self).settings(), old(self).state(), event@),
            outcome.action@ == pending(final(self).settings(), final(self).state()),
    {
        let mut phase = Phase::ResolvingZone;
        core::mem::swap(&mut self.phase, &mut phase);
        let (phase, notice) = advance(&self.config, &self.cloudflare, phase, event);
        self.phase = phase;
        Outcome { notice, action: self.pending() }
    }
}

/// The phase that follows `phase` when `event` is reported, and the line
/// to print.
fn advance(config: &Config, cf: &Cloudflare, phase: Phase, event: Event) -> (moved: (
    Phase,
    Option<String>,
))
    requires
        acceptable(config@, phase@, event@),
    ensures
        moved.0@ == next(config@, phase@, event@),
        line_view(moved.1) == notice(config@, phase@, event@),
{
    match phase {
        Phase::ResolvingZone => match event {
            Event::Zones(reply) => match cf.zone_id(config.zone_name.as_str(), reply) {
                Ok(zone_id) => (Phase::Connecting { zone_id }, None),
                Err(failure) => (Phase::Stopped { failure }, None),
            },
            _ => (Phase::ResolvingZone, None),
        },
        Phase::Connecting { zone_id } => match event {
            Event::Connected(Ok(_)) => (Phase::ReadingRecord { zone_id }, None),
            Event::Connected(Err(failure)) => (Phase::Stopped { failure }, None),
            _ => (Phase::Connecting { zone_id }, None),
        },
        Phase::ReadingRecord { zone_id } => match event {
            Event::Records(reply) => match get_current_record_content(
                cf,
                config.record_name.as_str(),
                reply,
            ) {
                Ok(belief) => (
                    Phase::Polling { zone_id, belief },
                    Some("Running and connected to redis".to_owned()),
                ),
                Err(failure) => (Phase::Stopped { failure }, None),
            },
            _ => (Phase::ReadingRecord { zone_id }, None),
        },
        Phase::Polling { zone_id, belief } => match event {
            Event::Fetched(Some(observed)) => if observed == belief {
                (Phase::Sleeping { zone_id, belief }, None)
            } else {
                (Phase::Rereading { zone_id, belief, target: observed }, None)
            },
            Event::Fetched(None) => (Phase::Sleeping { zone_id, belief }, None),
            _ => (Phase::Polling { zone_id, belief }, None),
        },
        Phase::Rereading { zone_id, belief, target } => match event {
            Event::Records(reply) => match update_record_ip(
                cf,
                config.record_name.as_str(),
                target.as_str(),
                reply,
            ) {
                Ok(record) => (Phase::Writing { zone_id, belief, record }, None),
                Err(failure) => match failure.kind {
                    FailureKind::NotFound => (Phase::Stopped { failure }, None),
                    _ => (Phase::Sleeping { zone_id, belief }, None),
                },
            },
            _ => (Phase::Rereading { zone_id, belief, target }, None),
        },
        Phase::Writing { zone_id, belief, record } => match event {
            Event::Patched(reply) => match cf.patch_record(&record, reply) {
                Ok(_) => {
                    let mut line = join("Updated record ", config.record_name.as_str());
                    line.append(" to ");
                    line.append(record.content.as_str());
                    (Phase::Sleeping { zone_id, belief: record.content }, Some(line))
                },
                Err(_) => (Phase::Sleeping { zone_id, belief }, None),
            },
            _ => (Phase::Writing { zone_id, belief, record }, None),
        },
        Phase::Sleeping { zone_id, belief } => match event {
            Event::Woke => (Phase::Polling { zone_id, belief }, None),
            _ => (Phase::Sleeping { zone_id, belief }, None),
        },
        Phase::Stopped { failure } => (Phase::Stopped { failure }, None),
    }
}

} // verus!
