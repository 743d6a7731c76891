//! The client of the forecast service: the address it asks at, and what it
//! makes of the reply.

use crate::config::Config;
use crate::data::CarbonIntensity;
use crate::payload::entries_of;
use crate::payload::read_entries;
use crate::payload::RawEntry;
use crate::payload::RawEntryView;
use crate::timestamp::clock_now;
use crate::timestamp::format_stamp;
use crate::timestamp::formatted_stamp;
use crate::timestamp::has_minute_form;
use crate::timestamp::minute_format;
use crate::timestamp::minute_format_text;
use crate::timestamp::minute_stamp;
use crate::timestamp::read_minute_stamp;
use crate::timestamp::Timestamp;
use vstd::prelude::*;
use vstd::string::StrSliceExecFns;
use vstd::string::StringExecFns;

verus! {

/// The number of characters that the service takes of a postcode.
pub const POSTCODE_LENGTH: usize = 4;

/// Why a fetch gave no records.
#[derive(Clone, Copy, Debug, PartialEq, Eq, Structural)]
pub enum FetchError {
    /// The service could not be reached, or its reply could not be read.
    Transport,
    /// The reply is not JSON of the expected shape.
    Payload,
    /// An entry of the reply carries a time that is not written to the
    /// minute in UTC.
    Timestamp,
}

/// What came back for one request.
#[derive(Clone, Debug, PartialEq, Eq)]
pub enum Reply {
    /// Nothing: the transport failed.
    Unreachable,
    /// The body of the response, whatever its status.
    Body(String),
}

/// A `Reply` as a mathematical value.
pub enum ReplyView {
    Unreachable,
    Body(Seq<char>),
}

impl View for Reply {
    type V = ReplyView;

    open spec fn view(&self) -> ReplyView {
        match self {
            Reply::Unreachable => ReplyView::Unreachable,
            Reply::Body(body) => ReplyView::Body(body@),
        }
    }
}

/// The client of the forecast service for one postcode.
#[derive(Debug)]
pub struct CarbonIntensityAPI {
    url: String,
    endpoint: String,
    postcode: String,
    timestamp: Option<Timestamp>,
}

/// A `CarbonIntensityAPI` as a mathematical value.
pub struct ClientView {
    pub url: Seq<char>,
    pub endpoint: Seq<char>,
    pub postcode: Seq<char>,
    pub timestamp: Option<Timestamp>,
}

impl View for CarbonIntensityAPI {
    type V = ClientView;

    closed spec fn view(&self) -> ClientView {
        ClientView {
            url: self.url@,
            endpoint: self.endpoint@,
            postcode: self.postcode@,
            timestamp: self.timestamp,
        }
    }
}

/// The postcode that is sent for `postcode`: its first four characters
/// where it has more, else all of it.
pub open spec fn effective_postcode(postcode: Seq<char>) -> Seq<char> {
    if postcode.len() > POSTCODE_LENGTH {
        postcode.subrange(0, POSTCODE_LENGTH as int)
    } else {
        postcode
    }
}

/// The fixed part of the address, between the time and the postcode.
pub open spec fn forecast_path() -> Seq<char> {
    "/fw48h/postcode/"@
}

/// What holds of every client: its fixed part of the address is the path
/// of the forecast, and its postcode has at most four characters.
pub open spec fn is_client(client: ClientView) -> bool {
    &&& client.endpoint == forecast_path()
    &&& client.postcode.len() <= POSTCODE_LENGTH
}

/// The address made of its four parts, one written after the other with
/// nothing put between them.
pub open spec fn address(base: Seq<char>, time: Seq<char>, path: Seq<char>, postcode: Seq<char>) -> Seq<
    char,
> {
    base + time + path + postcode
}

/// The time that `client` asks for when the clock reads `now`: the one it
/// was set to, or else `now`.
pub open spec fn request_time(client: ClientView, now: Timestamp) -> Timestamp {
    match client.timestamp {
        Some(set) => set,
        None => now,
    }
}

/// The time of a request as it stands in the address: `at` written to the
/// minute by `chrono`.
pub open spec fn time_text(at: Timestamp) -> Seq<char> {
    formatted_stamp(at, minute_format_text())
}

/// The address that `client` asks at when the clock reads `now`.
pub open spec fn request_address(client: ClientView, now: Timestamp) -> Seq<char> {
    address(
        client.url,
        time_text(request_time(client, now)),
        client.endpoint,
        client.postcode,
    )
}

/// The record that `entry` stands for, where both its times name UTC
/// instants to the minute.
pub open spec fn record_of(entry: RawEntryView) -> Option<CarbonIntensity> {
    match (minute_stamp(entry.from), minute_stamp(entry.to)) {
        (Some(from), Some(to)) => Some(CarbonIntensity { from, to, intensity: entry.forecast }),
        _ => None,
    }
}

/// The records that `entries` stand for, in their order, where each stands
/// for one.
pub open spec fn records_of(entries: Seq<RawEntryView>) -> Option<Seq<CarbonIntensity>> {
    if forall|i: int| 0 <= i < entries.len() ==> record_of(#[trigger] entries[i]) is Some {
        Some(Seq::new(entries.len(), |i: int| record_of(entries[i])->0))
    } else {
        None
    }
}

/// What a fetch makes of `reply`.
pub open spec fn fetch_outcome(reply: ReplyView) -> Result<Seq<CarbonIntensity>, FetchError> {
    match reply {
        ReplyView::Unreachable => Err(FetchError::Transport),
        ReplyView::Body(body) => match entries_of(body) {
            None => Err(FetchError::Payload),
            Some(entries) => match records_of(entries) {
                Some(records) => Ok(records),
                None => Err(FetchError::Timestamp),
            },
        },
    }
}

/// Writes the four parts of an address one after the other.
pub fn join_address(base: &str, time: &str, path: &str, postcode: &str) -> (url: String)
    ensures
        url@ == address(base@, time@, path@, postcode@),
{
    let mut url = String::from_str(base);
    url.append(time);
    url.append(path);
    url.append(postcode);
    url
}

/// The record with these ends and this forecast, where both ends are there.
/// The forecast is taken over as it stands.
pub fn make_record(from: Option<Timestamp>, to: Option<Timestamp>, forecast: i64) -> (made: Option<
    CarbonIntensity,
>)
    ensures
        made == match (from, to) {
            (Some(from), Some(to)) => Some(CarbonIntensity { from, to, intensity: forecast }),
            _ => None,
        },
{
    match (from, to) {
        (Some(from), Some(to)) => Some(CarbonIntensity { from, to, intensity: forecast }),
        _ => None,
    }
}

/// Turns one entry of the reply into a record. Both its ends are starts of
/// minutes.
pub fn map_entry(entry: &RawEntry) -> (made: Option<CarbonIntensity>)
    ensures
        made == record_of(entry@),
        made matches Some(record) ==> record.on_the_minute(),
{
    let from = read_minute_stamp(entry.from.as_str());
    let to = read_minute_stamp(entry.to.as_str());
    make_record(from, to, entry.forecast)
}

/// Turns the entries of the reply into records, keeping their order. One
/// entry with a time that cannot be read fails the whole mapping.
pub fn map_entries(entries: &Vec<RawEntry>) -> (made: Option<Vec<CarbonIntensity>>)
    ensures
        match made {
            Some(records) => records_of(entries.deep_view()) == Some(records@),
            None => records_of(entries.deep_view()) is None,
        },
        made matches Some(records) ==> forall|i: int|
            0 <= i < records.len() ==> (#[trigger] records[i]).on_the_minute(),
{
    let mut records: Vec<CarbonIntensity> = Vec::new();
    let mut i: usize = 0;
    while i < entries.len()
        invariant
            i <= entries.len(),
            records.len() == i,
            forall|j: int|
                0 <= j < i ==> record_of(#[trigger] entries.deep_view()[j]) == Some(records@[j]),
            forall|j: int| 0 <= j < i ==> (#[trigger] records[j]).on_the_minute(),
        decreases entries.len() - i,
    {
        assert(entries.deep_view()[i as int] == entries@[i as int]@);
        match map_entry(&entries[i]) {
            Some(record) => {
                records.push(record);
            },
            None => {
                assert(record_of(entries.deep_view()[i as int]) is None);
                return None;
            },
        }
        i += 1;
    }
    assert(records@ =~= Seq::new(
        entries.deep_view().len(),
        |i: int| record_of(entries.deep_view()[i])->0,
    ));
    Some(records)
}

impl CarbonIntensityAPI {
    #[verifier::type_invariant]
    spec fn well_formed(self) -> bool {
        is_client(self@)
    }

    /// The client for the settings `config`. A postcode of more than four
    /// characters is cut to its first four.
    pub fn new(config: &Config) -> (api: CarbonIntensityAPI)
        ensures
            api@.url == config@.endpoint,
            api@.endpoint == forecast_path(),
            api@.postcode == effective_postcode(config@.postcode),
            api@.timestamp is None,
            is_client(api@),
    {
        let given = config.postcode();
        let postcode = if given.unicode_len() > POSTCODE_LENGTH {
            String::from_str(given.substring_char(0, POSTCODE_LENGTH))
        } else {
            String::from_str(given)
        };
        CarbonIntensityAPI {
            url: String::from_str(config.endpoint()),
            endpoint: String::from_str("/fw48h/postcode/"),
            postcode,
            timestamp: None,
        }
    }

    /// Sets the time that the forecast is asked for. Until a time is set,
    /// each request asks for the time at which it is made.
    pub fn set_time(&mut self, time: Timestamp)
        ensures
            final(self)@.timestamp == Some(time),
            final(self)@.url == old(self)@.url,
            final(self)@.endpoint == old(self)@.endpoint,
            final(self)@.postcode == old(self)@.postcode,
    {
        proof {
            use_type_invariant(&*self);
        }
        self.timestamp = Some(time);
    }

    /// The postcode that is sent. It has at most four characters.
    pub fn postcode(&self) -> (postcode: &str)
        ensures
            postcode@ == self@.postcode,
            is_client(self@),
    {
        proof {
            use_type_invariant(self);
        }
        self.postcode.as_str()
    }

    /// The address to ask at when the clock reads `now`: the base, the time
    /// asked for written to the minute, the path of the forecast, and the
    /// postcode of at most four characters. Where the time asked for lies in
    /// the years 0000 to 9999, it stands in the address in the form
    /// `YYYY-MM-DDTHH:MMZ`.
    pub fn request_url_at(&self, now: Timestamp) -> (url: String)
        ensures
            url@ == request_address(self@, now),
            is_client(self@),
            request_time(self@, now).has_four_digit_year() ==> has_minute_form(
                time_text(request_time(self@, now)),
            ),
    {
        proof {
            use_type_invariant(self);
        }
        let at = match self.timestamp {
            Some(set) => set,
            None => now,
        };
        let time = format_stamp(at, minute_format());
        join_address(self.url.as_str(), time.as_str(), self.endpoint.as_str(), self.postcode.as_str())
    }

    /// The address to ask at now. The clock is read once, and its reading
    /// is used only where no time was set.
    pub fn request_url(&self) -> (url: String)
        ensures
            exists|now: Timestamp|
                {
                    &&& url@ == #[trigger] request_address(self@, now)
                    &&& request_time(self@, now).has_four_digit_year() ==> has_minute_form(
                        time_text(request_time(self@, now)),
                    )
                },
            self@.timestamp matches Some(set) ==> url@ == request_address(self@, set),
            is_client(self@),
    {
        let now = clock_now();
        self.request_url_at(now)
    }

    /// Makes the records of a forecast out of what came back for the
    /// request. Without a reply there are none; a body that is not JSON of
    /// the expected shape, or that holds one time that cannot be read,
    /// gives none either. Otherwise there is one record for each entry of
    /// the body, in the order of the entries, and each of its ends is the
    /// start of a minute.
    pub fn fetch(&self, reply: &Reply) -> (fetched: Result<Vec<CarbonIntensity>, FetchError>)
        ensures
            match fetched {
                Ok(records) => fetch_outcome(reply@) == Ok::<Seq<CarbonIntensity>, FetchError>(
                    records@,
                ),
                Err(error) => fetch_outcome(reply@) == Err::<Seq<CarbonIntensity>, FetchError>(
                    error,
                ),
            },
            fetched matches Ok(records) ==> forall|i: int|
                0 <= i < records.len() ==> (#[trigger] records[i]).on_the_minute(),
    {
        match reply {
            Reply::Unreachable => Err(FetchError::Transport),
            Reply::Body(body) => match read_entries(body.as_str()) {
                None => Err(FetchError::Payload),
                Some(entries) => match map_entries(&entries) {
                    Some(records) => Ok(records),
                    None => Err(FetchError::Timestamp),
                },
            },
        }
    }
}

/// The postcode that is sent is the given one where that has at most four
/// characters, and its first four characters where it has more.
pub proof fn postcode_is_cut_to_four(postcode: Seq<char>)
    ensures
        postcode.len() <= POSTCODE_LENGTH ==> effective_postcode(postcode) == postcode,
        postcode.len() > POSTCODE_LENGTH ==> effective_postcode(postcode).len() == POSTCODE_LENGTH,
        effective_postcode(postcode).len() <= POSTCODE_LENGTH,
        effective_postcode(postcode).is_prefix_of(postcode),
        effective_postcode(effective_postcode(postcode)) == effective_postcode(postcode),
{
}

/// One entry with a time that cannot be read fails the whole fetch: no
/// record of any other entry comes back.
pub proof fn unreadable_time_fails_fetch(body: Seq<char>, i: int)
    requires
        entries_of(body) is Some,
        0 <= i < entries_of(body)->0.len(),
        minute_stamp(entries_of(body)->0[i].from) is None || minute_stamp(
            entries_of(body)->0[i].to,
        ) is None,
    ensures
        fetch_outcome(ReplyView::Body(body)) == Err::<Seq<CarbonIntensity>, FetchError>(
            FetchError::Timestamp,
        ),
{
    let entries = entries_of(body)->0;
    assert(record_of(entries[i]) is None);
}

/// The records of a fetch stand in the order of the entries of the reply:
/// there is one record for each entry, and the record at each place is the
/// one made of the entry at that place.
pub proof fn records_keep_order(body: Seq<char>, records: Seq<CarbonIntensity>, i: int)
    requires
        fetch_outcome(ReplyView::Body(body)) == Ok::<Seq<CarbonIntensity>, FetchError>(records),
        0 <= i < records.len(),
    ensures
        entries_of(body) is Some,
        entries_of(body)->0.len() == records.len(),
        record_of(entries_of(body)->0[i]) == Some(records[i]),
        records[i].intensity == entries_of(body)->0[i].forecast,
{
}

} // verus!
