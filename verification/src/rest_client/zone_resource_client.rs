//! The calls that concern zones: what each one asks of the server.

use crate::clock::{date_pattern, format_utc, unix_seconds, utc_text};
use crate::pdns::zone::{
    Changetype,
    NewZone,
    NewZoneView,
    Record,
    RecordView,
    Rrset,
    RrsetType,
    RrsetView,
    Rrsets,
};
use crate::rest_client::client_request_builder::{
    ClientRequestBuilder,
    ClientRequestBuilderView,
    HttpVerb,
};
use crate::rest_client::pdns_resource_client::{
    spec_operation,
    Operation,
    PowerDnsRestClient,
    RequestBody,
    RequestBodyView,
};
use crate::text::{contains, copy_strings, decimal, decimal_digits, occurs_in};
use vstd::prelude::*;
use vstd::string::*;

verus! {

/// A name in canonical form: it ends with the separator of labels, a dot.
pub open spec fn canonical_name(name: Seq<char>) -> Seq<char> {
    if name.len() > 0 && name.last() == '.' {
        name
    } else {
        name.push('.')
    }
}

/// Each name of a list in canonical form.
pub open spec fn canonical_names(names: Seq<Seq<char>>) -> Seq<Seq<char>> {
    names.map_values(|name: Seq<char>| canonical_name(name))
}

/// Puts a name into canonical form: a name that does not end with a dot gets
/// one, a name that does is left as it is.
pub fn canonicalize_name(name: &String) -> (canonical: String)
    ensures
        canonical@ == canonical_name(name@),
{
    let length = name.as_str().unicode_len();
    if length > 0 && name.as_str().get_char(length - 1) == '.' {
        name.clone()
    } else {
        let mut canonical = name.clone();
        canonical.append(".");
        proof {
            reveal_strlit(".");
            assert(canonical@ =~= name@.push('.'));
        }
        canonical
    }
}

/// Putting a name into canonical form adds exactly one dot to a name that
/// does not end with one and leaves a name that does as it is. Doing it a
/// second time changes nothing.
pub proof fn canonical_name_is_stable(name: Seq<char>)
    ensures
        name.len() == 0 || name.last() != '.' ==> canonical_name(name) == name + seq!['.'],
        name.len() > 0 && name.last() == '.' ==> canonical_name(name) == name,
        canonical_name(canonical_name(name)) == canonical_name(name),
{
    assert(name.push('.') =~= name + seq!['.']);
}

/// Puts each name of a list into canonical form.
pub fn canonicalize_names(names: &Vec<String>) -> (canonical: Vec<String>)
    ensures
        canonical.deep_view() == canonical_names(names.deep_view()),
{
    let mut canonical: Vec<String> = Vec::new();
    let mut index: usize = 0;
    while index < names.len()
        invariant
            index <= names.len(),
            canonical.len() == index,
            forall|k: int| 0 <= k < index ==> canonical[k]@ == canonical_name(names[k]@),
        decreases names.len() - index,
    {
        canonical.push(canonicalize_name(&names[index]));
        index = index + 1;
    }
    assert(canonical.deep_view() =~= canonical_names(names.deep_view()));
    canonical
}

/// The full name of a record within a zone. A key that holds the zone's name
/// is taken as full already; to any other the zone's name is added behind a
/// dot. Either way the result is in canonical form.
pub open spec fn qualified_key(record_key: Seq<char>, zone_name: Seq<char>) -> Seq<char> {
    if occurs_in(zone_name, record_key) {
        canonical_name(record_key)
    } else {
        canonical_name(record_key + seq!['.'] + zone_name)
    }
}

/// The full name of a record is in canonical form, whatever key and zone.
pub proof fn qualified_key_is_canonical(record_key: Seq<char>, zone_name: Seq<char>)
    ensures
        canonical_name(qualified_key(record_key, zone_name)) == qualified_key(
            record_key,
            zone_name,
        ),
{
    canonical_name_is_stable(record_key);
    canonical_name_is_stable(record_key + seq!['.'] + zone_name);
}

/// Works out the full name of a record within a zone.
pub fn qualify_record_key(record_key: &String, zone_name: &String) -> (qualified: String)
    ensures
        qualified@ == qualified_key(record_key@, zone_name@),
{
    if contains(record_key.as_str(), zone_name.as_str()) {
        canonicalize_name(record_key)
    } else {
        let mut full = record_key.clone();
        full.append(".");
        full.append(zone_name.as_str());
        proof {
            reveal_strlit(".");
            assert(full@ =~= record_key@ + seq!['.'] + zone_name@);
        }
        canonicalize_name(&full)
    }
}

/// Asks for one zone.
#[derive(Clone, Debug, PartialEq, Eq)]
pub struct QueryZoneRequestEvent {
    pub zone_name: String,
}

/// Asks for the list of all zones.
#[derive(Clone, Copy, Debug, PartialEq, Eq, Structural)]
pub struct ListZonesRequestEvent {}

/// Asks for a zone to be created.
#[derive(Clone, Debug, PartialEq, Eq)]
pub struct CreateZoneRequestEvent {
    pub zone_name: String,
    pub refresh: u32,
    pub retry: u32,
    pub expire: u32,
    pub neg_caching: u32,
    pub masters: Vec<String>,
    pub nameservers: Vec<String>,
    pub account: String,
}

/// What a [`CreateZoneRequestEvent`] holds.
pub struct CreateZoneRequestEventView {
    pub zone_name: Seq<char>,
    pub refresh: u32,
    pub retry: u32,
    pub expire: u32,
    pub neg_caching: u32,
    pub masters: Seq<Seq<char>>,
    pub nameservers: Seq<Seq<char>>,
    pub account: Seq<char>,
}

impl View for CreateZoneRequestEvent {
    type V = CreateZoneRequestEventView;

    open spec fn view(&self) -> CreateZoneRequestEventView {
        CreateZoneRequestEventView {
            zone_name: self.zone_name@,
            refresh: self.refresh,
            retry: self.retry,
            expire: self.expire,
            neg_caching: self.neg_caching,
            masters: self.masters.deep_view(),
            nameservers: self.nameservers.deep_view(),
            account: self.account@,
        }
    }
}

/// Asks for a zone to be removed.
#[derive(Clone, Debug, PartialEq, Eq)]
pub struct RemoveZoneRequestEvent {
    pub zone_name: String,
}

/// Asks for the records of one name and type to be set.
#[derive(Clone, Debug, PartialEq, Eq)]
pub struct AddEntryRequestEvent {
    pub zone_name: String,
    pub record_key: String,
    pub record_type: RrsetType,
    pub record_value: Vec<String>,
    pub time_to_live: u32,
}

/// What an [`AddEntryRequestEvent`] holds.
pub struct AddEntryRequestEventView {
    pub zone_name: Seq<char>,
    pub record_key: Seq<char>,
    pub record_type: RrsetType,
    pub record_value: Seq<Seq<char>>,
    pub time_to_live: u32,
}

impl View for AddEntryRequestEvent {
    type V = AddEntryRequestEventView;

    open spec fn view(&self) -> AddEntryRequestEventView {
        AddEntryRequestEventView {
            zone_name: self.zone_name@,
            record_key: self.record_key@,
            record_type: self.record_type,
            record_value: self.record_value.deep_view(),
            time_to_live: self.time_to_live,
        }
    }
}

/// Asks for the records of one name and type to be removed.
#[derive(Clone, Debug, PartialEq, Eq)]
pub struct RemoveEntryRequestEvent {
    pub zone_name: String,
    pub record_key: String,
    pub record_type: RrsetType,
}

impl QueryZoneRequestEvent {
    pub fn new(zone_name: &String) -> (request: QueryZoneRequestEvent)
        ensures
            request.zone_name == *zone_name,
    {
        QueryZoneRequestEvent { zone_name: zone_name.clone() }
    }
}

impl ListZonesRequestEvent {
    pub fn new() -> (request: ListZonesRequestEvent)
        ensures
            request == (ListZonesRequestEvent {  }),
    {
        ListZonesRequestEvent {  }
    }
}

impl CreateZoneRequestEvent {
    pub fn new(
        zone_name: &String,
        refresh: u32,
        retry: u32,
        expire: u32,
        neg_caching: u32,
        masters: &Vec<String>,
        nameservers: &Vec<String>,
        account: &String,
    ) -> (request: CreateZoneRequestEvent)
        ensures
            request@ == (CreateZoneRequestEventView {
                zone_name: zone_name@,
                refresh,
                retry,
                expire,
                neg_caching,
                masters: masters.deep_view(),
                nameservers: nameservers.deep_view(),
                account: account@,
            }),
    {
        CreateZoneRequestEvent {
            zone_name: zone_name.clone(),
            refresh,
            retry,
            expire,
            neg_caching,
            masters: copy_strings(masters),
            nameservers: copy_strings(nameservers),
            account: account.clone(),
        }
    }
}

impl RemoveZoneRequestEvent {
    pub fn new(zone_name: &String) -> (request: RemoveZoneRequestEvent)
        ensures
            request.zone_name == *zone_name,
    {
        RemoveZoneRequestEvent { zone_name: zone_name.clone() }
    }
}

impl AddEntryRequestEvent {
    pub fn new(
        zone_name: &String,
        record_key: &String,
        record_type: RrsetType,
        record_value: &Vec<String>,
        time_to_live: u32,
    ) -> (request: AddEntryRequestEvent)
        ensures
            request@ == (AddEntryRequestEventView {
                zone_name: zone_name@,
                record_key: record_key@,
                record_type,
                record_value: record_value.deep_view(),
                time_to_live,
            }),
    {
        AddEntryRequestEvent {
            zone_name: zone_name.clone(),
            record_key: record_key.clone(),
            record_type,
            record_value: copy_strings(record_value),
            time_to_live,
        }
    }
}

impl RemoveEntryRequestEvent {
    pub fn new(zone_name: &String, record_key: &String, record_type: RrsetType) -> (request:
        RemoveEntryRequestEvent)
        ensures
            request.zone_name == *zone_name,
            request.record_key == *record_key,
            request.record_type == record_type,
    {
        RemoveEntryRequestEvent {
            zone_name: zone_name.clone(),
            record_key: record_key.clone(),
            record_type,
        }
    }
}

/// Where the list of zones lies.
pub open spec fn zones_path() -> Seq<char> {
    "servers/localhost/zones"@
}

/// Where one zone lies.
pub open spec fn zone_path(zone_name: Seq<char>) -> Seq<char> {
    "servers/localhost/zones/"@ + zone_name
}

fn path_of_zone(zone_name: &String) -> (path: String)
    ensures
        path@ == zone_path(zone_name@),
{
    let mut path = String::from_str("servers/localhost/zones/");
    path.append(zone_name.as_str());
    path
}

pub fn get_zone_request_path(request: &QueryZoneRequestEvent) -> (path: String)
    ensures
        path@ == zone_path(request.zone_name@),
{
    path_of_zone(&request.zone_name)
}

pub fn list_zones_request_path(request: &ListZonesRequestEvent) -> (path: String)
    ensures
        path@ == zones_path(),
{
    String::from_str("servers/localhost/zones")
}

pub fn create_zone_request_path(request: &CreateZoneRequestEvent) -> (path: String)
    ensures
        path@ == zones_path(),
{
    String::from_str("servers/localhost/zones")
}

pub fn remove_zone_request_path(request: &RemoveZoneRequestEvent) -> (path: String)
    ensures
        path@ == zone_path(request.zone_name@),
{
    path_of_zone(&request.zone_name)
}

pub fn add_entry_request_path(request: &AddEntryRequestEvent) -> (path: String)
    ensures
        path@ == zone_path(request.zone_name@),
{
    path_of_zone(&request.zone_name)
}

pub fn remove_entry_request_path(request: &RemoveEntryRequestEvent) -> (path: String)
    ensures
        path@ == zone_path(request.zone_name@),
{
    path_of_zone(&request.zone_name)
}

/// The content of the SOA record of a new zone: the zone as primary name
/// server, the account's mailbox within the zone, a serial made of the date
/// and `01`, and the four timers.
pub open spec fn soa_content(request: CreateZoneRequestEventView, date_stamp: Seq<char>) -> Seq<
    char,
> {
    canonical_name(request.zone_name) + " "@ + request.account + "."@ + canonical_name(
        request.zone_name,
    ) + " "@ + date_stamp + "01 "@ + decimal_digits(request.refresh as nat) + " "@
        + decimal_digits(request.retry as nat) + " "@ + decimal_digits(request.expire as nat)
        + " "@ + decimal_digits(request.neg_caching as nat)
}

/// The record set that a new zone starts with: its SOA record.
pub open spec fn soa_rrset(request: CreateZoneRequestEventView, date_stamp: Seq<char>)
    -> RrsetView {
    RrsetView {
        name: canonical_name(request.zone_name),
        type_id: RrsetType::Soa,
        changetype: None,
        ttl: Some(request.refresh),
        records: seq![RecordView { content: soa_content(request, date_stamp), disabled: false }],
        comments: Seq::empty(),
    }
}

/// The body of the request that creates a zone on the day `date_stamp`. All
/// names are in canonical form; DNSSEC, NSEC3 and presigning are off.
pub open spec fn spec_create_zone_body(request: CreateZoneRequestEventView, date_stamp: Seq<char>)
    -> NewZoneView {
    NewZone::spec_new(
        canonical_name(request.zone_name),
        seq![soa_rrset(request, date_stamp)],
        canonical_names(request.masters),
        canonical_names(request.nameservers),
        false,
        None,
        false,
        false,
        None,
        None,
    )
}

fn write_soa_content(request: &CreateZoneRequestEvent, date_stamp: &str) -> (content: String)
    ensures
        content@ == soa_content(request@, date_stamp@),
{
    let zone = canonicalize_name(&request.zone_name);
    let mut content = zone.clone();
    content.append(" ");
    content.append(request.account.as_str());
    content.append(".");
    content.append(zone.as_str());
    content.append(" ");
    content.append(date_stamp);
    content.append("01 ");
    content.append(decimal(request.refresh as u64).as_str());
    content.append(" ");
    content.append(decimal(request.retry as u64).as_str());
    content.append(" ");
    content.append(decimal(request.expire as u64).as_str());
    content.append(" ");
    content.append(decimal(request.neg_caching as u64).as_str());
    content
}

/// Builds the body of the request that creates a zone on the day
/// `date_stamp`, which is written as year, month and day without separators.
pub fn create_zone_body(request: &CreateZoneRequestEvent, date_stamp: &str) -> (zone: NewZone)
    ensures
        zone@ == spec_create_zone_body(request@, date_stamp@),
{
    let name = canonicalize_name(&request.zone_name);
    let mut records: Vec<Record> = Vec::new();
    records.push(Record::new(&write_soa_content(request, date_stamp), false));
    let comments = Vec::new();
    let mut rrsets: Vec<Rrset> = Vec::new();
    rrsets.push(
        Rrset::new(&name, RrsetType::Soa, &None, &Some(request.refresh), &records, &comments),
    );
    let masters = canonicalize_names(&request.masters);
    let nameservers = canonicalize_names(&request.nameservers);
    proof {
        assert(records.deep_view() =~= seq![
            RecordView { content: soa_content(request@, date_stamp@), disabled: false },
        ]);
        assert(comments.deep_view() =~= Seq::empty());
        assert(rrsets.deep_view() =~= seq![soa_rrset(request@, date_stamp@)]);
    }
    NewZone::new(&name, &rrsets, &masters, &nameservers, false, None, false, false, None, None)
}

/// Builds the body of the request that creates a zone at the moment
/// `seconds` after the start of 1970. There is none where that moment has no
/// calendar date.
pub fn create_zone_body_at(request: &CreateZoneRequestEvent, seconds: i64) -> (zone: Option<
    NewZone,
>)
    ensures
        match utc_text(seconds, date_pattern()) {
            Some(date_stamp) => zone matches Some(body) && body@ == spec_create_zone_body(
                request@,
                date_stamp,
            ),
            None => zone is None,
        },
{
    match format_utc(seconds, "%Y%m%d") {
        Some(date_stamp) => Some(create_zone_body(request, date_stamp.as_str())),
        None => None,
    }
}

/// The day that a reading of the clock falls on, written as a date stamp. A
/// reading is the number of seconds since the start of 1970, or nothing
/// where the clock stands before that. There is no day where there is no
/// reading, where the seconds cannot be counted in 63 bits, and where the
/// moment has no calendar date.
pub open spec fn date_stamp_of(reading: Option<u64>) -> Option<Seq<char>> {
    match reading {
        Some(seconds) => if seconds <= i64::MAX {
            utc_text(seconds as i64, date_pattern())
        } else {
            None
        },
        None => None,
    }
}

/// Builds the body of the request that creates a zone when the clock reads
/// `reading`. There is none where the reading falls on no day.
pub fn create_zone_body_for_reading(request: &CreateZoneRequestEvent, reading: Option<u64>) -> (zone:
    Option<NewZone>)
    ensures
        match date_stamp_of(reading) {
            Some(date_stamp) => zone matches Some(body) && body@ == spec_create_zone_body(
                request@,
                date_stamp,
            ),
            None => zone is None,
        },
{
    match reading {
        Some(seconds) => {
            if seconds <= 0x7fff_ffff_ffff_ffff {
                create_zone_body_at(request, seconds as i64)
            } else {
                None
            }
        },
        None => None,
    }
}

/// Builds the body of the request that creates a zone now. There is none
/// where the clock stands at a moment without calendar date.
pub fn create_zone_body_provider(request: &CreateZoneRequestEvent) -> (zone: Option<NewZone>)
    ensures
        zone matches Some(body) ==> exists|seconds: i64| #[trigger]
            utc_text(seconds, date_pattern()) matches Some(date_stamp) && body@
                == spec_create_zone_body(request@, date_stamp),
{
    create_zone_body_for_reading(request, unix_seconds())
}

/// The records that hold the given values, all of them enabled.
pub open spec fn records_of(values: Seq<Seq<char>>) -> Seq<RecordView> {
    values.map_values(|value: Seq<char>| RecordView { content: value, disabled: false })
}

/// The body of the request that sets the records of one name and type.
pub open spec fn spec_add_entry_body(request: AddEntryRequestEventView) -> Seq<RrsetView> {
    seq![
        RrsetView {
            name: canonical_name(request.record_key),
            type_id: request.record_type,
            changetype: Some(Changetype::Replace),
            ttl: Some(request.time_to_live),
            records: records_of(request.record_value),
            comments: Seq::empty(),
        },
    ]
}

/// The body of the request that removes the records of one name and type.
pub open spec fn spec_remove_entry_body(record_key: Seq<char>, record_type: RrsetType) -> Seq<
    RrsetView,
> {
    seq![
        RrsetView {
            name: canonical_name(record_key),
            type_id: record_type,
            changetype: Some(Changetype::Delete),
            ttl: None,
            records: Seq::empty(),
            comments: Seq::empty(),
        },
    ]
}

/// Builds the body of the request that sets the records of one name and type.
pub fn add_entry_body_provider(request: &AddEntryRequestEvent) -> (body: Rrsets)
    ensures
        body@ == spec_add_entry_body(request@),
{
    let mut records: Vec<Record> = Vec::new();
    let mut index: usize = 0;
    while index < request.record_value.len()
        invariant
            index <= request.record_value.len(),
            records.len() == index,
            forall|k: int|
                0 <= k < index ==> records[k]@ == (RecordView {
                    content: request.record_value[k]@,
                    disabled: false,
                }),
        decreases request.record_value.len() - index,
    {
        records.push(Record::new(&request.record_value[index], false));
        index = index + 1;
    }
    let comments = Vec::new();
    let name = canonicalize_name(&request.record_key);
    let mut rrsets: Vec<Rrset> = Vec::new();
    rrsets.push(
        Rrset::new(
            &name,
            request.record_type,
            &Some(Changetype::Replace),
            &Some(request.time_to_live),
            &records,
            &comments,
        ),
    );
    proof {
        assert(records.deep_view() =~= records_of(request@.record_value));
        assert(comments.deep_view() =~= Seq::empty());
        assert(rrsets.deep_view() =~= spec_add_entry_body(request@));
    }
    Rrsets { rrsets }
}

/// Builds the body of the request that removes the records of one name and
/// type.
pub fn remove_entry_body_provider(request: &RemoveEntryRequestEvent) -> (body: Rrsets)
    ensures
        body@ == spec_remove_entry_body(request.record_key@, request.record_type),
{
    let records = Vec::new();
    let comments = Vec::new();
    let name = canonicalize_name(&request.record_key);
    let mut rrsets: Vec<Rrset> = Vec::new();
    rrsets.push(
        Rrset::new(
            &name,
            request.record_type,
            &Some(Changetype::Delete),
            &None,
            &records,
            &comments,
        ),
    );
    proof {
        assert(records.deep_view() =~= Seq::empty());
        assert(comments.deep_view() =~= Seq::empty());
        assert(rrsets.deep_view() =~= spec_remove_entry_body(
            request.record_key@,
            request.record_type,
        ));
    }
    Rrsets { rrsets }
}

/// The calls that concern zones, bound to one server.
pub struct ZoneResourceClient {
    pdns_resource_client: PowerDnsRestClient,
}

impl View for ZoneResourceClient {
    type V = ClientRequestBuilderView;

    closed spec fn view(&self) -> ClientRequestBuilderView {
        self.pdns_resource_client@
    }
}

impl ZoneResourceClient {
    /// The zone calls against the server at `base_uri`.
    pub fn new(base_uri: &String, api_key: &String) -> (client: ZoneResourceClient)
        ensures
            client@ == (ClientRequestBuilderView { base_uri: base_uri@, api_key: api_key@ }),
    {
        ZoneResourceClient {
            pdns_resource_client: PowerDnsRestClient::new(
                ClientRequestBuilder::new(base_uri, api_key),
            ),
        }
    }

    /// Begins the query for one zone.
    pub fn spawn_query(&self, request: &QueryZoneRequestEvent) -> (operation: Operation)
        ensures
            operation@ == spec_operation(
                self@,
                HttpVerb::Get,
                zone_path(request.zone_name@),
                RequestBodyView::Empty,
            ),
    {
        self.pdns_resource_client.handle_get_request(get_zone_request_path(request).as_str())
    }

    /// Begins the query for the list of zones.
    pub fn spawn_list_zones(&self, request: &ListZonesRequestEvent) -> (operation: Operation)
        ensures
            operation@ == spec_operation(
                self@,
                HttpVerb::Get,
                zones_path(),
                RequestBodyView::Empty,
            ),
    {
        self.pdns_resource_client.handle_get_request(list_zones_request_path(request).as_str())
    }

    /// Begins the creation of a zone on the day `date_stamp`.
    pub fn spawn_create_on(&self, request: &CreateZoneRequestEvent, date_stamp: &str) -> (operation:
        Operation)
        ensures
            operation@ == spec_operation(
                self@,
                HttpVerb::Post,
                zones_path(),
                RequestBodyView::NewZone(spec_create_zone_body(request@, date_stamp@)),
            ),
    {
        self.pdns_resource_client.handle_post_request(
            create_zone_request_path(request).as_str(),
            RequestBody::NewZone(create_zone_body(request, date_stamp)),
        )
    }

    /// Begins the creation of a zone when the clock reads `reading`. Nothing
    /// begins where the reading falls on no day.
    pub fn spawn_create_for_reading(
        &self,
        request: &CreateZoneRequestEvent,
        reading: Option<u64>,
    ) -> (operation: Option<Operation>)
        ensures
            match date_stamp_of(reading) {
                Some(date_stamp) => operation matches Some(begun) && begun@ == spec_operation(
                    self@,
                    HttpVerb::Post,
                    zones_path(),
                    RequestBodyView::NewZone(spec_create_zone_body(request@, date_stamp)),
                ),
                None => operation is None,
            },
    {
        match create_zone_body_for_reading(request, reading) {
            Some(body) => Some(
                self.pdns_resource_client.handle_post_request(
                    create_zone_request_path(request).as_str(),
                    RequestBody::NewZone(body),
                ),
            ),
            None => None,
        }
    }

    /// Begins the creation of a zone today. Nothing begins where the clock
    /// stands at a moment without calendar date.
    pub fn spawn_create(&self, request: &CreateZoneRequestEvent) -> (operation: Option<Operation>)
        ensures
            operation matches Some(begun) ==> exists|seconds: i64| #[trigger]
                utc_text(seconds, date_pattern()) matches Some(date_stamp) && begun@
                    == spec_operation(
                    self@,
                    HttpVerb::Post,
                    zones_path(),
                    RequestBodyView::NewZone(spec_create_zone_body(request@, date_stamp)),
                ),
    {
        self.spawn_create_for_reading(request, unix_seconds())
    }

    /// Begins the removal of a zone.
    pub fn spawn_remove(&self, request: &RemoveZoneRequestEvent) -> (operation: Operation)
        ensures
            operation@ == spec_operation(
                self@,
                HttpVerb::Delete,
                zone_path(request.zone_name@),
                RequestBodyView::Empty,
            ),
    {
        self.pdns_resource_client.handle_delete_request(remove_zone_request_path(request).as_str())
    }

    /// Begins the change that sets the records of one name and type.
    pub fn spawn_add_entry(&self, request: &AddEntryRequestEvent) -> (operation: Operation)
        ensures
            operation@ == spec_operation(
                self@,
                HttpVerb::Patch,
                zone_path(request.zone_name@),
                RequestBodyView::Rrsets(spec_add_entry_body(request@)),
            ),
    {
        self.pdns_resource_client.handle_patch_request(
            add_entry_request_path(request).as_str(),
            RequestBody::Rrsets(add_entry_body_provider(request)),
        )
    }

    /// Begins the change that removes the records of one name and type.
    pub fn spawn_remove_entry(&self, request: &RemoveEntryRequestEvent) -> (operation: Operation)
        ensures
            operation@ == spec_operation(
                self@,
                HttpVerb::Patch,
                zone_path(request.zone_name@),
                RequestBodyView::Rrsets(
                    spec_remove_entry_body(request.record_key@, request.record_type),
                ),
            ),
    {
        self.pdns_resource_client.handle_patch_request(
            remove_entry_request_path(request).as_str(),
            RequestBody::Rrsets(remove_entry_body_provider(request)),
        )
    }
}

} // verus!
