//! Zones and their resource record sets, as the server exchanges them.

use crate::clock::unix_seconds;
use crate::pdns::struct_type::StructType;
use crate::text::{
    bool_str,
    bool_text,
    copy_strings,
    decimal,
    decimal_digits,
    join,
    joined,
    optional_text,
    same_text,
    text_or_empty,
};
use vstd::prelude::*;
use vstd::string::*;

verus! {

/// How a zone is kept in step with other servers.
#[derive(Clone, Copy, Debug, PartialEq, Eq, Structural)]
pub enum ZoneKind {
    Native,
    Master,
    Slave,
}

impl ZoneKind {
    /// The kind as it is shown to a reader.
    pub open spec fn spec_description(self) -> Seq<char> {
        match self {
            ZoneKind::Master => "Master"@,
            ZoneKind::Native => "Native"@,
            ZoneKind::Slave => "Slave"@,
        }
    }

    /// The kind as it is shown to a reader.
    pub fn description(&self) -> (text: String)
        ensures
            text@ == self.spec_description(),
    {
        match self {
            ZoneKind::Master => String::from_str("Master"),
            ZoneKind::Native => String::from_str("Native"),
            ZoneKind::Slave => String::from_str("Slave"),
        }
    }
}

/// The record types that the tool handles.
#[derive(Clone, Copy, Debug, PartialEq, Eq, Structural)]
pub enum RrsetType {
    A,
    Ptr,
    Aaaa,
    Ns,
    Soa,
    Cname,
    Srv,
    Txt,
}

impl RrsetType {
    /// The type as it is shown to a reader.
    pub open spec fn spec_description(self) -> Seq<char> {
        match self {
            RrsetType::A => "A"@,
            RrsetType::Aaaa => "AAAA"@,
            RrsetType::Cname => "CNAME"@,
            RrsetType::Ns => "NS"@,
            RrsetType::Ptr => "PTT"@,
            RrsetType::Soa => "SOA"@,
            RrsetType::Srv => "SRV"@,
            RrsetType::Txt => "TXT"@,
        }
    }

    /// The type as it is shown to a reader.
    pub fn description(&self) -> (text: String)
        ensures
            text@ == self.spec_description(),
    {
        match self {
            RrsetType::A => String::from_str("A"),
            RrsetType::Aaaa => String::from_str("AAAA"),
            RrsetType::Cname => String::from_str("CNAME"),
            RrsetType::Ns => String::from_str("NS"),
            RrsetType::Ptr => String::from_str("PTT"),
            RrsetType::Soa => String::from_str("SOA"),
            RrsetType::Srv => String::from_str("SRV"),
            RrsetType::Txt => String::from_str("TXT"),
        }
    }

    /// The type that the server knows under `name`, if it is one of those
    /// that the tool handles.
    pub open spec fn spec_from_name(name: Seq<char>) -> Option<RrsetType> {
        if name == "A"@ {
            Some(RrsetType::A)
        } else if name == "PTR"@ {
            Some(RrsetType::Ptr)
        } else if name == "AAAA"@ {
            Some(RrsetType::Aaaa)
        } else if name == "NS"@ {
            Some(RrsetType::Ns)
        } else if name == "SOA"@ {
            Some(RrsetType::Soa)
        } else if name == "CNAME"@ {
            Some(RrsetType::Cname)
        } else if name == "SRV"@ {
            Some(RrsetType::Srv)
        } else if name == "TXT"@ {
            Some(RrsetType::Txt)
        } else {
            None
        }
    }

    /// Looks up the type that the server knows under `name`.
    pub fn from_name(name: &str) -> (found: Option<RrsetType>)
        ensures
            found == Self::spec_from_name(name@),
    {
        if same_text(name, "A") {
            Some(RrsetType::A)
        } else if same_text(name, "PTR") {
            Some(RrsetType::Ptr)
        } else if same_text(name, "AAAA") {
            Some(RrsetType::Aaaa)
        } else if same_text(name, "NS") {
            Some(RrsetType::Ns)
        } else if same_text(name, "SOA") {
            Some(RrsetType::Soa)
        } else if same_text(name, "CNAME") {
            Some(RrsetType::Cname)
        } else if same_text(name, "SRV") {
            Some(RrsetType::Srv)
        } else if same_text(name, "TXT") {
            Some(RrsetType::Txt)
        } else {
            None
        }
    }
}

/// What a change request does to a record set.
#[derive(Clone, Copy, Debug, PartialEq, Eq, Structural)]
pub enum Changetype {
    Unset,
    Replace,
    Delete,
}

impl Changetype {
    /// The change as it is shown to a reader.
    pub open spec fn spec_description(self) -> Seq<char> {
        match self {
            Changetype::Replace => "REPLACE"@,
            Changetype::Delete => "DELETE"@,
            Changetype::Unset => "none"@,
        }
    }

    /// The change as it is shown to a reader.
    pub fn description(&self) -> (text: String)
        ensures
            text@ == self.spec_description(),
    {
        match self {
            Changetype::Replace => String::from_str("REPLACE"),
            Changetype::Delete => String::from_str("DELETE"),
            Changetype::Unset => String::from_str("none"),
        }
    }
}

/// One record of a resource record set.
#[derive(Debug, PartialEq, Eq)]
pub struct Record {
    pub content: String,
    pub disabled: bool,
}

/// What a [`Record`] holds.
pub struct RecordView {
    pub content: Seq<char>,
    pub disabled: bool,
}

impl View for Record {
    type V = RecordView;

    open spec fn view(&self) -> RecordView {
        RecordView { content: self.content@, disabled: self.disabled }
    }
}

impl DeepView for Record {
    type V = RecordView;

    open spec fn deep_view(&self) -> RecordView {
        self@
    }
}

impl Clone for Record {
    fn clone(&self) -> (copy: Self)
        ensures
            copy@ == self@,
    {
        Record { content: self.content.clone(), disabled: self.disabled }
    }
}

impl Record {
    /// A record with the given content.
    pub fn new(content: &String, disabled: bool) -> (record: Record)
        ensures
            record@ == (RecordView { content: content@, disabled }),
    {
        Record { content: content.clone(), disabled }
    }

    /// The record as it is shown to a reader.
    pub open spec fn spec_description(self) -> Seq<char> {
        "(content: "@ + self.content@ + ", disabled: "@ + bool_text(self.disabled) + ")"@
    }

    /// The record as it is shown to a reader.
    pub fn description(&self) -> (text: String)
        ensures
            text@ == self.spec_description(),
    {
        let mut text = String::from_str("(content: ");
        text.append(self.content.as_str());
        text.append(", disabled: ");
        text.append(bool_str(self.disabled));
        text.append(")");
        text
    }
}

/// A remark attached to a resource record set.
#[derive(Debug, PartialEq, Eq)]
pub struct Comment {
    pub content: String,
    pub account: String,
    pub modified_at: u64,
}

/// What a [`Comment`] holds.
pub struct CommentView {
    pub content: Seq<char>,
    pub account: Seq<char>,
    pub modified_at: u64,
}

impl View for Comment {
    type V = CommentView;

    open spec fn view(&self) -> CommentView {
        CommentView {
            content: self.content@,
            account: self.account@,
            modified_at: self.modified_at,
        }
    }
}

impl DeepView for Comment {
    type V = CommentView;

    open spec fn deep_view(&self) -> CommentView {
        self@
    }
}

impl Clone for Comment {
    fn clone(&self) -> (copy: Self)
        ensures
            copy@ == self@,
    {
        Comment {
            content: self.content.clone(),
            account: self.account.clone(),
            modified_at: self.modified_at,
        }
    }
}

impl Comment {
    /// A comment made now: it carries the clock's reading in seconds since
    /// 1970, or zero where the clock stands before that.
    pub fn new(content: &String, account: &String) -> (comment: Comment)
        ensures
            comment.content@ == content@,
            comment.account@ == account@,
    {
        let modified_at = match unix_seconds() {
            Some(seconds) => seconds,
            None => 0,
        };
        Comment::stamped(content, account, modified_at)
    }

    /// A comment made at the given time.
    pub fn stamped(content: &String, account: &String, modified_at: u64) -> (comment: Comment)
        ensures
            comment@ == (CommentView { content: content@, account: account@, modified_at }),
    {
        Comment { content: content.clone(), account: account.clone(), modified_at }
    }

    /// The comment as it is shown to a reader.
    pub open spec fn spec_description(self) -> Seq<char> {
        "(content: "@ + self.content@ + ", account: "@ + self.account@ + ", modified_at "@
            + decimal_digits(self.modified_at as nat) + ")"@
    }

    /// The comment as it is shown to a reader.
    pub fn description(&self) -> (text: String)
        ensures
            text@ == self.spec_description(),
    {
        let mut text = String::from_str("(content: ");
        text.append(self.content.as_str());
        text.append(", account: ");
        text.append(self.account.as_str());
        text.append(", modified_at ");
        text.append(decimal(self.modified_at).as_str());
        text.append(")");
        text
    }
}

/// All records of one name and type within a zone.
#[derive(Debug, PartialEq, Eq)]
pub struct Rrset {
    pub name: String,
    pub type_id: RrsetType,
    pub changetype: Option<Changetype>,
    pub ttl: Option<u32>,
    pub records: Vec<Record>,
    pub comments: Vec<Comment>,
}

/// What an [`Rrset`] holds.
pub struct RrsetView {
    pub name: Seq<char>,
    pub type_id: RrsetType,
    pub changetype: Option<Changetype>,
    pub ttl: Option<u32>,
    pub records: Seq<RecordView>,
    pub comments: Seq<CommentView>,
}

impl View for Rrset {
    type V = RrsetView;

    open spec fn view(&self) -> RrsetView {
        RrsetView {
            name: self.name@,
            type_id: self.type_id,
            changetype: self.changetype,
            ttl: self.ttl,
            records: self.records.deep_view(),
            comments: self.comments.deep_view(),
        }
    }
}

impl DeepView for Rrset {
    type V = RrsetView;

    open spec fn deep_view(&self) -> RrsetView {
        self@
    }
}

impl Clone for Rrset {
    fn clone(&self) -> (copy: Self)
        ensures
            copy@ == self@,
    {
        Rrset::new(
            &self.name,
            self.type_id,
            &self.changetype,
            &self.ttl,
            &self.records,
            &self.comments,
        )
    }
}

impl Rrset {
    /// A record set with the given parts.
    pub fn new(
        name: &String,
        type_id: RrsetType,
        changetype: &Option<Changetype>,
        ttl: &Option<u32>,
        records: &Vec<Record>,
        comments: &Vec<Comment>,
    ) -> (rrset: Rrset)
        ensures
            rrset@ == (RrsetView {
                name: name@,
                type_id,
                changetype: *changetype,
                ttl: *ttl,
                records: records.deep_view(),
                comments: comments.deep_view(),
            }),
    {
        let records_copy = records.clone();
        let comments_copy = comments.clone();
        assert(records_copy.deep_view() =~= records.deep_view());
        assert(comments_copy.deep_view() =~= comments.deep_view());
        Rrset {
            name: name.clone(),
            type_id,
            changetype: *changetype,
            ttl: *ttl,
            records: records_copy,
            comments: comments_copy,
        }
    }

    /// The change that the record set asks for, as shown to a reader.
    pub open spec fn spec_change(self) -> Changetype {
        match self.changetype {
            Some(change) => change,
            None => Changetype::Unset,
        }
    }

    /// The record set as it is shown to a reader.
    pub open spec fn spec_description(self) -> Seq<char> {
        "(name: "@ + self.name@ + ", type: "@ + self.type_id.spec_description() + ", changetype: "@
            + self.spec_change().spec_description() + ")"@
    }

    /// The record set as it is shown to a reader.
    pub fn description(&self) -> (text: String)
        ensures
            text@ == self.spec_description(),
    {
        let change = match self.changetype {
            Some(change) => change,
            None => Changetype::Unset,
        };
        let mut text = String::from_str("(name: ");
        text.append(self.name.as_str());
        text.append(", type: ");
        text.append(self.type_id.description().as_str());
        text.append(", changetype: ");
        text.append(change.description().as_str());
        text.append(")");
        text
    }
}

/// Each record set of a list as it is shown to a reader.
pub open spec fn rrset_descriptions(rrsets: Seq<Rrset>) -> Seq<Seq<char>> {
    Seq::new(rrsets.len(), |i: int| rrsets[i].spec_description())
}

/// Writes each record set of a list as it is shown to a reader.
pub fn describe_rrsets(rrsets: &Vec<Rrset>) -> (texts: Vec<String>)
    ensures
        texts.deep_view() == rrset_descriptions(rrsets@),
{
    let mut texts: Vec<String> = Vec::new();
    let mut index: usize = 0;
    while index < rrsets.len()
        invariant
            index <= rrsets.len(),
            texts.len() == index,
            forall|k: int| 0 <= k < index ==> texts[k]@ == rrsets[k].spec_description(),
        decreases rrsets.len() - index,
    {
        texts.push(rrsets[index].description());
        index = index + 1;
    }
    assert(texts.deep_view() =~= rrset_descriptions(rrsets@));
    texts
}

/// The body of a change request: the record sets to replace or delete.
#[derive(Clone, Debug, PartialEq, Eq)]
pub struct Rrsets {
    pub rrsets: Vec<Rrset>,
}

impl View for Rrsets {
    type V = Seq<RrsetView>;

    open spec fn view(&self) -> Seq<RrsetView> {
        self.rrsets.deep_view()
    }
}

/// A zone as the server describes it.
#[derive(Clone, Debug)]
pub struct Zone {
    pub id: String,
    pub name: String,
    pub type_id: StructType,
    pub url: String,
    pub kind: ZoneKind,
    pub rrsets: Vec<Rrset>,
    pub serial: u64,
    pub edited_serial: u64,
    pub masters: Vec<String>,
    pub dnssec: bool,
    pub nsec3param: String,
    pub nsec3narrow: bool,
    pub presigned: bool,
    pub soa_edit: String,
    pub soa_edit_api: String,
    pub api_rectify: bool,
    pub zone: Option<String>,
    pub account: Option<String>,
    pub nameservers: Vec<String>,
    pub master_tsig_key_ids: String,
    pub slave_tsig_key_ids: String,
}

impl Zone {
    /// The zone as it is shown to a reader.
    pub open spec fn spec_description(self) -> Seq<char> {
        "(id: "@ + self.id@ + ", name: "@ + self.name@ + ", type: "@
            + self.type_id.spec_description() + ", kind: "@ + self.kind.spec_description()
            + ", url: "@ + self.url@ + ", rrsets: ("@ + joined(
            rrset_descriptions(self.rrsets@),
            ", "@,
        ) + "), serial: "@ + decimal_digits(self.serial as nat) + ",  edited_serial: "@
            + decimal_digits(self.edited_serial as nat) + ", masters: ("@ + joined(
            self.masters.deep_view(),
            ", "@,
        ) + "), dnssec: "@ + bool_text(self.dnssec) + ", nsec3param: "@ + self.nsec3param@
            + ", nsec3narrow: "@ + bool_text(self.nsec3narrow) + ", presigned: "@ + bool_text(
            self.presigned,
        ) + ", soa_edit: "@ + self.soa_edit@ + ", soa_edit_api: "@ + self.soa_edit_api@
            + ", api_rectify: "@ + bool_text(self.api_rectify) + ", zone: "@ + text_or_empty(
            self.zone,
        ) + ", account: "@ + text_or_empty(self.account) + ", nameservers: ("@ + joined(
            self.nameservers.deep_view(),
            ", "@,
        ) + "), master_tsig_key_ids: "@ + self.master_tsig_key_ids@
            + ", slave_tsig_key_ids: "@ + self.slave_tsig_key_ids@ + ")"@
    }

    /// The zone as it is shown to a reader.
    pub fn description(&self) -> (text: String)
        ensures
            text@ == self.spec_description(),
    {
        let mut text = String::from_str("(id: ");
        text.append(self.id.as_str());
        text.append(", name: ");
        text.append(self.name.as_str());
        text.append(", type: ");
        text.append(self.type_id.description().as_str());
        text.append(", kind: ");
        text.append(self.kind.description().as_str());
        text.append(", url: ");
        text.append(self.url.as_str());
        text.append(", rrsets: (");
        text.append(join(&describe_rrsets(&self.rrsets), ", ").as_str());
        text.append("), serial: ");
        text.append(decimal(self.serial).as_str());
        text.append(",  edited_serial: ");
        text.append(decimal(self.edited_serial).as_str());
        text.append(", masters: (");
        text.append(join(&self.masters, ", ").as_str());
        text.append("), dnssec: ");
        text.append(bool_str(self.dnssec));
        text.append(", nsec3param: ");
        text.append(self.nsec3param.as_str());
        text.append(", nsec3narrow: ");
        text.append(bool_str(self.nsec3narrow));
        text.append(", presigned: ");
        text.append(bool_str(self.presigned));
        text.append(", soa_edit: ");
        text.append(self.soa_edit.as_str());
        text.append(", soa_edit_api: ");
        text.append(self.soa_edit_api.as_str());
        text.append(", api_rectify: ");
        text.append(bool_str(self.api_rectify));
        text.append(", zone: ");
        text.append(optional_text(&self.zone).as_str());
        text.append(", account: ");
        text.append(optional_text(&self.account).as_str());
        text.append(", nameservers: (");
        text.append(join(&self.nameservers, ", ").as_str());
        text.append("), master_tsig_key_ids: ");
        text.append(self.master_tsig_key_ids.as_str());
        text.append(", slave_tsig_key_ids: ");
        text.append(self.slave_tsig_key_ids.as_str());
        text.append(")");
        text
    }
}

/// A zone as it appears in the server's list of zones: without its records.
#[derive(Clone, Debug)]
pub struct ListZone {
    pub id: String,
    pub name: String,
    pub type_id: StructType,
    pub url: String,
    pub kind: ZoneKind,
    pub serial: u64,
    pub edited_serial: u64,
    pub masters: Vec<String>,
    pub dnssec: bool,
    pub account: Option<String>,
}

/// The description of a zone that is to be created.
#[derive(Clone, Debug)]
pub struct NewZone {
    pub name: String,
    pub type_id: StructType,
    pub kind: ZoneKind,
    pub rrsets: Vec<Rrset>,
    pub masters: Vec<String>,
    pub dnssec: bool,
    pub nsec3param: Option<String>,
    pub nsec3narrow: bool,
    pub presigned: bool,
    pub nameservers: Vec<String>,
    pub master_tsig_key_ids: Option<String>,
    pub slave_tsig_key_ids: Option<String>,
}

/// What a [`NewZone`] holds.
pub struct NewZoneView {
    pub name: Seq<char>,
    pub type_id: StructType,
    pub kind: ZoneKind,
    pub rrsets: Seq<RrsetView>,
    pub masters: Seq<Seq<char>>,
    pub dnssec: bool,
    pub nsec3param: Option<Seq<char>>,
    pub nsec3narrow: bool,
    pub presigned: bool,
    pub nameservers: Seq<Seq<char>>,
    pub master_tsig_key_ids: Option<Seq<char>>,
    pub slave_tsig_key_ids: Option<Seq<char>>,
}

impl View for NewZone {
    type V = NewZoneView;

    open spec fn view(&self) -> NewZoneView {
        NewZoneView {
            name: self.name@,
            type_id: self.type_id,
            kind: self.kind,
            rrsets: self.rrsets.deep_view(),
            masters: self.masters.deep_view(),
            dnssec: self.dnssec,
            nsec3param: self.nsec3param.deep_view(),
            nsec3narrow: self.nsec3narrow,
            presigned: self.presigned,
            nameservers: self.nameservers.deep_view(),
            master_tsig_key_ids: self.master_tsig_key_ids.deep_view(),
            slave_tsig_key_ids: self.slave_tsig_key_ids.deep_view(),
        }
    }
}

impl NewZone {
    /// The zone that [`NewZone::new`] describes. Without name servers the
    /// zone is a slave of the given masters and starts without records; with
    /// name servers it is native, keeps the records and has no masters.
    pub open spec fn spec_new(
        name: Seq<char>,
        rrsets: Seq<RrsetView>,
        masters: Seq<Seq<char>>,
        nameservers: Seq<Seq<char>>,
        dnssec: bool,
        nsec3param: Option<Seq<char>>,
        nsec3narrow: bool,
        presigned: bool,
        master_tsig_key_ids: Option<Seq<char>>,
        slave_tsig_key_ids: Option<Seq<char>>,
    ) -> NewZoneView {
        if nameservers.len() == 0 {
            NewZoneView {
                name,
                type_id: StructType::Zone,
                kind: ZoneKind::Slave,
                rrsets: Seq::empty(),
                masters,
                dnssec,
                nsec3param,
                nsec3narrow,
                presigned,
                nameservers: Seq::empty(),
                master_tsig_key_ids,
                slave_tsig_key_ids,
            }
        } else {
            NewZoneView {
                name,
                type_id: StructType::Zone,
                kind: ZoneKind::Native,
                rrsets,
                masters: Seq::empty(),
                dnssec,
                nsec3param,
                nsec3narrow,
                presigned,
                nameservers,
                master_tsig_key_ids,
                slave_tsig_key_ids,
            }
        }
    }

    /// The description as it is shown to a reader.
    pub open spec fn spec_description(self) -> Seq<char> {
        "(name: "@ + self.name@ + ", type: "@ + self.type_id.spec_description() + ", kind: "@
            + self.kind.spec_description() + ", rrsets: ("@ + joined(
            rrset_descriptions(self.rrsets@),
            ", "@,
        ) + "), masters: ("@ + joined(self.masters.deep_view(), ", "@) + "), dnssec: "@
            + bool_text(self.dnssec) + ", nsec3param: "@ + text_or_empty(self.nsec3param)
            + ", nsec3narrow: "@ + bool_text(self.nsec3narrow) + ", presigned: "@ + bool_text(
            self.presigned,
        ) + ", nameservers: ("@ + joined(self.nameservers.deep_view(), ", "@)
            + "), master_tsig_key_ids: "@ + text_or_empty(self.master_tsig_key_ids)
            + ", slave_tsig_key_ids: "@ + text_or_empty(self.slave_tsig_key_ids) + ")"@
    }

    /// The description as it is shown to a reader.
    pub fn description(&self) -> (text: String)
        ensures
            text@ == self.spec_description(),
    {
        let mut text = String::from_str("(name: ");
        text.append(self.name.as_str());
        text.append(", type: ");
        text.append(self.type_id.description().as_str());
        text.append(", kind: ");
        text.append(self.kind.description().as_str());
        text.append(", rrsets: (");
        text.append(join(&describe_rrsets(&self.rrsets), ", ").as_str());
        text.append("), masters: (");
        text.append(join(&self.masters, ", ").as_str());
        text.append("), dnssec: ");
        text.append(bool_str(self.dnssec));
        text.append(", nsec3param: ");
        text.append(optional_text(&self.nsec3param).as_str());
        text.append(", nsec3narrow: ");
        text.append(bool_str(self.nsec3narrow));
        text.append(", presigned: ");
        text.append(bool_str(self.presigned));
        text.append(", nameservers: (");
        text.append(join(&self.nameservers, ", ").as_str());
        text.append("), master_tsig_key_ids: ");
        text.append(optional_text(&self.master_tsig_key_ids).as_str());
        text.append(", slave_tsig_key_ids: ");
        text.append(optional_text(&self.slave_tsig_key_ids).as_str());
        text.append(")");
        text
    }

    /// Describes a zone to create.
    pub fn new(
        name: &String,
        rrsets: &Vec<Rrset>,
        masters: &Vec<String>,
        nameservers: &Vec<String>,
        dnssec: bool,
        nsec3param: Option<String>,
        nsec3narrow: bool,
        presigned: bool,
        master_tsig_key_ids: Option<String>,
        slave_tsig_key_ids: Option<String>,
    ) -> (zone: NewZone)
        ensures
            zone@ == Self::spec_new(
                name@,
                rrsets.deep_view(),
                masters.deep_view(),
                nameservers.deep_view(),
                dnssec,
                nsec3param.deep_view(),
                nsec3narrow,
                presigned,
                master_tsig_key_ids.deep_view(),
                slave_tsig_key_ids.deep_view(),
            ),
    {
        if nameservers.len() == 0 {
            let zone = NewZone {
                name: name.clone(),
                type_id: StructType::Zone,
                kind: ZoneKind::Slave,
                rrsets: Vec::new(),
                masters: copy_strings(masters),
                dnssec,
                nsec3param,
                nsec3narrow,
                presigned,
                nameservers: Vec::new(),
                master_tsig_key_ids,
                slave_tsig_key_ids,
            };
            assert(zone.rrsets.deep_view() =~= Seq::empty());
            assert(zone.nameservers.deep_view() =~= Seq::empty());
            zone
        } else {
            let rrsets_copy = rrsets.clone();
            assert(rrsets_copy.deep_view() =~= rrsets.deep_view());
            let zone = NewZone {
                name: name.clone(),
                type_id: StructType::Zone,
                kind: ZoneKind::Native,
                rrsets: rrsets_copy,
                masters: Vec::new(),
                dnssec,
                nsec3param,
                nsec3narrow,
                presigned,
                nameservers: copy_strings(nameservers),
                master_tsig_key_ids,
                slave_tsig_key_ids,
            };
            assert(zone.masters.deep_view() =~= Seq::empty());
            zone
        }
    }
}

} // verus!
