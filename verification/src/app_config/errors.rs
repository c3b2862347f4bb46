//! What can be wrong with the command line.

use vstd::prelude::*;
use vstd::string::*;

verus! {

/// A part of a base URI that must not be there, or must not be what it is.
#[derive(Debug, PartialEq, Eq)]
pub enum UriPart {
    Scheme { scheme: String },
    Username { user: String },
    Password { password: String },
    Path { path: String },
    Query { query: String },
    Fragment { fragment: String },
}

/// What a [`UriPart`] holds.
pub enum UriPartView {
    Scheme { scheme: Seq<char> },
    Username { user: Seq<char> },
    Password { password: Seq<char> },
    Path { path: Seq<char> },
    Query { query: Seq<char> },
    Fragment { fragment: Seq<char> },
}

impl View for UriPart {
    type V = UriPartView;

    open spec fn view(&self) -> UriPartView {
        match self {
            UriPart::Scheme { scheme } => UriPartView::Scheme { scheme: scheme@ },
            UriPart::Username { user } => UriPartView::Username { user: user@ },
            UriPart::Password { password } => UriPartView::Password { password: password@ },
            UriPart::Path { path } => UriPartView::Path { path: path@ },
            UriPart::Query { query } => UriPartView::Query { query: query@ },
            UriPart::Fragment { fragment } => UriPartView::Fragment { fragment: fragment@ },
        }
    }
}

/// What is wrong.
#[derive(Debug, PartialEq, Eq)]
pub enum AppConfigErrorKind {
    MalformedBaseUri { base_uri: String, parser_error: String },
    InvalidUriPart { base_uri: String, uri_part: UriPart },
    MalformedZoneName { zone_name: String, reason: String },
    MalformedNumber { number: String },
    MalformedRecordType { record_type: String },
    MissingCommand,
}

/// A command line that cannot be used.
#[derive(Debug, PartialEq, Eq)]
pub struct AppConfigError {
    pub kind: AppConfigErrorKind,
}

impl Clone for UriPart {
    fn clone(&self) -> (copy: Self)
        ensures
            copy == *self,
    {
        match self {
            UriPart::Scheme { scheme } => UriPart::Scheme { scheme: scheme.clone() },
            UriPart::Username { user } => UriPart::Username { user: user.clone() },
            UriPart::Password { password } => UriPart::Password { password: password.clone() },
            UriPart::Path { path } => UriPart::Path { path: path.clone() },
            UriPart::Query { query } => UriPart::Query { query: query.clone() },
            UriPart::Fragment { fragment } => UriPart::Fragment { fragment: fragment.clone() },
        }
    }
}

impl UriPart {
    /// The complaint about the part, as it is shown to the user.
    pub open spec fn spec_description(self) -> Seq<char> {
        match self {
            UriPart::Scheme { scheme } => "Invalid URI scheme '"@ + scheme@ + "'"@,
            UriPart::Username { user } => "Non-Empty URI user name '"@ + user@ + "'"@,
            UriPart::Password { password } => "Non-Empty URI password '"@ + password@ + "'"@,
            UriPart::Path { path } => "Non-empty URI path '"@ + path@ + "'"@,
            UriPart::Query { query } => "Non-empty query '"@ + query@ + "'"@,
            UriPart::Fragment { fragment } => "Non-empty fragment '"@ + fragment@ + "'"@,
        }
    }

    /// The complaint about the part, as it is shown to the user.
    pub fn description(&self) -> (text: String)
        ensures
            text@ == self.spec_description(),
    {
        let (opening, part) = match self {
            UriPart::Scheme { scheme } => ("Invalid URI scheme '", scheme),
            UriPart::Username { user } => ("Non-Empty URI user name '", user),
            UriPart::Password { password } => ("Non-Empty URI password '", password),
            UriPart::Path { path } => ("Non-empty URI path '", path),
            UriPart::Query { query } => ("Non-empty query '", query),
            UriPart::Fragment { fragment } => ("Non-empty fragment '", fragment),
        };
        let mut text = String::from_str(opening);
        text.append(part.as_str());
        text.append("'");
        text
    }
}

impl AppConfigErrorKind {
    pub fn on_malformed_base_uri(base_uri: &String, parser_error: &String) -> (kind:
        AppConfigErrorKind)
        ensures
            kind == (AppConfigErrorKind::MalformedBaseUri {
                base_uri: *base_uri,
                parser_error: *parser_error,
            }),
    {
        AppConfigErrorKind::MalformedBaseUri {
            base_uri: base_uri.clone(),
            parser_error: parser_error.clone(),
        }
    }

    pub fn on_invalid_uri_part(base_uri: &String, uri_part: &UriPart) -> (kind: AppConfigErrorKind)
        ensures
            kind == (AppConfigErrorKind::InvalidUriPart {
                base_uri: *base_uri,
                uri_part: *uri_part,
            }),
    {
        AppConfigErrorKind::InvalidUriPart {
            base_uri: base_uri.clone(),
            uri_part: uri_part.clone(),
        }
    }

    pub fn on_malformed_zone_name(zone_name: &String, reason: &String) -> (kind:
        AppConfigErrorKind)
        ensures
            kind == (AppConfigErrorKind::MalformedZoneName {
                zone_name: *zone_name,
                reason: *reason,
            }),
    {
        AppConfigErrorKind::MalformedZoneName {
            zone_name: zone_name.clone(),
            reason: reason.clone(),
        }
    }

    pub fn on_malformed_number(number: &String) -> (kind: AppConfigErrorKind)
        ensures
            kind == (AppConfigErrorKind::MalformedNumber { number: *number }),
    {
        AppConfigErrorKind::MalformedNumber { number: number.clone() }
    }

    pub fn on_malformed_record_type(record_type: &String) -> (kind: AppConfigErrorKind)
        ensures
            kind == (AppConfigErrorKind::MalformedRecordType { record_type: *record_type }),
    {
        AppConfigErrorKind::MalformedRecordType { record_type: record_type.clone() }
    }
}

impl AppConfigError {
    /// The base URI is no URI; `parser_error` says why.
    pub fn on_malformed_base_uri(base_uri: &String, parser_error: &String) -> (error:
        AppConfigError)
        ensures
            error.kind == (AppConfigErrorKind::MalformedBaseUri {
                base_uri: *base_uri,
                parser_error: *parser_error,
            }),
    {
        AppConfigError { kind: AppConfigErrorKind::on_malformed_base_uri(base_uri, parser_error) }
    }

    /// The base URI holds a part that it must not hold.
    pub fn on_invalid_uri_part(base_uri: &String, uri_part: &UriPart) -> (error: AppConfigError)
        ensures
            error.kind == (AppConfigErrorKind::InvalidUriPart {
                base_uri: *base_uri,
                uri_part: *uri_part,
            }),
    {
        AppConfigError { kind: AppConfigErrorKind::on_invalid_uri_part(base_uri, uri_part) }
    }

    /// The zone name is no domain name.
    pub fn on_malformed_zone_name(zone_name: &String, reason: &String) -> (error: AppConfigError)
        ensures
            error.kind == (AppConfigErrorKind::MalformedZoneName {
                zone_name: *zone_name,
                reason: *reason,
            }),
    {
        AppConfigError { kind: AppConfigErrorKind::on_malformed_zone_name(zone_name, reason) }
    }

    /// No command was given.
    pub fn on_missing_command() -> (error: AppConfigError)
        ensures
            error.kind == AppConfigErrorKind::MissingCommand,
    {
        AppConfigError { kind: AppConfigErrorKind::MissingCommand }
    }

    /// A value is no positive number.
    pub fn on_malformed_number(number: &String) -> (error: AppConfigError)
        ensures
            error.kind == (AppConfigErrorKind::MalformedNumber { number: *number }),
    {
        AppConfigError { kind: AppConfigErrorKind::on_malformed_number(number) }
    }

    /// A value names no record type that the tool handles.
    pub fn on_malformed_record_type(record_type: &String) -> (error: AppConfigError)
        ensures
            error.kind == (AppConfigErrorKind::MalformedRecordType { record_type: *record_type }),
    {
        AppConfigError { kind: AppConfigErrorKind::on_malformed_record_type(record_type) }
    }

    /// The complaint, as it is shown to the user.
    pub open spec fn spec_description(self) -> Seq<char> {
        match self.kind {
            AppConfigErrorKind::MalformedBaseUri { base_uri, parser_error } =>
                "Malformed base URI '"@ + base_uri@ + "': "@ + parser_error@,
            AppConfigErrorKind::InvalidUriPart { base_uri, uri_part } => "Base URI '"@ + base_uri@
                + "' contains unexpected part: "@ + uri_part.spec_description(),
            AppConfigErrorKind::MalformedZoneName { zone_name, reason } => "Malformed zone name "@
                + zone_name@ + ": "@ + reason@,
            AppConfigErrorKind::MissingCommand => "Command missing"@,
            AppConfigErrorKind::MalformedNumber { number } => "Malformed number: "@ + number@,
            AppConfigErrorKind::MalformedRecordType { record_type } => "Malformed record type: "@
                + record_type@,
        }
    }

    /// The complaint, as it is shown to the user.
    pub fn description(&self) -> (text: String)
        ensures
            text@ == self.spec_description(),
    {
        match &self.kind {
            AppConfigErrorKind::MalformedBaseUri { base_uri, parser_error } => {
                let mut text = String::from_str("Malformed base URI '");
                text.append(base_uri.as_str());
                text.append("': ");
                text.append(parser_error.as_str());
                text
            },
            AppConfigErrorKind::InvalidUriPart { base_uri, uri_part } => {
                let mut text = String::from_str("Base URI '");
                text.append(base_uri.as_str());
                text.append("' contains unexpected part: ");
                text.append(uri_part.description().as_str());
                text
            },
            AppConfigErrorKind::MalformedZoneName { zone_name, reason } => {
                let mut text = String::from_str("Malformed zone name ");
                text.append(zone_name.as_str());
                text.append(": ");
                text.append(reason.as_str());
                text
            },
            AppConfigErrorKind::MissingCommand => String::from_str("Command missing"),
            AppConfigErrorKind::MalformedNumber { number } => {
                let mut text = String::from_str("Malformed number: ");
                text.append(number.as_str());
                text
            },
            AppConfigErrorKind::MalformedRecordType { record_type } => {
                let mut text = String::from_str("Malformed record type: ");
                text.append(record_type.as_str());
                text
            },
        }
    }
}

} // verus!
