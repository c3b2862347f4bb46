//! From the arguments of the command line to the command that is to be
//! carried out.

use crate::app_config::errors::{AppConfigError, AppConfigErrorKind, UriPart, UriPartView};
use crate::text::{copy_optional_string, copy_strings, parse_u32, parsed_u32, same_text};
use fancy_regex::Regex;
use uriparse::{URIReference, URI};
use vstd::prelude::*;
use vstd::string::*;

verus! {

/// How much the tool reports about what it does.
#[derive(Clone, Copy, Debug, PartialEq, Eq, Structural)]
pub enum LogLevel {
    Warn,
    Info,
    Debug,
    Trace,
}

/// The commands of the tool.
#[derive(Clone, Copy, Debug, PartialEq, Eq, Hash, Structural)]
pub enum CommandKind {
    AddZone,
    RemoveZone,
    QueryZone,
    AddEntry,
    RemoveEntry,
}

/// What a command needs to know, one case for each kind of command.
#[derive(Debug, PartialEq, Eq, Hash)]
pub enum CommandParameters {
    AddZone {
        refresh: u32,
        retry: u32,
        expire: u32,
        neg_caching: u32,
        masters: Vec<String>,
        nameservers: Vec<String>,
        account: String,
    },
    RemoveZone {  },
    QueryZone { output_file: Option<String> },
    AddEntry { record_key: String, record_value: Vec<String>, record_type: String, time_to_live: u32 },
    RemoveEntry { record_key: String, record_type: String },
}

/// What a [`CommandParameters`] holds.
pub enum CommandParametersView {
    AddZone {
        refresh: u32,
        retry: u32,
        expire: u32,
        neg_caching: u32,
        masters: Seq<Seq<char>>,
        nameservers: Seq<Seq<char>>,
        account: Seq<char>,
    },
    RemoveZone,
    QueryZone { output_file: Option<Seq<char>> },
    AddEntry {
        record_key: Seq<char>,
        record_value: Seq<Seq<char>>,
        record_type: Seq<char>,
        time_to_live: u32,
    },
    RemoveEntry { record_key: Seq<char>, record_type: Seq<char> },
}

impl View for CommandParameters {
    type V = CommandParametersView;

    open spec fn view(&self) -> CommandParametersView {
        match self {
            CommandParameters::AddZone {
                refresh,
                retry,
                expire,
                neg_caching,
                masters,
                nameservers,
                account,
            } => CommandParametersView::AddZone {
                refresh: *refresh,
                retry: *retry,
                expire: *expire,
                neg_caching: *neg_caching,
                masters: masters.deep_view(),
                nameservers: nameservers.deep_view(),
                account: account@,
            },
            CommandParameters::RemoveZone {  } => CommandParametersView::RemoveZone,
            CommandParameters::QueryZone { output_file } => CommandParametersView::QueryZone {
                output_file: output_file.deep_view(),
            },
            CommandParameters::AddEntry { record_key, record_value, record_type, time_to_live } =>
                CommandParametersView::AddEntry {
                    record_key: record_key@,
                    record_value: record_value.deep_view(),
                    record_type: record_type@,
                    time_to_live: *time_to_live,
                },
            CommandParameters::RemoveEntry { record_key, record_type } =>
                CommandParametersView::RemoveEntry {
                    record_key: record_key@,
                    record_type: record_type@,
                },
        }
    }
}

impl Clone for CommandParameters {
    fn clone(&self) -> (copy: Self)
        ensures
            copy@ == self@,
    {
        match self {
            CommandParameters::AddZone {
                refresh,
                retry,
                expire,
                neg_caching,
                masters,
                nameservers,
                account,
            } => CommandParameters::AddZone {
                refresh: *refresh,
                retry: *retry,
                expire: *expire,
                neg_caching: *neg_caching,
                masters: copy_strings(masters),
                nameservers: copy_strings(nameservers),
                account: account.clone(),
            },
            CommandParameters::RemoveZone {  } => CommandParameters::RemoveZone {  },
            CommandParameters::QueryZone { output_file } => CommandParameters::QueryZone {
                output_file: copy_optional_string(output_file),
            },
            CommandParameters::AddEntry { record_key, record_value, record_type, time_to_live } =>
                CommandParameters::AddEntry {
                    record_key: record_key.clone(),
                    record_value: copy_strings(record_value),
                    record_type: record_type.clone(),
                    time_to_live: *time_to_live,
                },
            CommandParameters::RemoveEntry { record_key, record_type } =>
                CommandParameters::RemoveEntry {
                    record_key: record_key.clone(),
                    record_type: record_type.clone(),
                },
        }
    }
}

/// A command: its kind and what it needs to know.
#[derive(Debug, PartialEq, Eq, Hash)]
pub struct Command {
    kind: CommandKind,
    parameters: CommandParameters,
}

/// What a [`Command`] holds.
pub struct CommandView {
    pub kind: CommandKind,
    pub parameters: CommandParametersView,
}

impl View for Command {
    type V = CommandView;

    closed spec fn view(&self) -> CommandView {
        CommandView { kind: self.kind, parameters: self.parameters@ }
    }
}

impl Clone for Command {
    fn clone(&self) -> (copy: Self)
        ensures
            copy@ == self@,
    {
        Command { kind: self.kind, parameters: self.parameters.clone() }
    }
}

impl Command {
    /// A command of the given kind.
    pub fn new(kind: CommandKind, parameters: CommandParameters) -> (command: Command)
        ensures
            command@ == (CommandView { kind, parameters: parameters@ }),
            command.spec_parameters() == parameters,
    {
        Command { kind, parameters }
    }

    /// The parameters themselves.
    pub closed spec fn spec_parameters(&self) -> CommandParameters {
        self.parameters
    }

    pub fn kind(&self) -> (kind: CommandKind)
        ensures
            kind == self@.kind,
    {
        self.kind
    }

    pub fn parameters(&self) -> (parameters: CommandParameters)
        ensures
            parameters@ == self@.parameters,
    {
        self.parameters.clone()
    }

    /// The parameters, without copying them.
    pub fn parameters_ref(&self) -> (parameters: &CommandParameters)
        ensures
            *parameters == self.spec_parameters(),
            parameters@ == self@.parameters,
    {
        &self.parameters
    }
}

/// The parts of a URI, each as the URI writes it.
#[derive(Clone, Debug, PartialEq, Eq)]
pub struct UriParts {
    /// The URI as a whole.
    pub text: String,
    pub scheme: String,
    pub username: Option<String>,
    pub password: Option<String>,
    pub path: String,
    pub query: Option<String>,
    pub fragment: Option<String>,
}

/// What a [`UriParts`] holds.
pub struct UriPartsView {
    pub text: Seq<char>,
    pub scheme: Seq<char>,
    pub username: Option<Seq<char>>,
    pub password: Option<Seq<char>>,
    pub path: Seq<char>,
    pub query: Option<Seq<char>>,
    pub fragment: Option<Seq<char>>,
}

impl View for UriParts {
    type V = UriPartsView;

    open spec fn view(&self) -> UriPartsView {
        UriPartsView {
            text: self.text@,
            scheme: self.scheme@,
            username: self.username.deep_view(),
            password: self.password.deep_view(),
            path: self.path@,
            query: self.query.deep_view(),
            fragment: self.fragment.deep_view(),
        }
    }
}

/// The form of a zone name: labels of letters, digits and hyphens that
/// neither begin nor end with a hyphen, each followed by a dot, and a top
/// level of two to six letters.
pub open spec fn zone_name_pattern() -> Seq<char> {
    "^((?!-)[A-Za-z0-9-]{1,63}(?<!-)\\.)+[A-Za-z]{2,6}$"@
}

/// What `uriparse` makes of a text: the parts of the URI that it is, or the
/// parser's complaint where it is none.
pub uninterp spec fn parsed_uri(text: Seq<char>) -> Result<UriPartsView, Seq<char>>;

/// What `fancy_regex` answers when the pattern is matched against the text:
/// whether it matches, or the engine's complaint where the pattern cannot be
/// compiled or the match cannot be decided.
pub uninterp spec fn regex_match(pattern: Seq<char>, text: Seq<char>) -> Result<bool, Seq<char>>;

/// Parses the text with `uriparse::URIReference::try_from` and turns the
/// reference into a URI with `uriparse::URI::try_from`. Each part is written
/// with its `Display`; a failure of either step is the error's `Display`. The
/// contract claims only that the result is a function of the text, named
/// [`parsed_uri`].
#[verifier::external_body]
fn parse_uri(text: &str) -> (result: Result<UriParts, String>)
    ensures
        match parsed_uri(text@) {
            Ok(parts) => result matches Ok(found) && found@ == parts,
            Err(complaint) => result matches Err(message) && message@ == complaint,
        },
{
    let reference = URIReference::try_from(text).map_err(|error| error.to_string())?;
    let uri = URI::try_from(reference).map_err(|error| error.to_string())?;
    Ok(
        UriParts {
            text: uri.to_string(),
            scheme: uri.scheme().to_string(),
            username: uri.username().map(|part| part.to_string()),
            password: uri.password().map(|part| part.to_string()),
            path: uri.path().to_string(),
            query: uri.query().map(|part| part.to_string()),
            fragment: uri.fragment().map(|part| part.to_string()),
        },
    )
}

/// Compiles the pattern with `fancy_regex::Regex::new` and matches it with
/// `Regex::is_match`. A failure of either step is the error's `Display`. The
/// contract claims only that the result is a function of pattern and text,
/// named [`regex_match`], and only for the pattern of zone names.
#[verifier::external_body]
fn regex_is_match(pattern: &str, text: &str) -> (result: Result<bool, String>)
    requires
        pattern@ == zone_name_pattern(),
    ensures
        match regex_match(pattern@, text@) {
            Ok(matched) => result == Ok::<bool, String>(matched),
            Err(complaint) => result matches Err(message) && message@ == complaint,
        },
{
    match Regex::new(pattern) {
        Ok(regex) => match regex.is_match(text) {
            Ok(matched) => Ok(matched),
            Err(error) => Err(error.to_string()),
        },
        Err(error) => Err(error.to_string()),
    }
}

/// The part of a base URI that keeps it from being one, if there is any. A
/// base URI has the scheme `http` or `https`, names no user and no password,
/// has the path `/` and neither query nor fragment. The first offence in
/// this order is reported.
pub open spec fn offending_part(uri: UriPartsView) -> Option<UriPartView> {
    if uri.scheme != "http"@ && uri.scheme != "https"@ {
        Some(UriPartView::Scheme { scheme: uri.scheme })
    } else if uri.username is Some {
        Some(UriPartView::Username { user: uri.username->0 })
    } else if uri.password is Some {
        Some(UriPartView::Password { password: uri.password->0 })
    } else if uri.path != "/"@ {
        Some(UriPartView::Path { path: uri.path })
    } else if uri.query is Some {
        Some(UriPartView::Query { query: uri.query->0 })
    } else if uri.fragment is Some {
        Some(UriPartView::Fragment { fragment: uri.fragment->0 })
    } else {
        None
    }
}

/// Tells whether `result` is the verdict on a URI as base URI: acceptance
/// where no part offends, else the refusal that names the URI and the part.
pub open spec fn is_base_uri_verdict(uri: UriPartsView, result: Result<(), AppConfigError>)
    -> bool {
    match offending_part(uri) {
        None => result is Ok,
        Some(part) => result matches Err(error) && error.kind
            matches AppConfigErrorKind::InvalidUriPart { base_uri, uri_part } && base_uri@
            == uri.text && uri_part@ == part,
    }
}

/// Checks that a URI can serve as base URI, as [`offending_part`] says.
pub fn verify_base_uri(base_uri: &UriParts) -> (result: Result<(), AppConfigError>)
    ensures
        is_base_uri_verdict(base_uri@, result),
{
    if !same_text(base_uri.scheme.as_str(), "http") && !same_text(
        base_uri.scheme.as_str(),
        "https",
    ) {
        return Err(
            AppConfigError::on_invalid_uri_part(
                &base_uri.text,
                &UriPart::Scheme { scheme: base_uri.scheme.clone() },
            ),
        );
    }
    match &base_uri.username {
        Some(user) => {
            return Err(
                AppConfigError::on_invalid_uri_part(
                    &base_uri.text,
                    &UriPart::Username { user: user.clone() },
                ),
            );
        },
        None => {},
    }
    match &base_uri.password {
        Some(password) => {
            return Err(
                AppConfigError::on_invalid_uri_part(
                    &base_uri.text,
                    &UriPart::Password { password: password.clone() },
                ),
            );
        },
        None => {},
    }
    if !same_text(base_uri.path.as_str(), "/") {
        return Err(
            AppConfigError::on_invalid_uri_part(
                &base_uri.text,
                &UriPart::Path { path: base_uri.path.clone() },
            ),
        );
    }
    match &base_uri.query {
        Some(query) => {
            return Err(
                AppConfigError::on_invalid_uri_part(
                    &base_uri.text,
                    &UriPart::Query { query: query.clone() },
                ),
            );
        },
        None => {},
    }
    match &base_uri.fragment {
        Some(fragment) => Err(
            AppConfigError::on_invalid_uri_part(
                &base_uri.text,
                &UriPart::Fragment { fragment: fragment.clone() },
            ),
        ),
        None => Ok(()),
    }
}

/// Takes a text apart as a URI. A text that is none is refused with the
/// parser's complaint.
pub fn parse_base_uri(value: &str) -> (result: Result<UriParts, AppConfigError>)
    ensures
        match parsed_uri(value@) {
            Ok(parts) => result matches Ok(found) && found@ == parts,
            Err(complaint) => result matches Err(error) && error.kind
                matches AppConfigErrorKind::MalformedBaseUri { base_uri, parser_error }
                && base_uri@ == value@ && parser_error@ == complaint,
        },
{
    match parse_uri(value) {
        Ok(parts) => Ok(parts),
        Err(message) => Err(
            AppConfigError::on_malformed_base_uri(&String::from_str(value), &message),
        ),
    }
}

/// Checks the value of the base URI option: it has to be a URI, and one that
/// [`verify_base_uri`] accepts.
pub fn validate_base_uri(value: &str) -> (result: Result<(), AppConfigError>)
    ensures
        match parsed_uri(value@) {
            Ok(parts) => is_base_uri_verdict(parts, result),
            Err(complaint) => result matches Err(error) && error.kind
                matches AppConfigErrorKind::MalformedBaseUri { base_uri, parser_error }
                && base_uri@ == value@ && parser_error@ == complaint,
        },
{
    match parse_base_uri(value) {
        Ok(uri) => verify_base_uri(&uri),
        Err(error) => Err(error),
    }
}

/// What the outcome of matching a zone name against the pattern means for
/// the name: it is accepted where the pattern matches, refused without
/// reason where it does not, and refused with the engine's complaint where
/// the match could not be decided.
pub open spec fn zone_name_refusal(matched: Result<bool, Seq<char>>) -> Option<Seq<char>> {
    match matched {
        Ok(true) => None,
        Ok(false) => Some(Seq::empty()),
        Err(complaint) => Some(complaint),
    }
}

/// Judges a zone name by the outcome of matching it against the pattern.
pub fn zone_name_verdict(value: &str, matched: Result<bool, String>) -> (result: Result<
    (),
    AppConfigError,
>)
    ensures
        match zone_name_refusal(
            match matched {
                Ok(answer) => Ok(answer),
                Err(complaint) => Err(complaint@),
            },
        ) {
            None => result is Ok,
            Some(why) => result matches Err(error) && error.kind
                matches AppConfigErrorKind::MalformedZoneName { zone_name, reason } && zone_name@
                == value@ && reason@ == why,
        },
{
    match matched {
        Ok(true) => Ok(()),
        Ok(false) => Err(
            AppConfigError::on_malformed_zone_name(&String::from_str(value), &String::new()),
        ),
        Err(complaint) => Err(
            AppConfigError::on_malformed_zone_name(&String::from_str(value), &complaint),
        ),
    }
}

/// Checks the value of the zone name option against the form of a zone name.
pub fn verify_zone_name(value: &str) -> (result: Result<(), AppConfigError>)
    ensures
        match zone_name_refusal(regex_match(zone_name_pattern(), value@)) {
            None => result is Ok,
            Some(why) => result matches Err(error) && error.kind
                matches AppConfigErrorKind::MalformedZoneName { zone_name, reason } && zone_name@
                == value@ && reason@ == why,
        },
{
    let matched = regex_is_match("^((?!-)[A-Za-z0-9-]{1,63}(?<!-)\\.)+[A-Za-z]{2,6}$", value);
    zone_name_verdict(value, matched)
}

/// Checks that a value is a positive number.
pub fn is_u32(value: &str) -> (result: Result<(), AppConfigError>)
    ensures
        match positive_number(value@) {
            Some(_) => result is Ok,
            None => result matches Err(error) && error.kind
                matches AppConfigErrorKind::MalformedNumber { number } && number@ == value@,
        },
{
    match parse_u32(value) {
        Some(number) => {
            if number > 0 {
                return Ok(());
            }
        },
        None => {},
    }
    Err(AppConfigError::on_malformed_number(&String::from_str(value)))
}

/// Tells whether a text names a record type that can be given on the
/// command line.
pub open spec fn is_record_type(value: Seq<char>) -> bool {
    value == "A"@ || value == "AAAA"@ || value == "PTR"@ || value == "CNAME"@ || value == "SRV"@
        || value == "TXT"@
}

/// Checks that a value names a record type that can be given on the command
/// line.
pub fn is_valid_record_type(value: &str) -> (result: Result<(), AppConfigError>)
    ensures
        if is_record_type(value@) {
            result is Ok
        } else {
            result matches Err(error) && error.kind
                matches AppConfigErrorKind::MalformedRecordType { record_type } && record_type@
                == value@
        },
{
    if same_text(value, "A") || same_text(value, "AAAA") || same_text(value, "PTR") || same_text(
        value,
        "CNAME",
    ) || same_text(value, "SRV") || same_text(value, "TXT") {
        Ok(())
    } else {
        Err(AppConfigError::on_malformed_record_type(&String::from_str(value)))
    }
}

/// The sub-command that the user gave, with its options as they were typed.
#[derive(Debug, PartialEq, Eq)]
pub enum ParsedSubcommand {
    AddZone {
        refresh: Option<String>,
        retry: Option<String>,
        expire: Option<String>,
        neg_caching: Option<String>,
        masters: Vec<String>,
        nameservers: Vec<String>,
        account: Option<String>,
    },
    QueryZone { output_file: Option<String> },
    RemoveZone,
    AddEntry {
        record_key: String,
        record_type: String,
        record_value: Vec<String>,
        time_to_live: Option<String>,
    },
    RemoveEntry { record_key: String, record_type: String },
}

/// The command line after it was taken apart.
#[derive(Debug, PartialEq, Eq)]
pub struct ParsedArguments {
    pub base_uri: String,
    pub api_key: String,
    pub zone_name: String,
    /// How often the user asked for more output.
    pub verbosity: u64,
    pub subcommand: Option<ParsedSubcommand>,
}

/// What the tool was asked to do, and where.
pub struct ApplicationConfiguration {
    base_uri: String,
    api_key: String,
    log_level: LogLevel,
    zone_name: String,
    command: Command,
}

/// What an [`ApplicationConfiguration`] holds.
pub struct ApplicationConfigurationView {
    pub base_uri: Seq<char>,
    pub api_key: Seq<char>,
    pub log_level: LogLevel,
    pub zone_name: Seq<char>,
    pub command: CommandView,
}

impl View for ApplicationConfiguration {
    type V = ApplicationConfigurationView;

    closed spec fn view(&self) -> ApplicationConfigurationView {
        ApplicationConfigurationView {
            base_uri: self.base_uri@,
            api_key: self.api_key@,
            log_level: self.log_level,
            zone_name: self.zone_name@,
            command: self.command@,
        }
    }
}

/// The level of reporting that the user asked for.
pub open spec fn log_level_of(verbosity: u64) -> LogLevel {
    if verbosity == 0 {
        LogLevel::Warn
    } else if verbosity == 1 {
        LogLevel::Info
    } else if verbosity == 2 {
        LogLevel::Debug
    } else {
        LogLevel::Trace
    }
}

/// The positive number that a text stands for, if it stands for one.
pub open spec fn positive_number(text: Seq<char>) -> Option<u32> {
    match parsed_u32(text) {
        Some(number) => if number > 0 {
            Some(number)
        } else {
            None
        },
        None => None,
    }
}

/// The number that an option gives: a positive number, or nothing where the
/// option is absent or holds something else.
pub open spec fn given_number(value: Option<String>) -> Option<u32> {
    match value {
        Some(text) => positive_number(text@),
        None => None,
    }
}

/// A timer as the user gave it, or the default where the user gave none.
pub open spec fn timer_or(value: Option<String>, default: u32) -> u32 {
    match given_number(value) {
        Some(number) => number,
        None => default,
    }
}

/// The command that a sub-command stands for. Timers that were not given
/// fall back to an hour, half an hour, a week and ten minutes; the account
/// falls back to `root`, the time to live to an hour.
pub open spec fn command_of(subcommand: ParsedSubcommand) -> CommandView {
    match subcommand {
        ParsedSubcommand::AddZone {
            refresh,
            retry,
            expire,
            neg_caching,
            masters,
            nameservers,
            account,
        } => CommandView {
            kind: CommandKind::AddZone,
            parameters: CommandParametersView::AddZone {
                refresh: timer_or(refresh, 3600),
                retry: timer_or(retry, 1800),
                expire: timer_or(expire, 604800),
                neg_caching: timer_or(neg_caching, 600),
                masters: masters.deep_view(),
                nameservers: nameservers.deep_view(),
                account: match account {
                    Some(name) => name@,
                    None => "root"@,
                },
            },
        },
        ParsedSubcommand::QueryZone { output_file } => CommandView {
            kind: CommandKind::QueryZone,
            parameters: CommandParametersView::QueryZone { output_file: output_file.deep_view() },
        },
        ParsedSubcommand::RemoveZone => CommandView {
            kind: CommandKind::RemoveZone,
            parameters: CommandParametersView::RemoveZone,
        },
        ParsedSubcommand::AddEntry { record_key, record_type, record_value, time_to_live } =>
            CommandView {
                kind: CommandKind::AddEntry,
                parameters: CommandParametersView::AddEntry {
                    record_key: record_key@,
                    record_value: record_value.deep_view(),
                    record_type: record_type@,
                    time_to_live: timer_or(time_to_live, 3600),
                },
            },
        ParsedSubcommand::RemoveEntry { record_key, record_type } => CommandView {
            kind: CommandKind::RemoveEntry,
            parameters: CommandParametersView::RemoveEntry {
                record_key: record_key@,
                record_type: record_type@,
            },
        },
    }
}

/// Reads the number that an option gives.
pub fn arg_u32(value: &Option<String>) -> (number: Option<u32>)
    ensures
        number == given_number(*value),
{
    match value {
        Some(text) => match parse_u32(text.as_str()) {
            Some(number) => if number > 0 {
                Some(number)
            } else {
                None
            },
            None => None,
        },
        None => None,
    }
}

fn timer(value: &Option<String>, default: u32) -> (number: u32)
    ensures
        number == timer_or(*value, default),
{
    match arg_u32(value) {
        Some(number) => number,
        None => default,
    }
}

fn command_for(subcommand: ParsedSubcommand) -> (command: Command)
    ensures
        command@ == command_of(subcommand),
{
    match subcommand {
        ParsedSubcommand::AddZone {
            refresh,
            retry,
            expire,
            neg_caching,
            masters,
            nameservers,
            account,
        } => Command::new(
            CommandKind::AddZone,
            CommandParameters::AddZone {
                refresh: timer(&refresh, 3600),
                retry: timer(&retry, 1800),
                expire: timer(&expire, 604800),
                neg_caching: timer(&neg_caching, 600),
                masters,
                nameservers,
                account: match account {
                    Some(name) => name,
                    None => String::from_str("root"),
                },
            },
        ),
        ParsedSubcommand::QueryZone { output_file } => Command::new(
            CommandKind::QueryZone,
            CommandParameters::QueryZone { output_file },
        ),
        ParsedSubcommand::RemoveZone => Command::new(
            CommandKind::RemoveZone,
            CommandParameters::RemoveZone {  },
        ),
        ParsedSubcommand::AddEntry { record_key, record_type, record_value, time_to_live } =>
            Command::new(
                CommandKind::AddEntry,
                CommandParameters::AddEntry {
                    record_key,
                    record_value,
                    record_type,
                    time_to_live: timer(&time_to_live, 3600),
                },
            ),
        ParsedSubcommand::RemoveEntry { record_key, record_type } => Command::new(
            CommandKind::RemoveEntry,
            CommandParameters::RemoveEntry { record_key, record_type },
        ),
    }
}

impl ApplicationConfiguration {
    /// Turns the arguments into the configuration of the tool. A command
    /// line without sub-command is refused.
    pub fn process_command_line(arguments: ParsedArguments) -> (result: Result<
        ApplicationConfiguration,
        AppConfigError,
    >)
        ensures
            match arguments.subcommand {
                Some(subcommand) => result matches Ok(configuration) && configuration@ == (
                ApplicationConfigurationView {
                    base_uri: arguments.base_uri@,
                    api_key: arguments.api_key@,
                    log_level: log_level_of(arguments.verbosity),
                    zone_name: arguments.zone_name@,
                    command: command_of(subcommand),
                }),
                None => result matches Err(error) && error.kind
                    == AppConfigErrorKind::MissingCommand,
            },
    {
        let level = if arguments.verbosity == 0 {
            LogLevel::Warn
        } else if arguments.verbosity == 1 {
            LogLevel::Info
        } else if arguments.verbosity == 2 {
            LogLevel::Debug
        } else {
            LogLevel::Trace
        };
        match arguments.subcommand {
            Some(subcommand) => Ok(
                ApplicationConfiguration {
                    base_uri: arguments.base_uri,
                    api_key: arguments.api_key,
                    log_level: level,
                    zone_name: arguments.zone_name,
                    command: command_for(subcommand),
                },
            ),
            None => Err(AppConfigError::on_missing_command()),
        }
    }

    /// The URI under which the server's interface lies.
    pub fn base_uri(&self) -> (base_uri: String)
        ensures
            base_uri@ == self@.base_uri,
    {
        self.base_uri.clone()
    }

    pub fn api_key(&self) -> (api_key: String)
        ensures
            api_key@ == self@.api_key,
    {
        self.api_key.clone()
    }

    pub fn zone_name(&self) -> (zone_name: String)
        ensures
            zone_name@ == self@.zone_name,
    {
        self.zone_name.clone()
    }

    pub fn command(&self) -> (command: Command)
        ensures
            command@ == self@.command,
    {
        self.command.clone()
    }

    pub fn log_level(&self) -> (log_level: LogLevel)
        ensures
            log_level == self@.log_level,
    {
        self.log_level
    }
}

} // verus!
