//! The server's description of itself.

use crate::pdns::struct_type::StructType;
use vstd::prelude::*;
use vstd::string::*;

verus! {

/// The role that a DNS daemon plays. Only an authoritative daemon owns zones.
#[derive(Clone, Copy, Debug, PartialEq, Eq, Structural)]
pub enum DaemonType {
    Recursor,
    Authoritative,
}

impl DaemonType {
    /// The role as it is shown to a reader.
    pub open spec fn spec_description(self) -> Seq<char> {
        match self {
            DaemonType::Authoritative => "AUTHORATIVE"@,
            DaemonType::Recursor => "RECURSOR"@,
        }
    }

    /// The role as it is shown to a reader.
    pub fn description(&self) -> (text: String)
        ensures
            text@ == self.spec_description(),
    {
        match self {
            DaemonType::Authoritative => String::from_str("AUTHORATIVE"),
            DaemonType::Recursor => String::from_str("RECURSOR"),
        }
    }
}

/// What the server reports about itself.
#[derive(Debug)]
pub struct Server {
    pub type_id: StructType,
    pub id: String,
    pub daemon_type: DaemonType,
    pub version: String,
    pub url: String,
    pub config_url: String,
    pub zones_url: String,
}

impl Clone for Server {
    fn clone(&self) -> (copy: Self)
        ensures
            copy == *self,
    {
        Server {
            type_id: self.type_id,
            id: self.id.clone(),
            daemon_type: self.daemon_type,
            version: self.version.clone(),
            url: self.url.clone(),
            config_url: self.config_url.clone(),
            zones_url: self.zones_url.clone(),
        }
    }
}

impl Server {
    pub fn type_id(&self) -> (type_id: StructType)
        ensures
            type_id == self.type_id,
    {
        self.type_id
    }

    pub fn id(&self) -> (id: String)
        ensures
            id == self.id,
    {
        self.id.clone()
    }

    pub fn daemon_type(&self) -> (daemon_type: DaemonType)
        ensures
            daemon_type == self.daemon_type,
    {
        self.daemon_type
    }

    pub fn version(&self) -> (version: String)
        ensures
            version == self.version,
    {
        self.version.clone()
    }

    pub fn url(&self) -> (url: String)
        ensures
            url == self.url,
    {
        self.url.clone()
    }

    pub fn config_url(&self) -> (config_url: String)
        ensures
            config_url == self.config_url,
    {
        self.config_url.clone()
    }

    pub fn zones_url(&self) -> (zones_url: String)
        ensures
            zones_url == self.zones_url,
    {
        self.zones_url.clone()
    }

    /// The server as it is shown to a reader.
    pub open spec fn spec_description(self) -> Seq<char> {
        "(type="@ + self.type_id.spec_description() + ", id="@ + self.id@ + " daemon_type="@
            + self.daemon_type.spec_description() + " version="@ + self.version@ + " url="@
            + self.url@ + " confiig_url="@ + self.config_url@ + " zones_url="@ + self.zones_url@
            + ")"@
    }

    /// The server as it is shown to a reader.
    pub fn description(&self) -> (text: String)
        ensures
            text@ == self.spec_description(),
    {
        let mut text = String::from_str("(type=");
        text.append(self.type_id.description().as_str());
        text.append(", id=");
        text.append(self.id.as_str());
        text.append(" daemon_type=");
        text.append(self.daemon_type.description().as_str());
        text.append(" version=");
        text.append(self.version.as_str());
        text.append(" url=");
        text.append(self.url.as_str());
        text.append(" confiig_url=");
        text.append(self.config_url.as_str());
        text.append(" zones_url=");
        text.append(self.zones_url.as_str());
        text.append(")");
        text
    }
}

} // verus!
