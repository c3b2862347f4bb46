//! Querying the zones of the server. The command goes the way of the
//! listing of zones.

use crate::app_config::cmd_line_parser::CommandParameters;
use crate::commands::list_zones_command::{
    begin_listing,
    list_zones_begin,
    list_zones_resume,
    resume_listing,
};
use crate::commands::workflow::{CommandTargetView, Event, Stage, WorkflowStep};
use vstd::prelude::*;
use vstd::string::*;

verus! {

/// The command that queries the zones.
pub struct QueryZoneCommand {
    base_uri: String,
    api_key: String,
    zone_name: String,
}

impl View for QueryZoneCommand {
    type V = CommandTargetView;

    closed spec fn view(&self) -> CommandTargetView {
        CommandTargetView {
            base_uri: self.base_uri@,
            api_key: self.api_key@,
            zone_name: self.zone_name@,
        }
    }
}

impl QueryZoneCommand {
    pub fn new(base_uri: &String, api_key: &String, zone_name: &String) -> (command:
        QueryZoneCommand)
        ensures
            command@ == (CommandTargetView {
                base_uri: base_uri@,
                api_key: api_key@,
                zone_name: zone_name@,
            }),
    {
        QueryZoneCommand {
            base_uri: base_uri.clone(),
            api_key: api_key.clone(),
            zone_name: zone_name.clone(),
        }
    }

    /// Begins the workflow.
    pub fn execute_command(&self, parameters: &CommandParameters) -> (step: WorkflowStep)
        ensures
            step@ == list_zones_begin(parameters@),
    {
        begin_listing(parameters)
    }

    /// Goes on with the workflow after `event` came in at `stage`.
    pub fn resume(&self, parameters: &CommandParameters, stage: Stage, event: Event) -> (step:
        WorkflowStep)
        ensures
            step@ == list_zones_resume(parameters@, stage, event),
    {
        resume_listing(parameters, stage, event)
    }
}

} // verus!
