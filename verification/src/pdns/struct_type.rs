//! The tag that the server puts on each object it returns.

use vstd::prelude::*;
use vstd::string::*;

verus! {

/// Which kind of object a payload holds.
#[derive(Clone, Copy, Debug, PartialEq, Eq, Structural)]
pub enum StructType {
    Unset,
    Server,
    Zone,
}

impl StructType {
    /// The tag as it is shown to a reader.
    pub open spec fn spec_description(self) -> Seq<char> {
        match self {
            StructType::Server => "SERVER"@,
            StructType::Zone => "ZONE"@,
            StructType::Unset => "(pseudo)NONE"@,
        }
    }

    /// The tag as it is shown to a reader.
    pub fn description(&self) -> (text: String)
        ensures
            text@ == self.spec_description(),
    {
        match self {
            StructType::Server => String::from_str("SERVER"),
            StructType::Zone => String::from_str("ZONE"),
            StructType::Unset => String::from_str("(pseudo)NONE"),
        }
    }
}

} // verus!
