//! The remote compute instance that the bot controls.
use vstd::prelude::*;
use vstd::string::StringExecFns;

verus! {

/// Names the remote instance to the control plane.
#[derive(Debug)]
pub struct InstanceDescriptor {
    pub name: String,
    pub project: String,
    pub zone: String,
}

impl InstanceDescriptor {
    /// All three fields are given.
    pub open spec fn wf(&self) -> bool {
        &&& self.name@.len() > 0
        &&& self.project@.len() > 0
        &&& self.zone@.len() > 0
    }

    /// The game-server instance that the bot manages.
    pub fn palworld() -> (r: InstanceDescriptor)
        ensures
            r.wf(),
            r.name@ == "palworld1"@,
            r.project@ == "droprealms"@,
            r.zone@ == "asia-northeast1-b"@,
    {
        proof {
            reveal_strlit("palworld1");
            reveal_strlit("droprealms");
            reveal_strlit("asia-northeast1-b");
        }
        InstanceDescriptor {
            name: String::from_str("palworld1"),
            project: String::from_str("droprealms"),
            zone: String::from_str("asia-northeast1-b"),
        }
    }
}

} // verus!
