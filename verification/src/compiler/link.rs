//! The native link plan of an executable.
use vstd::prelude::*;
use std::path::PathBuf;
use crate::compiler::CompilerSession;

verus! {

/// `PathBuf::clone`: a copy of the path.
pub assume_specification[ <std::path::PathBuf as Clone>::clone ](path: &PathBuf) -> (copy: PathBuf)
    ensures
        copy == *path,
;

/// Everything the platform linker needs to produce an executable.
#[derive(Debug)]
pub struct LinkPlan {
    pub objects: Vec<PathBuf>,
    pub static_libraries: Vec<PathBuf>,
    pub system_libraries: Vec<String>,
    pub frameworks: Vec<String>,
    pub runtime: Option<PathBuf>,
    pub startup: Option<PathBuf>,
    pub output: PathBuf,
    pub entry: String,
    pub target: String,
}

impl CompilerSession {
    /// The link plan for `object` into `output`: the configured native
    /// libraries followed by the stdlib runtime archive `stdlib` when one was
    /// found, the configured system libraries, runtime and startup object,
    /// the `vut_entry` entry symbol and the configured target.
    pub fn link_plan(&self, object: PathBuf, output: PathBuf, stdlib: Option<PathBuf>) -> (plan: LinkPlan)
        ensures
            plan.objects@ == seq![object],
            plan.static_libraries@ == match stdlib {
                Some(s) => self.spec_config().native_libraries@.push(s),
                None => self.spec_config().native_libraries@,
            },
            plan.system_libraries@.len() == self.spec_config().system_libraries@.len(),
            forall|i: int| 0 <= i < plan.system_libraries@.len()
                ==> #[trigger] plan.system_libraries@[i]@ == self.spec_config().system_libraries@[i]@,
            plan.frameworks@.len() == 0,
            plan.runtime == self.spec_config().runtime_library,
            plan.startup == self.spec_config().startup_object,
            plan.output == output,
            plan.entry@ == "vut_entry"@,
            plan.target@ == self.spec_config().target@,
    {
        let config = self.config();
        let mut static_libraries: Vec<PathBuf> = Vec::new();
        let mut i: usize = 0;
        while i < config.native_libraries.len()
            invariant
                i <= config.native_libraries@.len(),
                static_libraries@ == config.native_libraries@.take(i as int),
            decreases config.native_libraries@.len() - i,
        {
            static_libraries.push(config.native_libraries[i].clone());
            proof {
                assert(config.native_libraries@.take(i + 1) =~= config.native_libraries@.take(i as int).push(config.native_libraries@[i as int]));
            }
            i = i + 1;
        }
        proof {
            assert(config.native_libraries@.take(config.native_libraries@.len() as int) =~= config.native_libraries@);
        }
        match stdlib {
            Some(s) => static_libraries.push(s),
            None => {},
        }
        let mut system_libraries: Vec<String> = Vec::new();
        let mut j: usize = 0;
        while j < config.system_libraries.len()
            invariant
                j <= config.system_libraries@.len(),
                system_libraries@.len() == j,
                forall|k: int| 0 <= k < j ==> #[trigger] system_libraries@[k]@ == config.system_libraries@[k]@,
            decreases config.system_libraries@.len() - j,
        {
            system_libraries.push(config.system_libraries[j].clone());
            j = j + 1;
        }
        let runtime = match &config.runtime_library {
            Some(p) => Some(p.clone()),
            None => None,
        };
        let startup = match &config.startup_object {
            Some(p) => Some(p.clone()),
            None => None,
        };
        let mut objects: Vec<PathBuf> = Vec::new();
        objects.push(object);
        proof {
            assert(objects@ =~= seq![object]);
        }
        LinkPlan {
            objects,
            static_libraries,
            system_libraries,
            frameworks: Vec::new(),
            runtime,
            startup,
            output,
            entry: "vut_entry".to_owned(),
            target: config.target.clone(),
        }
    }
}

} // verus!
