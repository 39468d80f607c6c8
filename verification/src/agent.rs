//! The immutable agent: a name, a fixed system prompt, and metadata. The
//! agent itself never changes after construction; everything it does goes
//! through the dispatcher, the planner parse, the repair loop and the
//! gatekeeper verdicts, all of which live in their own modules.

use vstd::prelude::*;
use vstd::string::*;

verus! {

/// An agent with a fixed system prompt. The completion configuration is
/// carried as opaque text for the driver; this crate never reads it.
pub struct ImmutableAgent {
    pub name: String,
    pub system_prompt: String,
    pub llm_config: Option<String>,
    pub tools_map_meta: String,
    pub description: String,
}

impl ImmutableAgent {
    /// An agent with only a name and a system prompt.
    pub fn simple(name: &str, system_prompt: &str) -> (r: ImmutableAgent)
        ensures
            r.name@ == name@,
            r.system_prompt@ == system_prompt@,
            r.llm_config is None,
            r.tools_map_meta@ == Seq::<char>::empty(),
            r.description@ == Seq::<char>::empty(),
    {
        ImmutableAgent {
            name: name.to_owned(),
            system_prompt: system_prompt.to_owned(),
            llm_config: None,
            tools_map_meta: String::new(),
            description: String::new(),
        }
    }

    /// An agent with every field given.
    pub fn new(
        name: &str,
        system_prompt: &str,
        llm_config: Option<String>,
        tools_map_meta: &str,
        description: &str,
    ) -> (r: ImmutableAgent)
        ensures
            r.name@ == name@,
            r.system_prompt@ == system_prompt@,
            r.llm_config == llm_config,
            r.tools_map_meta@ == tools_map_meta@,
            r.description@ == description@,
    {
        ImmutableAgent {
            name: name.to_owned(),
            system_prompt: system_prompt.to_owned(),
            llm_config,
            tools_map_meta: tools_map_meta.to_owned(),
            description: description.to_owned(),
        }
    }
}

} // verus!
