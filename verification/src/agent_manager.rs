//! The set of configured agents and how each is launched.
//!
//! Holds the user's configuration merged over the built-in presets. Reading the
//! configuration file is left to the embedding application.

use vstd::prelude::*;

use crate::agents_config::{
    law_definition_views_are_faithful, offered, presets, text_values, AcpAgentDefinition,
    AcpAgentsConfig, AdapterAgent, AdapterView, DefinitionView,
};
use crate::lines::{law_line_views_are_faithful, line_views};
use crate::text::concat2;
use crate::text_map::TextMap;

verus! {

/// Something happened to the set of agents.
#[derive(Debug, Clone, Copy, PartialEq, Eq)]
pub enum AcpAgentManagerEvent {
    /// The agent list changed (configuration file loaded or reloaded).
    ConfigReloaded,
}

/// What became of reading the configuration file.
pub enum ConfigFile {
    /// There is no such file.
    NotFound,
    /// The file is there and cannot be read.
    Unreadable,
    /// The file does not hold a configuration.
    Malformed,
    /// The configuration in the file.
    Parsed(AcpAgentsConfig),
}

/// The configured agents.
pub struct AcpAgentManager {
    adapter: AdapterAgent,
    /// Presets merged with the user's definitions.
    config: AcpAgentsConfig,
}

/// What an [`AcpAgentManager`] holds.
pub struct ManagerView {
    pub adapter: AdapterView,
    pub agents: Map<Seq<char>, DefinitionView>,
}

impl View for AcpAgentManager {
    type V = ManagerView;

    closed spec fn view(&self) -> ManagerView {
        ManagerView { adapter: self.adapter@, agents: self.config@ }
    }
}

/// The agents after the configuration file was read. A missing file leaves just
/// the presets; a file that cannot be used is ignored, so that a typo cannot
/// empty the choice.
pub open spec fn agents_after(manager: ManagerView, file: ConfigFile) -> Map<
    Seq<char>,
    DefinitionView,
> {
    match file {
        ConfigFile::NotFound => presets(manager.adapter),
        ConfigFile::Unreadable => manager.agents,
        ConfigFile::Malformed => manager.agents,
        ConfigFile::Parsed(user) => offered(manager.adapter, user@),
    }
}

/// Where a launched agent works.
#[derive(Debug, Clone, PartialEq, Eq)]
pub enum LaunchDirectory<'a, P> {
    /// The directory that its definition pins.
    Defined(&'a str),
    /// The directory of the caller.
    Caller(P),
    /// The directory of this process.
    Inherited,
}

/// How to launch an agent.
pub struct LaunchCommand<'a, P> {
    pub program: &'a str,
    pub args: &'a [String],
    pub env: &'a TextMap<String>,
    pub current_dir: LaunchDirectory<'a, P>,
}

/// Whether `command` launches what `definition` says, for a caller in `cwd`.
pub open spec fn launches<P>(
    command: LaunchCommand<'_, P>,
    definition: DefinitionView,
    cwd: Option<P>,
) -> bool {
    &&& command.program@ == definition.command
    &&& line_views(command.args@) == definition.args
    &&& text_values(command.env@) == definition.env
    &&& match definition.working_directory {
        Some(directory) => command.current_dir matches LaunchDirectory::Defined(pinned) && pinned@
            == directory,
        None => match cwd {
            Some(cwd) => command.current_dir == LaunchDirectory::<'_, P>::Caller(cwd),
            None => command.current_dir is Inherited,
        },
    }
}

/// Builds the launch command of an agent. `cwd` is used when the definition does
/// not pin its own working directory.
pub fn build_launch_command<'a, P>(definition: &'a AcpAgentDefinition, cwd: Option<P>) -> (command:
    LaunchCommand<'a, P>)
    ensures
        launches(command, definition@, cwd),
        command.program@ == definition.command@,
        command.args@.len() == definition.args@.len(),
        forall|i: int|
            0 <= i < definition.args@.len() ==> (#[trigger] command.args@[i])@
                == definition.args@[i]@,
        forall|name: Seq<char>| #[trigger]
            command.env@.contains_key(name) <==> definition.env@.contains_key(name),
        forall|name: Seq<char>|
            definition.env@.contains_key(name) ==> (#[trigger] command.env@[name])@
                == definition.env@[name]@,
        match definition.working_directory {
            Some(directory) => command.current_dir matches LaunchDirectory::Defined(pinned)
                && pinned@ == directory@,
            None => match cwd {
                Some(cwd) => command.current_dir == LaunchDirectory::<'_, P>::Caller(cwd),
                None => command.current_dir is Inherited,
            },
        },
{
    let current_dir = match &definition.working_directory {
        Some(directory) => LaunchDirectory::Defined(directory.as_str()),
        None => match cwd {
            Some(cwd) => LaunchDirectory::Caller(cwd),
            None => LaunchDirectory::Inherited,
        },
    };
    LaunchCommand {
        program: definition.command.as_str(),
        args: definition.args.as_slice(),
        env: &definition.env,
        current_dir,
    }
}

impl AcpAgentManager {
    /// The built-in presets.
    pub fn new(adapter: AdapterAgent) -> (manager: AcpAgentManager)
        ensures
            manager@ == (ManagerView { adapter: adapter@, agents: presets(adapter@) }),
    {
        let config = AcpAgentsConfig::builtin_presets(&adapter);
        AcpAgentManager { adapter, config }
    }

    /// The configured agents, keyed by display name.
    pub fn agents(&self) -> (config: &AcpAgentsConfig)
        ensures
            config@ == self@.agents,
    {
        &self.config
    }

    /// Takes in what became of reading the configuration file.
    pub fn reload(&mut self, file: ConfigFile) -> (event: Option<AcpAgentManagerEvent>)
        ensures
            final(self)@ == (ManagerView {
                agents: agents_after(old(self)@, file),
                ..old(self)@
            }),
            event == (if file is NotFound || file is Parsed {
                Some(AcpAgentManagerEvent::ConfigReloaded)
            } else {
                None
            }),
    {
        let user = match file {
            ConfigFile::Parsed(user) => user,
            ConfigFile::NotFound => AcpAgentsConfig::default(),
            ConfigFile::Unreadable => {
                return None;
            },
            ConfigFile::Malformed => {
                return None;
            },
        };
        self.config = AcpAgentsConfig::with_presets(&self.adapter, user);
        proof {
            if file is NotFound {
                assert(self@.agents =~= presets(self@.adapter));
            }
        }
        Some(AcpAgentManagerEvent::ConfigReloaded)
    }

    /// Builds the launch command for a configured agent. `cwd` is used when the
    /// definition does not pin its own working directory.
    pub fn launch_command<'a, P>(&'a self, agent_name: &str, cwd: Option<P>) -> (command: Result<
        LaunchCommand<'a, P>,
        String,
    >)
        ensures
            match command {
                Ok(command) => self@.agents.contains_key(agent_name@) && launches(
                    command,
                    self@.agents[agent_name@],
                    cwd,
                ),
                Err(message) => !self@.agents.contains_key(agent_name@) && message@
                    == "Unknown ACP agent: "@ + agent_name@,
            },
            command matches Ok(command) ==> {
                let definition = self@.agents[agent_name@];
                &&& command.program@ == definition.command
                &&& command.args@.len() == definition.args.len()
                &&& forall|i: int|
                    0 <= i < definition.args.len() ==> (#[trigger] command.args@[i])@
                        == definition.args[i]
                &&& forall|name: Seq<char>| #[trigger]
                    command.env@.contains_key(name) <==> definition.env.contains_key(name)
                &&& forall|name: Seq<char>|
                    definition.env.contains_key(name) ==> (#[trigger] command.env@[name])@
                        == definition.env[name]
            },
    {
        match self.config.agents.get(agent_name) {
            Some(definition) => Ok(build_launch_command(definition, cwd)),
            None => Err(concat2("Unknown ACP agent: ", agent_name)),
        }
    }
}

/// A configuration file that cannot be used never changes what is offered.
pub proof fn law_unusable_files_change_nothing(manager: ManagerView, file: ConfigFile)
    requires
        file is Unreadable || file is Malformed,
    ensures
        agents_after(manager, file) == manager.agents,
{
}

/// Under the name of every preset an agent is always offered, whatever
/// configuration files were read; a missing file brings the presets themselves back.
pub proof fn law_every_preset_is_offered(manager: ManagerView, file: ConfigFile, name: Seq<char>)
    requires
        presets(manager.adapter).dom().subset_of(manager.agents.dom()),
        presets(manager.adapter).contains_key(name),
    ensures
        presets(manager.adapter).dom().subset_of(agents_after(manager, file).dom()),
        agents_after(manager, file).contains_key(name),
        file is NotFound ==> agents_after(manager, file)[name] == presets(manager.adapter)[name],
{
    assert(agents_after(manager, file).dom().contains(name));
}

/// A launch command that launches what a definition says has its program, its
/// arguments, as many of them and the same text at each place, the same value for
/// every variable and no other variables, and its directory: that of the caller
/// where the definition pins none, and that of this process where there is no
/// caller's either.
pub proof fn law_launches_are_what_is_defined<P>(
    command: LaunchCommand<'_, P>,
    definition: AcpAgentDefinition,
    cwd: Option<P>,
)
    requires
        launches(command, definition@, cwd),
    ensures
        command.program@ == definition.command@,
        command.args@.len() == definition.args@.len(),
        forall|i: int|
            0 <= i < definition.args@.len() ==> (#[trigger] command.args@[i])@
                == definition.args@[i]@,
        forall|name: Seq<char>| #[trigger]
            command.env@.contains_key(name) <==> definition.env@.contains_key(name),
        forall|name: Seq<char>|
            definition.env@.contains_key(name) ==> (#[trigger] command.env@[name])@
                == definition.env@[name]@,
        definition.working_directory matches Some(directory) ==> (
        command.current_dir matches LaunchDirectory::Defined(pinned) && pinned@ == directory@),
        definition.working_directory is None && cwd is Some ==> command.current_dir
            == LaunchDirectory::<'_, P>::Caller(cwd->0),
        definition.working_directory is None && cwd is None ==> command.current_dir is Inherited,
{
    lemma_same_launch(command, definition);
}

/// Equal views have equal arguments and variables.
proof fn lemma_same_launch<P>(command: LaunchCommand<'_, P>, definition: AcpAgentDefinition)
    requires
        line_views(command.args@) == definition@.args,
        text_values(command.env@) == definition@.env,
    ensures
        command.args@.len() == definition.args@.len(),
        forall|i: int|
            0 <= i < definition.args@.len() ==> (#[trigger] command.args@[i])@
                == definition.args@[i]@,
        forall|name: Seq<char>| #[trigger]
            command.env@.contains_key(name) <==> definition.env@.contains_key(name),
        forall|name: Seq<char>|
            definition.env@.contains_key(name) ==> (#[trigger] command.env@[name])@
                == definition.env@[name]@,
{
    law_definition_views_are_faithful(definition);
    law_line_views_are_faithful(command.args@);
    assert forall|i: int| 0 <= i < definition.args@.len() implies (#[trigger] command.args@[i])@
        == definition.args@[i]@ by {
        assert(line_views(command.args@)[i] == definition@.args[i]);
    }
    assert forall|name: Seq<char>| #[trigger]
        command.env@.contains_key(name) <==> definition.env@.contains_key(name) by {
        assert(text_values(command.env@).dom().contains(name) == definition@.env.dom().contains(
            name,
        ));
        assert(definition@.env.dom().contains(name) == definition.env@.dom().contains(name));
    }
    assert forall|name: Seq<char>| definition.env@.contains_key(name) implies (
    #[trigger] command.env@[name])@ == definition.env@[name]@ by {
        assert(definition@.env.contains_key(name));
        assert(text_values(command.env@).contains_key(name));
        assert(text_values(command.env@)[name] == definition@.env[name]);
    }
}

/// After a configuration was read, every agent is offered as the user defined it,
/// the presets that the user did not define as they are built in, and no other
/// agent. Without a file the presets are offered, and with one that cannot be
/// used what was offered before.
pub proof fn law_what_is_offered_after_reading(
    manager: ManagerView,
    user: AcpAgentsConfig,
    name: Seq<char>,
)
    ensures
        ({
            let after = agents_after(manager, ConfigFile::Parsed(user));
            &&& user@.contains_key(name) ==> after.contains_key(name) && after[name] == user@[name]
            &&& !user@.contains_key(name) && presets(manager.adapter).contains_key(name)
                ==> after.contains_key(name) && after[name] == presets(manager.adapter)[name]
            &&& !user@.contains_key(name) && !presets(manager.adapter).contains_key(name)
                ==> !after.contains_key(name)
        }),
        agents_after(manager, ConfigFile::NotFound) == presets(manager.adapter),
        agents_after(manager, ConfigFile::Unreadable) == manager.agents,
        agents_after(manager, ConfigFile::Malformed) == manager.agents,
{
}

} // verus!
