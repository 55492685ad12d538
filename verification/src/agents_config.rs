//! User configuration for external agents.
//!
//! Agents are defined as a map of agent name to launch definition. Well-known
//! agents are also offered as built-in presets, so that there is something to
//! pick before the user has written any configuration; a user-defined agent with
//! the same name overrides its preset.

use vstd::prelude::*;

use crate::lines::line_views;
use crate::text_map::TextMap;

verus! {

/// How to launch one external agent.
#[derive(Debug, PartialEq, Eq)]
pub struct AcpAgentDefinition {
    /// The executable to run (resolved against `PATH` unless absolute).
    pub command: String,
    /// Arguments passed to the command.
    pub args: Vec<String>,
    /// Environment variables set on the agent process, on top of the session's
    /// environment.
    pub env: TextMap<String>,
    /// Working directory for the agent process. Defaults to that of the caller
    /// when unset.
    pub working_directory: Option<String>,
}

/// What an [`AcpAgentDefinition`] says.
pub struct DefinitionView {
    pub command: Seq<char>,
    pub args: Seq<Seq<char>>,
    pub env: Map<Seq<char>, Seq<char>>,
    pub working_directory: Option<Seq<char>>,
}

/// The texts that names stand for.
pub open spec fn text_values(values: Map<Seq<char>, String>) -> Map<Seq<char>, Seq<char>> {
    values.map_values(|value: String| value@)
}

impl View for AcpAgentDefinition {
    type V = DefinitionView;

    open spec fn view(&self) -> DefinitionView {
        DefinitionView {
            command: self.command@,
            args: line_views(self.args@),
            env: text_values(self.env@),
            working_directory: match self.working_directory {
                Some(directory) => Some(directory@),
                None => None,
            },
        }
    }
}

/// A command with its arguments, and nothing else defined.
pub open spec fn plain_definition(command: Seq<char>, args: Seq<Seq<char>>) -> DefinitionView {
    DefinitionView { command, args, env: Map::empty(), working_directory: None }
}

impl AcpAgentDefinition {
    /// A command with its arguments, and nothing else defined.
    pub fn new(command: &str, args: Vec<String>) -> (definition: AcpAgentDefinition)
        ensures
            definition@ == plain_definition(command@, line_views(args@)),
    {
        let definition = AcpAgentDefinition {
            command: command.to_owned(),
            args,
            env: TextMap::new(),
            working_directory: None,
        };
        assert(definition@.env =~= Map::empty());
        definition
    }
}

/// The set of configured agents, keyed by display name. Ordered by name, so that
/// the choice shown is stable across reloads.
#[derive(Debug, PartialEq, Eq)]
pub struct AcpAgentsConfig {
    pub agents: TextMap<AcpAgentDefinition>,
}

/// What definitions say, by name.
pub open spec fn definitions(agents: Map<Seq<char>, AcpAgentDefinition>) -> Map<
    Seq<char>,
    DefinitionView,
> {
    agents.map_values(|definition: AcpAgentDefinition| definition@)
}

impl View for AcpAgentsConfig {
    type V = Map<Seq<char>, DefinitionView>;

    open spec fn view(&self) -> Map<Seq<char>, DefinitionView> {
        definitions(self.agents@)
    }
}

impl Clone for AcpAgentDefinition {
    fn clone(&self) -> (copy: AcpAgentDefinition)
        ensures
            copy@ == self@,
    {
        let copy = AcpAgentDefinition {
            command: self.command.clone(),
            args: self.args.clone(),
            env: self.env.clone(),
            working_directory: self.working_directory.clone(),
        };
        assert(copy@.args =~= self@.args);
        assert(copy@.env =~= self@.env);
        copy
    }
}

impl Clone for AcpAgentsConfig {
    fn clone(&self) -> (copy: AcpAgentsConfig)
        ensures
            copy@ == self@,
    {
        let copy = AcpAgentsConfig { agents: self.agents.clone() };
        assert(copy@ =~= self@);
        copy
    }
}

/// A well-known agent that speaks the protocol through an adapter program. The
/// embedding application says which product that is.
#[derive(Debug, Clone, PartialEq, Eq)]
pub struct AdapterAgent {
    /// The display name.
    pub name: String,
    /// The adapter program.
    pub command: String,
}

/// What an [`AdapterAgent`] says.
pub struct AdapterView {
    pub name: Seq<char>,
    pub command: Seq<char>,
}

impl View for AdapterAgent {
    type V = AdapterView;

    open spec fn view(&self) -> AdapterView {
        AdapterView { name: self.name@, command: self.command@ }
    }
}

/// The agents that are offered without any user configuration: the one with an
/// adapter program, which needs no arguments, and the one that speaks the
/// protocol itself.
pub open spec fn presets(adapter: AdapterView) -> Map<Seq<char>, DefinitionView> {
    Map::empty().insert(adapter.name, plain_definition(adapter.command, seq![])).insert(
        "Gemini CLI"@,
        plain_definition("gemini"@, seq!["--experimental-acp"@]),
    )
}

/// The agents that are offered: those of the user and the presets, where the
/// user's win on name collisions.
pub open spec fn offered(adapter: AdapterView, user: Map<Seq<char>, DefinitionView>) -> Map<
    Seq<char>,
    DefinitionView,
> {
    presets(adapter).union_prefer_right(user)
}

impl Default for AcpAgentsConfig {
    /// No agents.
    fn default() -> (config: AcpAgentsConfig)
        ensures
            config@ == Map::<Seq<char>, DefinitionView>::empty(),
    {
        let config = AcpAgentsConfig { agents: TextMap::new() };
        assert(config@ =~= Map::<Seq<char>, DefinitionView>::empty());
        config
    }
}

impl AcpAgentsConfig {
    /// Built-in launch definitions for well-known agents. Whether one can be
    /// used still depends on its binary being installed.
    pub fn builtin_presets(adapter: &AdapterAgent) -> (config: AcpAgentsConfig)
        ensures
            config@ == presets(adapter@),
    {
        let mut agents = TextMap::new();
        let adapted = AcpAgentDefinition::new(adapter.command.as_str(), Vec::new());
        let mut args: Vec<String> = Vec::new();
        args.push("--experimental-acp".to_owned());
        let gemini = AcpAgentDefinition::new("gemini", args);
        proof {
            assert(adapted@.args =~= seq![]);
            assert(gemini@.args =~= seq!["--experimental-acp"@]);
        }
        let _ = agents.insert(adapter.name.clone(), adapted);
        let _ = agents.insert("Gemini CLI".to_owned(), gemini);
        let config = AcpAgentsConfig { agents };
        assert(config@ =~= presets(adapter@));
        config
    }

    /// The presets merged with the user's configuration; user-defined agents win
    /// on name collisions.
    pub fn with_presets(adapter: &AdapterAgent, user: AcpAgentsConfig) -> (merged: AcpAgentsConfig)
        ensures
            merged@ == offered(adapter@, user@),
    {
        let mut agents = AcpAgentsConfig::builtin_presets(adapter).agents;
        agents.extend(user.agents);
        let merged = AcpAgentsConfig { agents };
        assert(merged@ =~= offered(adapter@, user@));
        merged
    }
}

/// The presets are the agent with the adapter program and the one that speaks
/// the protocol itself, and nothing else.
pub proof fn law_there_are_two_presets(adapter: AdapterView, name: Seq<char>)
    requires
        adapter.name != "Gemini CLI"@,
    ensures
        presets(adapter).contains_key(name) <==> name == adapter.name || name == "Gemini CLI"@,
        presets(adapter)[adapter.name] == plain_definition(adapter.command, seq![]),
        presets(adapter)["Gemini CLI"@] == plain_definition(
            "gemini"@,
            seq!["--experimental-acp"@],
        ),
{
}

/// A user-defined agent is offered as the user defined it, also where a preset
/// has its name.
pub proof fn law_user_definitions_win(
    adapter: AdapterView,
    user: Map<Seq<char>, DefinitionView>,
    name: Seq<char>,
)
    requires
        user.contains_key(name),
    ensures
        offered(adapter, user).contains_key(name),
        offered(adapter, user)[name] == user[name],
{
}

/// A preset that the user does not override is still offered, and nothing else is.
pub proof fn law_presets_stay(
    adapter: AdapterView,
    user: Map<Seq<char>, DefinitionView>,
    name: Seq<char>,
)
    requires
        !user.contains_key(name),
    ensures
        offered(adapter, user).contains_key(name) <==> presets(adapter).contains_key(name),
        presets(adapter).contains_key(name) ==> offered(adapter, user)[name]
            == presets(adapter)[name],
{
}

/// Merging the presets in twice is merging them in once.
pub proof fn law_merging_is_idempotent(adapter: AdapterView, user: Map<Seq<char>, DefinitionView>)
    ensures
        offered(adapter, offered(adapter, user)) == offered(adapter, user),
        offered(adapter, Map::empty()) == presets(adapter),
{
    assert(offered(adapter, offered(adapter, user)) =~= offered(adapter, user));
    assert(offered(adapter, Map::empty()) =~= presets(adapter));
}

/// The view of a definition holds its command, its arguments one for one and in
/// order, the value of every variable, and its directory.
pub proof fn law_definition_views_are_faithful(definition: AcpAgentDefinition)
    ensures
        definition@.command == definition.command@,
        definition@.args.len() == definition.args@.len(),
        forall|i: int|
            0 <= i < definition.args@.len() ==> #[trigger] definition@.args[i]
                == definition.args@[i]@,
        definition@.env.dom() == definition.env@.dom(),
        forall|name: Seq<char>|
            definition.env@.contains_key(name) ==> #[trigger] definition@.env[name]
                == definition.env@[name]@,
        definition@.working_directory is Some <==> definition.working_directory is Some,
        definition.working_directory is Some ==> definition@.working_directory->0 == (
        definition.working_directory->0)@,
{
}

/// The view of a configuration holds what every agent's definition says, under
/// its name, and nothing else; that of an adapter agent its name and program.
pub proof fn law_config_views_are_faithful(config: AcpAgentsConfig, adapter: AdapterAgent)
    ensures
        config@.dom() == config.agents@.dom(),
        forall|name: Seq<char>|
            config.agents@.contains_key(name) ==> #[trigger] config@[name]
                == config.agents@[name]@,
        adapter@.name == adapter.name@,
        adapter@.command == adapter.command@,
{
}

/// A plain definition has its command and its arguments, no variables and no
/// directory.
pub proof fn law_plain_definitions_are_plain(command: Seq<char>, args: Seq<Seq<char>>)
    ensures
        plain_definition(command, args).command == command,
        plain_definition(command, args).args == args,
        plain_definition(command, args).env.dom() == Set::<Seq<char>>::empty(),
        plain_definition(command, args).working_directory is None,
{
}

/// The agent with the adapter program is started without arguments, the one that
/// speaks the protocol itself with the argument that makes it do so; neither has
/// variables or a directory of its own.
pub proof fn law_presets_are_started_plainly(adapter: AdapterView)
    requires
        adapter.name != "Gemini CLI"@,
    ensures
        presets(adapter).dom() == set![adapter.name, "Gemini CLI"@],
        presets(adapter)[adapter.name].command == adapter.command,
        presets(adapter)[adapter.name].args.len() == 0,
        presets(adapter)[adapter.name].env.dom() == Set::<Seq<char>>::empty(),
        presets(adapter)[adapter.name].working_directory is None,
        presets(adapter)["Gemini CLI"@].command == "gemini"@,
        presets(adapter)["Gemini CLI"@].args.len() == 1,
        presets(adapter)["Gemini CLI"@].args[0] == "--experimental-acp"@,
        presets(adapter)["Gemini CLI"@].env.dom() == Set::<Seq<char>>::empty(),
        presets(adapter)["Gemini CLI"@].working_directory is None,
{
}

} // verus!
