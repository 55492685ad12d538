use acp::agent_manager::{
    AcpAgentManager, AcpAgentManagerEvent, ConfigFile, LaunchDirectory,
};
use acp::agents_config::{AcpAgentDefinition, AcpAgentsConfig, AdapterAgent};
use acp::text::{concat2, decimal_text, text_eq, text_lt};
use acp::text_map::TextMap;

fn one_agent(name: &str, command: &str) -> AcpAgentsConfig {
    let mut config = AcpAgentsConfig::default();
    config
        .agents
        .insert(name.to_string(), AcpAgentDefinition::new(command, Vec::new()));
    config
}

fn adapter() -> AdapterAgent {
    AdapterAgent { name: "Adapted".to_string(), command: "adapted-acp".to_string() }
}

fn names(config: &AcpAgentsConfig) -> Vec<String> {
    (0..config.agents.len())
        .map(|i| config.agents.name_at(i).to_string())
        .collect()
}

#[test]
fn user_config_overrides_presets_by_name() {
    let user = one_agent("Adapted", "/opt/custom/adapted-acp");
    let merged = AcpAgentsConfig::with_presets(&adapter(), user);

    assert_eq!(
        merged.agents.get("Adapted").unwrap().command,
        "/opt/custom/adapted-acp"
    );
    // Presets not overridden are still present.
    assert!(merged.agents.contains_key("Gemini CLI"));
}

#[test]
fn user_definitions_win_and_presets_stay() {
    let user = one_agent("Gemini CLI", "/opt/custom/gemini");
    let merged = AcpAgentsConfig::with_presets(&adapter(), user);
    assert_eq!(
        merged.agents.get("Gemini CLI").unwrap().command,
        "/opt/custom/gemini"
    );
    assert_eq!(names(&merged), vec!["Adapted", "Gemini CLI"]);

    let merged = AcpAgentsConfig::with_presets(&adapter(), one_agent("mine", "x"));
    assert_eq!(merged.agents.get("Gemini CLI").unwrap().command, "gemini");
    assert_eq!(merged.agents.get("mine").unwrap().command, "x");
}

#[test]
fn presets_launch_well_known_agents() {
    let presets = AcpAgentsConfig::builtin_presets(&adapter());
    assert_eq!(names(&presets), vec!["Adapted", "Gemini CLI"]);
    let adapted = presets.agents.get("Adapted").unwrap();
    assert_eq!(adapted.command, "adapted-acp");
    assert!(adapted.args.is_empty());
    assert_eq!(adapted.env.len(), 0);
    assert_eq!(adapted.working_directory, None);
    let gemini = presets.agents.get("Gemini CLI").unwrap();
    assert_eq!(gemini.command, "gemini");
    assert_eq!(gemini.args, vec!["--experimental-acp"]);
    assert_eq!(gemini.env.len(), 0);
    assert_eq!(gemini.working_directory, None);
}

#[test]
fn merging_presets_twice_is_merging_once() {
    let merged = AcpAgentsConfig::with_presets(&adapter(), one_agent("mine", "x"));
    assert_eq!(names(&merged), vec!["Adapted", "Gemini CLI", "mine"]);
    let again = AcpAgentsConfig::with_presets(&adapter(), merged);
    assert_eq!(names(&again), vec!["Adapted", "Gemini CLI", "mine"]);
    assert_eq!(names(&AcpAgentsConfig::default()), Vec::<String>::new());
}

#[test]
fn unusable_config_files_change_nothing() {
    let mut manager = AcpAgentManager::new(adapter());
    assert_eq!(
        manager.reload(ConfigFile::Parsed(one_agent("mine", "x"))),
        Some(AcpAgentManagerEvent::ConfigReloaded)
    );
    assert_eq!(names(manager.agents()), vec!["Adapted", "Gemini CLI", "mine"]);
    assert_eq!(manager.reload(ConfigFile::Malformed), None);
    assert_eq!(manager.reload(ConfigFile::Unreadable), None);
    assert_eq!(names(manager.agents()), vec!["Adapted", "Gemini CLI", "mine"]);
    assert_eq!(
        manager.reload(ConfigFile::NotFound),
        Some(AcpAgentManagerEvent::ConfigReloaded)
    );
    assert_eq!(names(manager.agents()), vec!["Adapted", "Gemini CLI"]);
}

#[test]
fn launch_commands_follow_the_definition() {
    let mut manager = AcpAgentManager::new(adapter());
    let mut definition = AcpAgentDefinition::new("agent", vec!["--acp".to_string()]);
    definition.env.insert("KEY".to_string(), "abc".to_string());
    definition.working_directory = Some("/tmp".to_string());
    let mut user = AcpAgentsConfig::default();
    user.agents.insert("mine".to_string(), definition);
    manager.reload(ConfigFile::Parsed(user));

    let command = manager.launch_command("mine", Some("/work")).expect("known");
    assert_eq!(command.program, "agent");
    assert_eq!(command.args, ["--acp".to_string()]);
    assert_eq!(command.env.get("KEY").unwrap(), "abc");
    assert_eq!(command.current_dir, LaunchDirectory::Defined("/tmp"));

    let command = manager.launch_command("Gemini CLI", Some("/work")).expect("known");
    assert_eq!(command.args, ["--experimental-acp".to_string()]);
    assert_eq!(command.current_dir, LaunchDirectory::Caller("/work"));

    let command = manager.launch_command("Gemini CLI", None::<&str>).expect("known");
    assert_eq!(command.current_dir, LaunchDirectory::Inherited);

    let Err(message) = manager.launch_command("nope", None::<&str>) else {
        panic!("expected an error");
    };
    assert_eq!(message, "Unknown ACP agent: nope");
}

#[test]
fn text_maps_are_sorted_by_name() {
    let mut map = TextMap::new();
    for (name, value) in [("b", 1), ("ä", 2), ("", 3), ("a", 4), ("ab", 5)] {
        assert_eq!(map.insert(name.to_string(), value), None);
    }
    assert_eq!(map.insert("a".to_string(), 6), Some(4));
    let walked: Vec<&str> = (0..map.len()).map(|i| map.name_at(i)).collect();
    assert_eq!(walked, vec!["", "a", "ab", "b", "ä"]);
    assert_eq!(map.get("a"), Some(&6));
    assert_eq!(map.get("c"), None);
    assert_eq!(map.remove("ab"), Some(5));
    assert_eq!(map.remove("ab"), None);
    assert_eq!(map.len(), 4);

    let mut other = TextMap::new();
    other.insert("a".to_string(), 7);
    other.insert("z".to_string(), 8);
    map.extend(other);
    assert_eq!(map.get("a"), Some(&7));
    assert_eq!(map.get("b"), Some(&1));
    assert_eq!(map.get("z"), Some(&8));
}

#[test]
fn texts_compare_as_in_std() {
    let texts = ["", "a", "ab", "b", "ä", "☃", "\u{10000}"];
    for a in texts {
        for b in texts {
            assert_eq!(text_eq(a, b), a == b);
            assert_eq!(text_lt(a, b), a < b);
            assert_eq!(concat2(a, b), format!("{a}{b}"));
        }
    }
}

#[test]
fn numbers_are_written_as_in_std() {
    for i in [0, 1, -1, 9, 10, -10, 1234567890, i32::MAX, i32::MIN] {
        assert_eq!(decimal_text(i), i.to_string());
    }
}

#[test]
fn configurations_can_be_copied_and_compared() {
    let mut user = one_agent("mine", "x");
    let definition = user.agents.remove("mine").unwrap();
    let mut changed = definition.clone();
    assert_eq!(changed, definition);
    changed.env.insert("KEY".to_string(), "abc".to_string());
    assert_ne!(changed, definition);
    user.agents.insert("mine".to_string(), changed);
    let copy = user.clone();
    assert_eq!(copy, user);
    assert_eq!(copy.agents.get("mine").unwrap().env.get("KEY").unwrap(), "abc");
    assert_ne!(copy, AcpAgentsConfig::default());
}
