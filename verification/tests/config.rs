use phishri::config::{
    agent_sessions, is_older_than, sanitize_id, split_session_name, Config, Environment,
};

fn environment() -> Environment {
    Environment {
        knowledge_base: "/srv/phishri".to_string(),
        session_root: None,
        home: Some("/home/dev".to_string()),
        agent_id: None,
        session_id: None,
        clock_millis: 0x18f3a2b4c5d,
    }
}

#[test]
fn test_config_creation() {
    let config = Config::new(&environment());
    assert!(!config.phishri_path.is_empty());
    assert!(!config.session_root.is_empty());
    assert!(!config.agent_id.is_empty());
    assert!(!config.session_id.is_empty());
}

#[test]
fn test_derived_paths() {
    let config = Config::new(&environment());
    assert!(config.contexts_path().ends_with("CONTEXTS"));
    assert!(config.indexes_path().ends_with("INDEXES"));
    assert!(config.hash_table_path().ends_with("HASH_TABLE.json"));
}

#[test]
fn test_session_isolation() {
    let config_a = Config::with_session(&environment(), "agent_a", "session_1");
    let config_b = Config::with_session(&environment(), "agent_b", "session_2");

    assert_ne!(config_a.bootstrap_path(), config_b.bootstrap_path());
    assert_eq!(config_a.hash_table_path(), config_b.hash_table_path());
}

#[test]
fn config_test_sanitize_id() {
    assert_eq!(sanitize_id("valid-id_123"), "valid-id_123");
    assert_eq!(sanitize_id("has spaces!"), "has_spaces_");
    assert_eq!(sanitize_id("path/injection"), "path_injection");
}

#[test]
fn test_session_dir_name() {
    let config = Config::with_session(&environment(), "studio", "abc123");
    assert_eq!(config.session_dir_name(), "studio_abc123");
}

#[test]
fn server_test_sanitize_id() {
    assert_eq!(sanitize_id("Studio Desktop"), "Studio_Desktop");
    assert_eq!(sanitize_id("test/path"), "test_path");
}

#[test]
fn config_defaults_follow_the_environment() {
    let config = Config::new(&environment());
    assert_eq!(config.phishri_path, "/srv/phishri");
    assert_eq!(config.session_root, "/home/dev/.phishri");
    assert_eq!(config.agent_id, "default");
    assert_eq!(config.session_id, "18f3a2b4c5d");
}

#[test]
fn config_overrides_are_sanitized() {
    let mut env = environment();
    env.session_root = Some("/var/sessions".to_string());
    env.home = None;
    env.agent_id = Some("my agent".to_string());
    env.session_id = Some("a/b".to_string());
    let config = Config::new(&env);
    assert_eq!(config.session_root, "/var/sessions");
    assert_eq!(config.agent_id, "my_agent");
    assert_eq!(config.session_id, "a_b");
}

#[test]
fn config_without_home_falls_back_to_tmp() {
    let mut env = environment();
    env.home = None;
    assert_eq!(Config::new(&env).session_root, "/tmp/.phishri");
}

#[test]
fn session_paths_follow_the_layout() {
    let config = Config::with_session(&environment(), "studio", "abc123");
    assert_eq!(config.contexts_path(), "/srv/phishri/CONTEXTS");
    assert_eq!(config.hash_table_path(), "/srv/phishri/INDEXES/HASH_TABLE.json");
    assert_eq!(config.semantic_map_path(), "/srv/phishri/INDEXES/SEMANTIC_MAP.json");
    assert_eq!(config.nlp_patterns_path(), "/srv/phishri/INDEXES/NLP_PATTERNS.json");
    assert_eq!(config.prerequisites_path(), "/srv/phishri/INDEXES/PREREQUISITES.json");
    assert_eq!(config.session_path(), "/home/dev/.phishri/sessions/studio_abc123");
    assert_eq!(config.bootstrap_path(), "/home/dev/.phishri/sessions/studio_abc123/bootstrap.json");
    assert_eq!(config.checkpoints_path(), "/home/dev/.phishri/sessions/studio_abc123/checkpoints");
}

#[test]
fn sanitize_id_truncates_at_sixty_four_characters() {
    let long = "a".repeat(100);
    assert_eq!(sanitize_id(&long), "a".repeat(64));
    let exact = "b".repeat(64);
    assert_eq!(sanitize_id(&exact), exact);
    assert_eq!(sanitize_id(""), "");
}

#[test]
fn sanitize_id_merges_illegal_characters() {
    assert_eq!(sanitize_id("a b/c"), sanitize_id("a!b?c"));
    assert_eq!(sanitize_id("a b/c"), "a_b_c");
    assert_eq!(sanitize_id(&sanitize_id("x y z")), sanitize_id("x y z"));
}

#[test]
fn sanitize_id_keeps_ascii_letters_and_digits_only() {
    assert_eq!(sanitize_id("déjà-vu_1"), "d_j_-vu_1");
    assert_eq!(sanitize_id("a\u{e9}b"), sanitize_id("a!b"));
    assert_eq!(sanitize_id("\u{663}\u{4e2d}x"), "__x");
    assert_eq!(sanitize_id("AZaz09-_"), "AZaz09-_");
}

#[test]
fn no_two_sessions_share_a_directory() {
    let a = Config::with_session(&environment(), "a_b", "c");
    let b = Config::with_session(&environment(), "a", "b_c");
    assert_eq!(a.session_dir_name(), "a-ub_c");
    assert_eq!(b.session_dir_name(), "a_b_c");
    assert_ne!(a.session_path(), b.session_path());
    assert_ne!(a.bootstrap_path(), b.bootstrap_path());
    assert_ne!(a.checkpoints_path(), b.checkpoints_path());
    let c = Config::with_session(&environment(), "my-agent", "s-1_x");
    assert_eq!(c.session_dir_name(), "my--agent_s-1_x");
    assert_eq!(c.session_path(), "/home/dev/.phishri/sessions/my--agent_s-1_x");
}

#[test]
fn agent_and_session_are_read_back_from_a_directory_name() {
    for (agent, session) in [("a_b", "c"), ("a", "b_c"), ("my-agent", "s-1_x"), ("", ""), ("-_-", "_"), ("u-u", "-u")] {
        let config = Config::with_session(&environment(), agent, session);
        let name = config.session_dir_name();
        assert_eq!(split_session_name(&name), Some((agent.to_string(), session.to_string())));
        assert_eq!(agent_sessions(&vec![name], agent), vec![session.to_string()]);
    }
    assert_eq!(split_session_name("a-ub_c"), Some(("a_b".to_string(), "c".to_string())));
    assert_eq!(split_session_name("a--b_c"), Some(("a-b".to_string(), "c".to_string())));
    // No agent is written with a lone `-`.
    assert_eq!(split_session_name("a-b_c"), None);
    assert_eq!(split_session_name("a-_c"), None);
    let names: Vec<String> = ["a_b_c", "a-ub_c", "a-ub_d"].iter().map(|s| s.to_string()).collect();
    assert_eq!(agent_sessions(&names, "a"), vec!["b_c"]);
    assert_eq!(agent_sessions(&names, "a_b"), vec!["c", "d"]);
}

#[test]
fn sessions_are_told_apart_by_their_directory_names() {
    let names: Vec<String> =
        ["studio_s1", "studio_s2_x", "other_s3", "studio", "studio_"].iter().map(|s| s.to_string()).collect();
    assert_eq!(agent_sessions(&names, "studio"), vec!["s1", "s2_x", ""]);
    assert!(agent_sessions(&names, "nobody").is_empty());
    assert_eq!(split_session_name("studio_s2_x"), Some(("studio".to_string(), "s2_x".to_string())));
    assert_eq!(split_session_name("_x"), Some((String::new(), "x".to_string())));
    assert_eq!(split_session_name("studio_"), Some(("studio".to_string(), String::new())));
    assert_eq!(split_session_name("studio"), None);
    assert!(is_older_than(86_401, 0, 1));
    assert!(is_older_than(86_400, 1, 1));
    assert!(!is_older_than(86_400, 0, 1));
    assert!(!is_older_than(5, 0, 1));
    assert!(is_older_than(0, 1, 0));
    assert!(!is_older_than(u64::MAX, 0, u64::MAX));
}
