use rocket_git::ai::types::{AiConfig, CommitMessageStyle, Language};

#[test]
fn default_ai_config_has_expected_values() {
    let config = AiConfig::default();
    assert_eq!(config.commit_message_style, CommitMessageStyle::Conventional);
    assert_eq!(config.commit_message_language, Language::En);
    assert!(config.provider_priority.is_empty());
    assert!(!config.prefer_local_llm);
    assert!(config.exclude_patterns.is_empty());
}
