use rocket_git::config::{
    AppConfig, AppearanceConfig, EditorConfig, KeybindingsConfig, ToolsConfig,
};

#[test]
fn default_config_has_no_last_opened_repo() {
    let config = AppConfig::default();
    assert!(config.last_opened_repo.is_none());
}

#[test]
fn appearance_config_defaults() {
    let config = AppearanceConfig::default();
    assert_eq!(config.theme, "dark");
    assert_eq!(config.color_theme, "cobalt");
    assert_eq!(config.ui_font_size, 13);
    assert_eq!(config.sidebar_position, "left");
    assert_eq!(config.tab_style, "default");
}

#[test]
fn editor_config_defaults() {
    let config = EditorConfig::default();
    assert_eq!(config.font_family, "JetBrains Mono");
    assert_eq!(config.font_size, 14);
    assert_eq!(config.line_height, 20);
    assert!(config.show_line_numbers);
    assert!(!config.word_wrap);
    assert!(!config.show_whitespace);
    assert!(config.minimap);
    assert_eq!(config.indent_style, "spaces");
    assert_eq!(config.tab_size, 2);
}

#[test]
fn keybindings_config_defaults() {
    let config = KeybindingsConfig::default();
    assert_eq!(config.preset, "default");
}

#[test]
fn tools_config_defaults() {
    let config = ToolsConfig::default();
    assert_eq!(config.diff_tool, "builtin");
    assert_eq!(config.merge_tool, "builtin");
    assert_eq!(config.terminal, "default");
    assert_eq!(config.editor, "vscode");
    assert_eq!(config.git_path, "/usr/bin/git");
    assert!(config.auto_fetch_on_open);
    assert_eq!(config.auto_fetch_interval, 300);
    assert!(config.open_in_editor_on_double_click);
}
