//! The settings of the application and their defaults.

use vstd::prelude::*;
use crate::ai::types::{AiConfig, CommitMessageStyle, Language};
use crate::text::convert::{chars_of, string_of};

verus! {

/// All the settings of the application.
#[derive(Debug, Clone)]
pub struct AppConfig {
    pub last_opened_repo: Option<String>,
    pub ai: AiConfig,
    pub appearance: AppearanceConfig,
    pub editor: EditorConfig,
    pub keybindings: KeybindingsConfig,
    pub tools: ToolsConfig,
}

impl Default for AppConfig {
    fn default() -> (r: Self)
        ensures
            r.last_opened_repo is None,
            r.ai.commit_message_style == CommitMessageStyle::Conventional,
            r.ai.commit_message_language == Language::En,
            r.ai.provider_priority@.len() == 0,
            r.ai.exclude_patterns@.len() == 0,
            !r.ai.prefer_local_llm,
            r.appearance.is_default(),
            r.editor.is_default(),
            r.keybindings.is_default(),
            r.tools.is_default(),
    {
        AppConfig {
            last_opened_repo: None,
            ai: AiConfig::default(),
            appearance: AppearanceConfig::default(),
            editor: EditorConfig::default(),
            keybindings: KeybindingsConfig::default(),
            tools: ToolsConfig::default(),
        }
    }
}

/// How the application looks.
#[derive(Debug, Clone)]
pub struct AppearanceConfig {
    pub theme: String,
    pub color_theme: String,
    pub ui_font_size: u32,
    pub sidebar_position: String,
    pub tab_style: String,
}

impl AppearanceConfig {
    /// Whether every setting has its default value.
    pub open spec fn is_default(self) -> bool {
        &&& self.theme@ == "dark"@
        &&& self.color_theme@ == "cobalt"@
        &&& self.ui_font_size == 13
        &&& self.sidebar_position@ == "left"@
        &&& self.tab_style@ == "default"@
    }
}

impl Default for AppearanceConfig {
    fn default() -> (r: Self)
        ensures
            r.is_default(),
    {
        AppearanceConfig {
            theme: string_of(&chars_of("dark")),
            color_theme: string_of(&chars_of("cobalt")),
            ui_font_size: 13,
            sidebar_position: string_of(&chars_of("left")),
            tab_style: string_of(&chars_of("default")),
        }
    }
}

/// How text is shown.
#[derive(Debug, Clone)]
pub struct EditorConfig {
    pub font_family: String,
    pub font_size: u32,
    pub line_height: u32,
    pub show_line_numbers: bool,
    pub word_wrap: bool,
    pub show_whitespace: bool,
    pub minimap: bool,
    pub indent_style: String,
    pub tab_size: u32,
}

impl EditorConfig {
    /// Whether every setting has its default value.
    pub open spec fn is_default(self) -> bool {
        &&& self.font_family@ == "JetBrains Mono"@
        &&& self.font_size == 14
        &&& self.line_height == 20
        &&& self.show_line_numbers
        &&& !self.word_wrap
        &&& !self.show_whitespace
        &&& self.minimap
        &&& self.indent_style@ == "spaces"@
        &&& self.tab_size == 2
    }
}

impl Default for EditorConfig {
    fn default() -> (r: Self)
        ensures
            r.is_default(),
    {
        EditorConfig {
            font_family: string_of(&chars_of("JetBrains Mono")),
            font_size: 14,
            line_height: 20,
            show_line_numbers: true,
            word_wrap: false,
            show_whitespace: false,
            minimap: true,
            indent_style: string_of(&chars_of("spaces")),
            tab_size: 2,
        }
    }
}

/// Which keys do what.
#[derive(Debug, Clone)]
pub struct KeybindingsConfig {
    pub preset: String,
}

impl KeybindingsConfig {
    /// Whether every setting has its default value.
    pub open spec fn is_default(self) -> bool {
        &&& self.preset@ == "default"@
    }
}

impl Default for KeybindingsConfig {
    fn default() -> (r: Self)
        ensures
            r.is_default(),
    {
        KeybindingsConfig {
            preset: string_of(&chars_of("default")),
        }
    }
}

/// The tools that the application calls.
#[derive(Debug, Clone)]
pub struct ToolsConfig {
    pub diff_tool: String,
    pub merge_tool: String,
    pub terminal: String,
    pub editor: String,
    pub git_path: String,
    pub auto_fetch_on_open: bool,
    pub auto_fetch_interval: u32,
    pub open_in_editor_on_double_click: bool,
}

impl ToolsConfig {
    /// Whether every setting has its default value.
    pub open spec fn is_default(self) -> bool {
        &&& self.diff_tool@ == "builtin"@
        &&& self.merge_tool@ == "builtin"@
        &&& self.terminal@ == "default"@
        &&& self.editor@ == "vscode"@
        &&& self.git_path@ == "/usr/bin/git"@
        &&& self.auto_fetch_on_open
        &&& self.auto_fetch_interval == 300
        &&& self.open_in_editor_on_double_click
    }
}

impl Default for ToolsConfig {
    fn default() -> (r: Self)
        ensures
            r.is_default(),
    {
        ToolsConfig {
            diff_tool: string_of(&chars_of("builtin")),
            merge_tool: string_of(&chars_of("builtin")),
            terminal: string_of(&chars_of("default")),
            editor: string_of(&chars_of("vscode")),
            git_path: string_of(&chars_of("/usr/bin/git")),
            auto_fetch_on_open: true,
            auto_fetch_interval: 300,
            open_in_editor_on_double_click: true,
        }
    }
}

/// The place of the settings file below the directory for settings: the
/// directory of the application, then the file.
pub open spec fn config_file_parts() -> Seq<Seq<char>> {
    seq!["rocket"@, "config.toml"@]
}

/// The place of the settings file below the directory for settings.
pub fn config_path_parts() -> (parts: Vec<String>)
    ensures
        parts.deep_view() == config_file_parts(),
{
    let mut parts: Vec<String> = Vec::new();
    parts.push(string_of(&chars_of("rocket")));
    parts.push(string_of(&chars_of("config.toml")));
    assert(parts.deep_view() =~= config_file_parts());
    parts
}

} // verus!
