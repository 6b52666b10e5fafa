use emulsion_settings::config::Binding;
use emulsion_settings::fields::{Invalid, Key, Problem};
use emulsion_settings::{
    Bindings, Command, ConfigImageSection, ConfigUpdateSection, ConfigWindowSection,
    Configuration, EnvVar, LoadError, Theme, TitleSection,
};

fn invalid(key: Key, problem: Problem) -> LoadError {
    LoadError::Invalid(Invalid { key, problem })
}

fn refused(text: &str) -> LoadError {
    Configuration::from_toml(text).unwrap_err()
}

fn strings(texts: &[&str]) -> Vec<String> {
    texts.iter().map(|text| text.to_string()).collect()
}

#[test]
fn missing_window_section_is_none() {
    let config = Configuration::from_toml("[title]\ndisplayed_folders = 2\n").unwrap();
    assert!(config.window.is_none());
    assert_eq!(
        config.title,
        Some(TitleSection { displayed_folders: Some(2), show_program_name: None })
    );
}

#[test]
fn empty_document_is_the_empty_config() {
    let config = Configuration::from_toml("").unwrap();
    assert!(config.bindings.is_none());
    assert!(config.commands.is_none());
    assert!(config.updates.is_none());
    assert!(config.title.is_none());
    assert!(config.image.is_none());
    assert!(config.window.is_none());
}

#[test]
fn default_config_is_empty() {
    let config = Configuration::default();
    assert!(config.bindings.is_none());
    assert!(config.commands.is_none());
    assert!(config.updates.is_none());
    assert!(config.title.is_none());
    assert!(config.image.is_none());
    assert!(config.window.is_none());
}

#[test]
fn fields_are_not_filled_in() {
    let config = Configuration::from_toml("[window]\nwin_w = 100\n[image]\n[title]\n").unwrap();
    assert_eq!(
        config.window,
        Some(ConfigWindowSection {
            start_fullscreen: None,
            start_maximized: None,
            show_bottom_bar: None,
            theme: None,
            use_last_window_area: None,
            win_w: Some(100),
            win_h: None,
            win_x: None,
            win_y: None,
        })
    );
    assert_eq!(config.image, Some(ConfigImageSection { antialiasing: None }));
    assert_eq!(config.title, Some(TitleSection::default()));
}

#[test]
fn full_window_section_is_read() {
    let text = "[window]\nstart_fullscreen = true\nstart_maximized = false\n\
                show_bottom_bar = true\ntheme = \"dark\"\nuse_last_window_area = false\n\
                win_w = 1\nwin_h = 2\nwin_x = -3\nwin_y = 4\n";
    let config = Configuration::from_toml(text).unwrap();
    assert_eq!(
        config.window,
        Some(ConfigWindowSection {
            start_fullscreen: Some(true),
            start_maximized: Some(false),
            show_bottom_bar: Some(true),
            theme: Some(Theme::Dark),
            use_last_window_area: Some(false),
            win_w: Some(1),
            win_h: Some(2),
            win_x: Some(-3),
            win_y: Some(4),
        })
    );
}

#[test]
fn updates_are_checked_unless_switched_off() {
    let config = Configuration::from_toml("[updates]\n").unwrap();
    assert_eq!(config.updates, Some(ConfigUpdateSection { check_updates: true }));
    let config = Configuration::from_toml("[updates]\ncheck_updates = false\n").unwrap();
    assert_eq!(config.updates, Some(ConfigUpdateSection { check_updates: false }));
    assert_eq!(ConfigUpdateSection::default(), ConfigUpdateSection { check_updates: true });
}

#[test]
fn image_section_keeps_any_name() {
    let config = Configuration::from_toml("[image]\nantialiasing = \"sometimes\"\n").unwrap();
    assert_eq!(
        config.image,
        Some(ConfigImageSection { antialiasing: Some(String::from("sometimes")) })
    );
}

#[test]
fn title_section_is_read() {
    let config =
        Configuration::from_toml("[title]\ndisplayed_folders = 3\nshow_program_name = false\n")
            .unwrap();
    let title = config.title.unwrap();
    assert_eq!(title.displayed_folders, Some(3));
    assert_eq!(title.format_program_name(), "");
    assert_eq!(title.format_file_path("/a/b/c/d/e/f.png"), "c/d/e/f.png");
}

#[test]
fn bindings_are_found_by_action() {
    let text = "[bindings]\nimg_next = [\"D\", \"Right\"]\nimg_prev = [\"A\"]\nquit = []\n";
    let config = Configuration::from_toml(text).unwrap();
    let bindings = config.bindings.unwrap();
    assert_eq!(bindings.len(), 3);
    assert_eq!(bindings.get("img_next"), Some(&strings(&["D", "Right"])));
    assert_eq!(bindings.get("img_prev"), Some(&strings(&["A"])));
    assert_eq!(bindings.get("quit"), Some(&strings(&[])));
    assert_eq!(bindings.get("img_last"), None);
    assert_eq!(bindings.get(""), None);
}

#[test]
fn bindings_can_be_listed() {
    let config = Configuration::from_toml("[bindings]\nb = [\"2\"]\na = [\"1\"]\n").unwrap();
    let bindings = config.bindings.unwrap();
    let mut entries = bindings.entries().clone();
    entries.sort_by(|left, right| left.action.cmp(&right.action));
    assert_eq!(
        entries,
        vec![
            Binding { action: String::from("a"), keys: strings(&["1"]) },
            Binding { action: String::from("b"), keys: strings(&["2"]) },
        ]
    );
}

#[test]
fn inserting_a_binding_replaces_the_old_keys() {
    let mut bindings = Bindings::new();
    assert_eq!(bindings.len(), 0);
    assert_eq!(bindings.get("quit"), None);
    bindings.insert(String::from("quit"), strings(&["Q"]));
    bindings.insert(String::from("open"), strings(&["O"]));
    assert_eq!(bindings.len(), 2);
    bindings.insert(String::from("quit"), strings(&["Escape", "X"]));
    assert_eq!(bindings.len(), 2);
    assert_eq!(bindings.get("quit"), Some(&strings(&["Escape", "X"])));
    assert_eq!(bindings.get("open"), Some(&strings(&["O"])));
}

#[test]
fn empty_bindings_section_binds_nothing() {
    let config = Configuration::from_toml("[bindings]\n").unwrap();
    assert_eq!(config.bindings.unwrap().len(), 0);
}

#[test]
fn binding_that_is_no_array_is_refused() {
    assert_eq!(
        refused("[bindings]\nquit = \"Q\"\n"),
        invalid(Key::Bindings, Problem::ExpectedArray)
    );
    assert_eq!(refused("bindings = 1"), invalid(Key::Bindings, Problem::ExpectedTable));
}

#[test]
fn binding_with_a_key_that_is_no_string_is_refused() {
    assert_eq!(
        refused("[bindings]\nquit = [\"Q\", 3]\n"),
        invalid(Key::Bindings, Problem::ExpectedString)
    );
}

#[test]
fn binding_that_is_no_array_is_reported_first() {
    assert_eq!(
        refused("[bindings]\na = [1]\nb = 2\n"),
        invalid(Key::Bindings, Problem::ExpectedArray)
    );
    assert_eq!(
        refused("[bindings]\na = 2\nb = [1]\n"),
        invalid(Key::Bindings, Problem::ExpectedArray)
    );
}

#[test]
fn commands_are_read_in_order() {
    let text = "[[commands]]\ninput = [\"png\", \"jpg\"]\nprogram = \"gimp\"\n\
                args = [\"-n\", \"${img}\"]\n\
                envs = [{ name = \"LANG\", value = \"C\" }, { name = \"X\", value = \"\" }]\n\n\
                [[commands]]\ninput = []\nprogram = \"echo\"\n";
    let config = Configuration::from_toml(text).unwrap();
    assert_eq!(
        config.commands,
        Some(vec![
            Command {
                input: strings(&["png", "jpg"]),
                program: String::from("gimp"),
                args: Some(strings(&["-n", "${img}"])),
                envs: Some(vec![
                    EnvVar { name: String::from("LANG"), value: String::from("C") },
                    EnvVar { name: String::from("X"), value: String::new() },
                ]),
            },
            Command {
                input: Vec::new(),
                program: String::from("echo"),
                args: None,
                envs: None,
            },
        ])
    );
}

#[test]
fn empty_command_list_is_kept() {
    let config = Configuration::from_toml("commands = []").unwrap();
    assert_eq!(config.commands, Some(Vec::new()));
}

#[test]
fn command_without_program_is_refused() {
    assert_eq!(
        refused("[[commands]]\ninput = [\"png\"]\n"),
        invalid(Key::Program, Problem::Missing)
    );
}

#[test]
fn command_without_input_is_refused() {
    assert_eq!(
        refused("[[commands]]\nprogram = \"gimp\"\n"),
        invalid(Key::Input, Problem::Missing)
    );
}

#[test]
fn command_with_wrong_types_is_refused() {
    assert_eq!(
        refused("[[commands]]\ninput = \"png\"\nprogram = \"gimp\"\n"),
        invalid(Key::Input, Problem::ExpectedArray)
    );
    assert_eq!(
        refused("[[commands]]\ninput = [1]\nprogram = \"gimp\"\n"),
        invalid(Key::Input, Problem::ExpectedString)
    );
    assert_eq!(
        refused("[[commands]]\ninput = []\nprogram = 7\n"),
        invalid(Key::Program, Problem::ExpectedString)
    );
    assert_eq!(
        refused("[[commands]]\ninput = []\nprogram = \"p\"\nargs = [true]\n"),
        invalid(Key::Args, Problem::ExpectedString)
    );
    assert_eq!(
        refused("[[commands]]\ninput = []\nprogram = \"p\"\nenvs = 1\n"),
        invalid(Key::Envs, Problem::ExpectedArray)
    );
    assert_eq!(
        refused("[[commands]]\ninput = []\nprogram = \"p\"\nenvs = [1]\n"),
        invalid(Key::Envs, Problem::ExpectedTable)
    );
    assert_eq!(refused("commands = [1]"), invalid(Key::Commands, Problem::ExpectedTable));
    assert_eq!(refused("[commands]\n"), invalid(Key::Commands, Problem::ExpectedArray));
}

#[test]
fn variable_without_name_or_value_is_refused() {
    assert_eq!(
        refused("[[commands]]\ninput = []\nprogram = \"p\"\nenvs = [{ value = \"C\" }]\n"),
        invalid(Key::Name, Problem::Missing)
    );
    assert_eq!(
        refused("[[commands]]\ninput = []\nprogram = \"p\"\nenvs = [{ name = \"L\" }]\n"),
        invalid(Key::Value, Problem::Missing)
    );
    assert_eq!(
        refused(
            "[[commands]]\ninput = []\nprogram = \"p\"\nenvs = [{ name = 1, value = \"C\" }]\n"
        ),
        invalid(Key::Name, Problem::ExpectedString)
    );
}

#[test]
fn first_unusable_command_is_reported() {
    let text = "[[commands]]\ninput = []\nprogram = \"ok\"\n\n\
                [[commands]]\ninput = []\n\n\
                [[commands]]\nprogram = \"late\"\n";
    assert_eq!(refused(text), invalid(Key::Program, Problem::Missing));
}

#[test]
fn unknown_theme_is_refused() {
    assert_eq!(
        refused("[window]\ntheme = \"blue\"\n"),
        invalid(Key::Theme, Problem::UnknownName)
    );
    assert_eq!(refused("[window]\ntheme = 1\n"), invalid(Key::Theme, Problem::ExpectedString));
}

#[test]
fn wrong_types_in_sections_are_refused() {
    assert_eq!(
        refused("[title]\ndisplayed_folders = -1\n"),
        invalid(Key::DisplayedFolders, Problem::OutOfRange)
    );
    assert_eq!(
        refused("[title]\nshow_program_name = \"no\"\n"),
        invalid(Key::ShowProgramName, Problem::ExpectedBoolean)
    );
    assert_eq!(
        refused("[updates]\ncheck_updates = 0\n"),
        invalid(Key::CheckUpdates, Problem::ExpectedBoolean)
    );
    assert_eq!(
        refused("[image]\nantialiasing = 2\n"),
        invalid(Key::Antialiasing, Problem::ExpectedString)
    );
    assert_eq!(
        refused("[window]\nstart_fullscreen = 1\n"),
        invalid(Key::StartFullscreen, Problem::ExpectedBoolean)
    );
    assert_eq!(refused("title = true"), invalid(Key::Title, Problem::ExpectedTable));
}

#[test]
fn malformed_config_is_a_syntax_error() {
    assert!(matches!(refused("bindings = ["), LoadError::Syntax(_)));
}

#[test]
fn config_table_from_another_source_is_read() {
    let table: toml::Table = "[title]\nshow_program_name = true".parse().unwrap();
    let config = Configuration::from_table(&table).unwrap();
    assert_eq!(
        config.title,
        Some(TitleSection { displayed_folders: None, show_program_name: Some(true) })
    );
    assert!(config.window.is_none());
}

#[test]
fn keys_are_written_as_in_a_document() {
    assert_eq!(Key::UseLastWindowArea.name(), "use_last_window_area");
    assert_eq!(Key::WinW.name(), "win_w");
    assert_eq!(Key::Commands.name(), "commands");
    assert_eq!(Problem::ExpectedArray.description(), "expected an array");
}
