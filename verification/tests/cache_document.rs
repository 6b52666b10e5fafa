use emulsion_settings::fields::{Invalid, Key, Problem};
use emulsion_settings::{
    Antialias, Cache, CacheImageSection, CacheUpdateSection, CacheWindowSection, LoadError,
    SaveError,
};

fn invalid(key: Key, problem: Problem) -> LoadError {
    LoadError::Invalid(Invalid { key, problem })
}

fn sample() -> Cache {
    Cache {
        window: CacheWindowSection { dark: true, win_w: 1024, win_h: 768, win_x: -20, win_y: 0 },
        updates: CacheUpdateSection { last_checked: 1_700_000_000 },
        image: CacheImageSection { fit_stretches: true, antialiasing: Antialias::Never },
    }
}

#[test]
fn only_the_width_is_stored() {
    let cache = Cache::from_toml("[window]\nwin_w = 100\n").unwrap();
    assert_eq!(cache.window.win_w, 100);
    assert_eq!(cache.window, CacheWindowSection { win_w: 100, ..CacheWindowSection::default() });
    assert_eq!(cache.updates, CacheUpdateSection::default());
    assert_eq!(cache.image, CacheImageSection::default());
}

#[test]
fn dotted_key_stores_the_width_too() {
    let cache = Cache::from_toml("window.win_w = 100").unwrap();
    assert_eq!(cache.window, CacheWindowSection { win_w: 100, ..CacheWindowSection::default() });
}

#[test]
fn empty_document_is_the_default_cache() {
    assert_eq!(Cache::from_toml("").unwrap(), Cache::default());
}

#[test]
fn empty_sections_are_the_default_cache() {
    assert_eq!(Cache::from_toml("[window]\n[updates]\n[image]\n").unwrap(), Cache::default());
}

#[test]
fn full_document_is_read() {
    let text = "[window]\ndark = true\nwin_w = 1024\nwin_h = 768\nwin_x = -20\nwin_y = 0\n\n\
                [updates]\nlast_checked = 1700000000\n\n\
                [image]\nfit_stretches = true\nantialiasing = \"never\"\n";
    assert_eq!(Cache::from_toml(text).unwrap(), sample());
}

#[test]
fn unknown_keys_are_ignored() {
    let text = "color = \"red\"\n[window]\nwin_h = 3\nshape = [1, 2]\n[other]\nx = 1.5\n";
    let cache = Cache::from_toml(text).unwrap();
    assert_eq!(cache.window, CacheWindowSection { win_h: 3, ..CacheWindowSection::default() });
}

#[test]
fn written_cache_reads_back() {
    let cache = sample();
    let text = cache.to_toml().unwrap();
    assert_eq!(Cache::from_toml(&text).unwrap(), cache);
}

#[test]
fn default_cache_reads_back() {
    let text = Cache::default().to_toml().unwrap();
    assert_eq!(Cache::from_toml(&text).unwrap(), Cache::default());
}

#[test]
fn extreme_values_read_back() {
    let cache = Cache {
        window: CacheWindowSection {
            dark: false,
            win_w: u32::MAX,
            win_h: 0,
            win_x: i32::MIN,
            win_y: i32::MAX,
        },
        updates: CacheUpdateSection { last_checked: i64::MAX as u64 },
        image: CacheImageSection { fit_stretches: false, antialiasing: Antialias::Always },
    };
    let text = cache.to_toml().unwrap();
    assert_eq!(Cache::from_toml(&text).unwrap(), cache);
}

#[test]
fn written_table_holds_every_field() {
    let table = sample().to_table().unwrap();
    assert_eq!(table.len(), 3);
    let window = table["window"].as_table().unwrap();
    assert_eq!(window.len(), 5);
    assert_eq!(window["dark"].as_bool(), Some(true));
    assert_eq!(window["win_w"].as_integer(), Some(1024));
    assert_eq!(window["win_h"].as_integer(), Some(768));
    assert_eq!(window["win_x"].as_integer(), Some(-20));
    assert_eq!(window["win_y"].as_integer(), Some(0));
    let updates = table["updates"].as_table().unwrap();
    assert_eq!(updates.len(), 1);
    assert_eq!(updates["last_checked"].as_integer(), Some(1_700_000_000));
    let image = table["image"].as_table().unwrap();
    assert_eq!(image.len(), 2);
    assert_eq!(image["fit_stretches"].as_bool(), Some(true));
    assert_eq!(image["antialiasing"].as_str(), Some("never"));
}

#[test]
fn table_from_another_source_is_read() {
    let table: toml::Table = "[image]\nantialiasing = \"always\"".parse().unwrap();
    let cache = Cache::from_table(&table).unwrap();
    assert_eq!(cache.image.antialiasing, Antialias::Always);
    assert_eq!(cache.window, CacheWindowSection::default());
}

#[test]
fn timestamp_beyond_a_document_is_refused() {
    let mut cache = Cache::default();
    cache.updates.last_checked = i64::MAX as u64 + 1;
    let refused = Invalid { key: Key::LastChecked, problem: Problem::OutOfRange };
    assert_eq!(cache.to_toml(), Err(SaveError::Invalid(refused)));
    assert_eq!(cache.to_table().err(), Some(refused));
    assert_eq!(cache.updates.last_checked, i64::MAX as u64 + 1);
}

#[test]
fn malformed_text_is_a_syntax_error() {
    match Cache::from_toml("[window\nwin_w = 1") {
        Err(LoadError::Syntax(message)) => assert!(!message.is_empty()),
        other => panic!("unexpected result: {:?}", other),
    }
}

#[test]
fn duplicate_key_is_a_syntax_error() {
    assert!(matches!(
        Cache::from_toml("[window]\nwin_w = 1\nwin_w = 2\n"),
        Err(LoadError::Syntax(_))
    ));
}

#[test]
fn section_that_is_no_table_is_refused() {
    assert_eq!(Cache::from_toml("window = 3"), Err(invalid(Key::Window, Problem::ExpectedTable)));
    assert_eq!(
        Cache::from_toml("updates = \"now\""),
        Err(invalid(Key::Updates, Problem::ExpectedTable))
    );
    assert_eq!(
        Cache::from_toml("image = [1]"),
        Err(invalid(Key::Image, Problem::ExpectedTable))
    );
}

#[test]
fn wrong_type_is_refused() {
    assert_eq!(
        Cache::from_toml("[window]\ndark = 5"),
        Err(invalid(Key::Dark, Problem::ExpectedBoolean))
    );
    assert_eq!(
        Cache::from_toml("[window]\nwin_w = \"wide\""),
        Err(invalid(Key::WinW, Problem::ExpectedInteger))
    );
    assert_eq!(
        Cache::from_toml("[window]\nwin_x = 1.0"),
        Err(invalid(Key::WinX, Problem::ExpectedInteger))
    );
    assert_eq!(
        Cache::from_toml("[image]\nantialiasing = true"),
        Err(invalid(Key::Antialiasing, Problem::ExpectedString))
    );
    assert_eq!(
        Cache::from_toml("[image]\nfit_stretches = \"yes\""),
        Err(invalid(Key::FitStretches, Problem::ExpectedBoolean))
    );
}

#[test]
fn number_out_of_range_is_refused() {
    assert_eq!(
        Cache::from_toml("[window]\nwin_w = -1"),
        Err(invalid(Key::WinW, Problem::OutOfRange))
    );
    assert_eq!(
        Cache::from_toml("[window]\nwin_h = 4294967296"),
        Err(invalid(Key::WinH, Problem::OutOfRange))
    );
    assert_eq!(
        Cache::from_toml("[window]\nwin_x = 2147483648"),
        Err(invalid(Key::WinX, Problem::OutOfRange))
    );
    assert_eq!(
        Cache::from_toml("[window]\nwin_y = -2147483649"),
        Err(invalid(Key::WinY, Problem::OutOfRange))
    );
    assert_eq!(
        Cache::from_toml("[updates]\nlast_checked = -5"),
        Err(invalid(Key::LastChecked, Problem::OutOfRange))
    );
}

#[test]
fn numbers_at_the_limits_are_read() {
    let text = "[window]\nwin_w = 4294967295\nwin_h = 0\nwin_x = -2147483648\n\
                win_y = 2147483647\n[updates]\nlast_checked = 9223372036854775807\n";
    let cache = Cache::from_toml(text).unwrap();
    assert_eq!(cache.window.win_w, u32::MAX);
    assert_eq!(cache.window.win_h, 0);
    assert_eq!(cache.window.win_x, i32::MIN);
    assert_eq!(cache.window.win_y, i32::MAX);
    assert_eq!(cache.updates.last_checked, i64::MAX as u64);
}

#[test]
fn unknown_antialiasing_is_refused() {
    assert_eq!(
        Cache::from_toml("[image]\nantialiasing = \"sometimes\""),
        Err(invalid(Key::Antialiasing, Problem::UnknownName))
    );
}

#[test]
fn first_unusable_key_is_reported() {
    let text = "[image]\nfit_stretches = 1\n[window]\nwin_h = true\nwin_w = true\n";
    assert_eq!(Cache::from_toml(text), Err(invalid(Key::WinW, Problem::ExpectedInteger)));
}

#[test]
fn messages_name_the_key_and_the_problem() {
    let error = Cache::from_toml("[window]\nwin_w = -1").unwrap_err();
    assert_eq!(error.message(), "win_w: number out of range");
    let error = Cache::from_toml("[window]\ndark = 1").unwrap_err();
    assert_eq!(error.message(), "dark: expected a boolean");
    let refused = Invalid { key: Key::LastChecked, problem: Problem::OutOfRange };
    assert_eq!(SaveError::Invalid(refused).message(), "last_checked: number out of range");
    assert_eq!(SaveError::Print(String::from("no")).message(), "no");
    assert_eq!(LoadError::Syntax(String::from("bad")).message(), "bad");
    assert_eq!(
        Invalid { key: Key::Program, problem: Problem::Missing }.message(),
        "program: missing"
    );
}

#[test]
fn syntax_message_is_the_parsers() {
    let text = "[window\n";
    let expected = text.parse::<toml::Table>().unwrap_err().to_string();
    assert_eq!(Cache::from_toml(text).unwrap_err().message(), expected);
}
