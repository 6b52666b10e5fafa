use emulsion_settings::cache::{
    IncompleteImageSection, IncompleteUpdateSection, IncompleteWindowSection,
    UPDATE_INTERVAL_SECS,
};
use emulsion_settings::clock::{read_clock, UnixTime};
use emulsion_settings::{
    Antialias, Cache, CacheImageSection, CacheUpdateSection, CacheWindowSection, IncompleteCache,
    Theme,
};
use std::time::{SystemTime, UNIX_EPOCH};

fn now_secs() -> u64 {
    SystemTime::now().duration_since(UNIX_EPOCH).unwrap().as_secs()
}

fn at(secs: u64, nanos: u32) -> Option<UnixTime> {
    Some(UnixTime { secs, nanos })
}

#[test]
fn switch_theme_swaps_the_variants() {
    assert_eq!(Theme::Light.switch_theme(), Theme::Dark);
    assert_eq!(Theme::Dark.switch_theme(), Theme::Light);
    assert_eq!(Theme::Dark.switch_theme().switch_theme(), Theme::Dark);
}

#[test]
fn antialias_defaults_to_auto() {
    assert_eq!(Antialias::default(), Antialias::Auto);
}

#[test]
fn names_of_themes_and_settings() {
    assert_eq!(Theme::Light.name(), "light");
    assert_eq!(Theme::Dark.name(), "dark");
    assert_eq!(Theme::from_name("dark"), Some(Theme::Dark));
    assert_eq!(Theme::from_name("Dark"), None);
    assert_eq!(Antialias::Auto.name(), "auto");
    assert_eq!(Antialias::Always.name(), "always");
    assert_eq!(Antialias::Never.name(), "never");
    assert_eq!(Antialias::from_name("never"), Some(Antialias::Never));
    assert_eq!(Antialias::from_name("always"), Some(Antialias::Always));
    assert_eq!(Antialias::from_name("auto"), Some(Antialias::Auto));
    assert_eq!(Antialias::from_name(""), None);
}

#[test]
fn default_window_section() {
    let window = CacheWindowSection::default();
    assert_eq!(
        window,
        CacheWindowSection { dark: false, win_w: 580, win_h: 558, win_x: 64, win_y: 64 }
    );
}

#[test]
fn default_cache_is_all_defaults() {
    let cache = Cache::default();
    assert_eq!(cache.window, CacheWindowSection::default());
    assert_eq!(cache.updates, CacheUpdateSection { last_checked: 0 });
    assert_eq!(
        cache.image,
        CacheImageSection { fit_stretches: false, antialiasing: Antialias::Auto }
    );
}

#[test]
fn theme_follows_the_dark_flag() {
    let mut cache = Cache::default();
    assert_eq!(cache.theme(), Theme::Light);
    cache.window.dark = true;
    assert_eq!(cache.theme(), Theme::Dark);
}

#[test]
fn set_theme_then_theme_gives_it_back() {
    let mut cache = Cache::default();
    cache.set_theme(Theme::Dark);
    assert_eq!(cache.theme(), Theme::Dark);
    assert!(cache.window.dark);
    cache.set_theme(Theme::Light);
    assert_eq!(cache.theme(), Theme::Light);
    assert!(!cache.window.dark);
}

#[test]
fn set_theme_changes_nothing_else() {
    let mut cache = Cache::default();
    cache.window.win_w = 7;
    cache.updates.last_checked = 9;
    let before = cache.clone();
    cache.set_theme(cache.theme());
    assert_eq!(cache, before);
    cache.set_theme(Theme::Dark);
    assert_eq!(cache.window, CacheWindowSection { dark: true, ..before.window });
    assert_eq!(cache.updates, before.updates);
    assert_eq!(cache.image, before.image);
}

#[test]
fn update_is_due_after_25_hours() {
    let section = CacheUpdateSection { last_checked: now_secs() - 25 * 60 * 60 };
    assert!(section.update_check_needed());
}

#[test]
fn update_is_not_due_after_one_hour() {
    let section = CacheUpdateSection { last_checked: now_secs() - 60 * 60 };
    assert!(!section.update_check_needed());
}

#[test]
fn update_is_not_due_when_last_check_lies_ahead() {
    let section = CacheUpdateSection { last_checked: now_secs() + 60 * 60 };
    assert!(!section.update_check_needed());
}

#[test]
fn update_is_not_due_for_the_largest_timestamp() {
    let section = CacheUpdateSection { last_checked: u64::MAX };
    assert!(!section.update_check_needed());
    assert!(!section.update_check_needed_at(at(u64::MAX, 5)));
}

#[test]
fn update_is_due_only_past_24_hours() {
    let section = CacheUpdateSection { last_checked: 1_000 };
    assert_eq!(UPDATE_INTERVAL_SECS, 86_400);
    assert!(!section.update_check_needed_at(at(1_000 + 86_400, 0)));
    assert!(section.update_check_needed_at(at(1_000 + 86_400, 1)));
    assert!(section.update_check_needed_at(at(1_000 + 86_401, 0)));
    assert!(!section.update_check_needed_at(at(1_000 + 86_399, 999_999_999)));
    assert!(!section.update_check_needed_at(at(1_000, 0)));
    assert!(!section.update_check_needed_at(at(999, 0)));
    assert!(!section.update_check_needed_at(at(0, 0)));
    assert!(!section.update_check_needed_at(None));
}

#[test]
fn stamping_records_the_whole_seconds() {
    let mut section = CacheUpdateSection { last_checked: 5 };
    section.set_update_check_time_at(at(1_234, 999));
    assert_eq!(section.last_checked, 1_234);
    assert!(!section.update_check_needed_at(at(1_234, 999)));
    section.set_update_check_time_at(None);
    assert_eq!(section.last_checked, 0);
}

#[test]
fn stamping_by_the_clock_records_now() {
    let before = now_secs();
    let mut section = CacheUpdateSection::default();
    section.set_update_check_time();
    let after = now_secs();
    assert!(before <= section.last_checked && section.last_checked <= after);
    assert!(!section.update_check_needed());
}

#[test]
fn the_clock_reads_a_time_after_the_epoch() {
    let before = now_secs();
    let now = read_clock().unwrap();
    assert!(now.secs >= before);
    assert!(now.nanos < 1_000_000_000);
}

#[test]
fn empty_stored_cache_fills_to_default() {
    let stored = IncompleteCache { window: None, updates: None, image: None };
    assert_eq!(stored, IncompleteCache::default());
    assert_eq!(Cache::from(stored), Cache::default());
}

#[test]
fn stored_fields_win_over_defaults() {
    let stored = IncompleteCache {
        window: Some(IncompleteWindowSection {
            dark: Some(true),
            win_w: None,
            win_h: Some(1),
            win_x: None,
            win_y: Some(-3),
        }),
        updates: Some(IncompleteUpdateSection { last_checked: None }),
        image: Some(IncompleteImageSection {
            fit_stretches: Some(true),
            antialiasing: None,
        }),
    };
    let cache = Cache::from(stored);
    assert_eq!(
        cache.window,
        CacheWindowSection { dark: true, win_w: 580, win_h: 1, win_x: 64, win_y: -3 }
    );
    assert_eq!(cache.updates.last_checked, 0);
    assert_eq!(
        cache.image,
        CacheImageSection { fit_stretches: true, antialiasing: Antialias::Auto }
    );
}

#[test]
fn sections_fill_on_their_own() {
    assert_eq!(
        CacheWindowSection::from(IncompleteWindowSection::default()),
        CacheWindowSection::default()
    );
    assert_eq!(
        CacheUpdateSection::from(IncompleteUpdateSection::default()),
        CacheUpdateSection::default()
    );
    assert_eq!(
        CacheImageSection::from(IncompleteImageSection::default()),
        CacheImageSection::default()
    );
    assert_eq!(
        CacheUpdateSection::from(IncompleteUpdateSection { last_checked: Some(77) }),
        CacheUpdateSection { last_checked: 77 }
    );
    assert_eq!(
        CacheImageSection::from(IncompleteImageSection {
            fit_stretches: None,
            antialiasing: Some(Antialias::Never),
        }),
        CacheImageSection { fit_stretches: false, antialiasing: Antialias::Never }
    );
}
