use emulsion_settings::paths::ComponentKind;
use emulsion_settings::title::{plan_title, TitlePlan, TitleSection, PROGRAM_NAME_SUFFIX};

fn showing(folders: Option<u32>) -> TitleSection {
    TitleSection { displayed_folders: folders, show_program_name: None }
}

#[test]
fn deep_path_keeps_one_folder() {
    assert_eq!(showing(Some(1)).format_file_path("/a/b/c/d/file.txt"), "d/file.txt");
}

#[test]
fn deep_path_keeps_two_folders() {
    assert_eq!(showing(Some(2)).format_file_path("/a/b/c/d/file.txt"), "c/d/file.txt");
}

#[test]
fn no_folders_asked_gives_file_name() {
    assert_eq!(showing(None).format_file_path("/a/b/c/d/file.txt"), "file.txt");
}

#[test]
fn zero_folders_gives_file_name() {
    assert_eq!(showing(Some(0)).format_file_path("/a/b/c/d/file.txt"), "file.txt");
}

#[test]
fn shallow_path_is_returned_whole() {
    assert_eq!(showing(Some(5)).format_file_path("/a/file.txt"), "/a/file.txt");
}

#[test]
fn path_at_the_limit_is_returned_whole() {
    // Root, `a`, `b`, `file.txt`: four components for three that are shown
    // below the root.
    assert_eq!(showing(Some(3)).format_file_path("/a/b/file.txt"), "/a/b/file.txt");
    assert_eq!(showing(Some(2)).format_file_path("/a/b/file.txt"), "a/b/file.txt");
}

#[test]
fn relative_path_is_cut_like_an_absolute_one() {
    assert_eq!(showing(Some(1)).format_file_path("a/b/c/d.txt"), "c/d.txt");
    assert_eq!(showing(Some(3)).format_file_path("a/b/c/d.txt"), "a/b/c/d.txt");
}

#[test]
fn largest_folder_count_shows_the_whole_path() {
    assert_eq!(
        showing(Some(u32::MAX)).format_file_path("/a/b/c/d/file.txt"),
        "/a/b/c/d/file.txt"
    );
}

#[test]
fn long_path_marker_is_stripped_from_a_whole_path() {
    assert_eq!(showing(Some(5)).format_file_path("\\\\?\\file.txt"), "file.txt");
}

#[test]
fn repeated_long_path_marker_is_stripped_entirely() {
    assert_eq!(showing(Some(5)).format_file_path("\\\\?\\\\\\?\\file.txt"), "file.txt");
}

#[test]
fn long_path_marker_inside_the_path_stays() {
    assert_eq!(showing(Some(5)).format_file_path("a/\\\\?\\b"), "a/\\\\?\\b");
}

#[test]
fn redundant_separators_stay_in_the_remainder() {
    assert_eq!(showing(Some(1)).format_file_path("/a/b/c//d.txt"), "c//d.txt");
}

#[test]
fn try_format_agrees_where_the_title_is_defined() {
    let section = showing(Some(1));
    assert_eq!(
        section.try_format_file_path("/a/b/c/d/file.txt"),
        Some(String::from("d/file.txt"))
    );
    assert_eq!(showing(None).try_format_file_path("/a/b.png"), Some(String::from("b.png")));
    assert_eq!(showing(Some(4)).try_format_file_path("/"), Some(String::from("/")));
}

#[test]
fn try_format_is_none_without_a_file_name() {
    assert_eq!(showing(None).try_format_file_path("/"), None);
    assert_eq!(showing(Some(0)).try_format_file_path(".."), None);
    assert_eq!(showing(None).try_format_file_path(""), None);
}

#[test]
fn plan_counts_from_the_root_marker() {
    let kinds = vec![
        ComponentKind::Prefix,
        ComponentKind::RootDir,
        ComponentKind::Normal,
        ComponentKind::Normal,
    ];
    // Three components from the root on.
    assert_eq!(plan_title(Some(2), &kinds), TitlePlan::WholePath);
    assert_eq!(plan_title(Some(1), &kinds), TitlePlan::Tail { levels: 2 });
}

#[test]
fn plan_without_root_counts_every_component() {
    let kinds = vec![ComponentKind::Normal, ComponentKind::Normal, ComponentKind::Normal];
    assert_eq!(plan_title(Some(2), &kinds), TitlePlan::WholePath);
    assert_eq!(plan_title(Some(1), &kinds), TitlePlan::Tail { levels: 2 });
    assert_eq!(plan_title(Some(0), &kinds), TitlePlan::FileName);
    assert_eq!(plan_title(None, &kinds), TitlePlan::FileName);
}

#[test]
fn plan_for_no_components_is_the_whole_path() {
    assert_eq!(plan_title(Some(1), &Vec::new()), TitlePlan::WholePath);
}

#[test]
fn plan_with_largest_folder_count_does_not_overflow() {
    let kinds = vec![ComponentKind::RootDir, ComponentKind::Normal];
    assert_eq!(plan_title(Some(u32::MAX), &kinds), TitlePlan::WholePath);
}

#[test]
fn program_name_is_shown_unless_switched_off() {
    let mut section = TitleSection::default();
    assert_eq!(section.format_program_name(), " : E M U L S I O N");
    section.show_program_name = Some(true);
    assert_eq!(section.format_program_name(), PROGRAM_NAME_SUFFIX);
    section.show_program_name = Some(false);
    assert_eq!(section.format_program_name(), "");
}

#[test]
fn default_title_section_is_empty() {
    let section = TitleSection::default();
    assert_eq!(section.displayed_folders, None);
    assert_eq!(section.show_program_name, None);
}

#[test]
fn has_title_tells_whether_there_is_a_part_to_show() {
    assert!(showing(None).has_title("/a/b.png"));
    assert!(!showing(None).has_title("/"));
    assert!(showing(Some(1)).has_title("/"));
    assert!(showing(Some(1)).has_title("/a/b/c/d"));
}
