use scv::color::{interpolate_color, Color, ColorGradient};
use scv::confirm::ConfirmationDialog;
use scv::easing::EASE_SCALE;
use scv::input::AnimatedInput;
use scv::keys::{KeyCode, KeyInput};
use scv::layout::{center_rect, Rect, ResponsiveLayout};
use scv::menu::{AnimatedMenu, MenuBuilder, MenuItem, MenuPresets};
use scv::loading::{LoadingPresets, LoadingType};
use scv::menu::entrance_slide_offset;
use scv::strutil::{parse_student_names, str_eq, trim_chars, u64_to_string};
use scv::themes::{ActivityLevel, AsciiArt, Themes};

#[test]
fn theme_lookup_by_name() {
    let themes = Themes::new();
    assert!(themes.get_theme_by_name("neon_night").is_some());
    assert!(themes.get_theme_by_name("cyberpunk").is_some());
    assert!(themes.get_theme_by_name("no_such_theme").is_none());
    assert_eq!(themes.list_theme_names().len(), 5);
    let default = themes.default_theme();
    assert_eq!(default.primary, Color::Rgb(0, 212, 255));
}

#[test]
fn activity_levels_bucket_commit_counts() {
    assert_eq!(ActivityLevel::from_commit_count(0), ActivityLevel::Inactive);
    assert_eq!(ActivityLevel::from_commit_count(1), ActivityLevel::Low);
    assert_eq!(ActivityLevel::from_commit_count(2), ActivityLevel::Low);
    assert_eq!(ActivityLevel::from_commit_count(3), ActivityLevel::Medium);
    assert_eq!(ActivityLevel::from_commit_count(5), ActivityLevel::Medium);
    assert_eq!(ActivityLevel::from_commit_count(6), ActivityLevel::High);
    assert_eq!(ActivityLevel::from_commit_count(10), ActivityLevel::High);
    assert_eq!(ActivityLevel::from_commit_count(11), ActivityLevel::Max);
}

#[test]
fn activity_colors_follow_the_palette() {
    let themes = Themes::new();
    let t = themes.default_theme();
    assert_eq!(t.activity_color(ActivityLevel::Inactive), t.activity_none);
    assert_eq!(t.activity_color(ActivityLevel::Max), t.activity_max);
}

#[test]
fn color_interpolation_endpoints_and_midpoint() {
    let a = Color::Rgb(0, 0, 0);
    let b = Color::Rgb(200, 100, 50);
    assert_eq!(interpolate_color(a, b, 0), a);
    assert_eq!(interpolate_color(a, b, EASE_SCALE), b);
    assert_eq!(interpolate_color(a, b, EASE_SCALE / 2), Color::Rgb(100, 50, 25));
    // Non-true-color pairs cut over at the midpoint.
    assert_eq!(interpolate_color(Color::Red, Color::Blue, 100), Color::Red);
    assert_eq!(interpolate_color(Color::Red, Color::Blue, EASE_SCALE), Color::Blue);
}

#[test]
fn gradients_run_start_to_end() {
    let g = ColorGradient::new(Color::Rgb(0, 0, 0), Color::Rgb(100, 100, 100), 5);
    let colors = g.colors();
    assert_eq!(colors.len(), 5);
    assert_eq!(colors[0], Color::Rgb(0, 0, 0));
    assert_eq!(colors[4], Color::Rgb(100, 100, 100));
}

#[test]
fn responsive_layout_buckets() {
    let mut l = ResponsiveLayout::new();
    assert!(!l.is_small_screen());
    assert!(!l.is_large_screen());
    l.update_size(79, 24);
    assert!(l.is_small_screen());
    l.update_size(120, 40);
    assert!(l.is_large_screen());
}

#[test]
fn centered_rectangles_stay_inside() {
    let area = Rect { x: 2, y: 3, width: 100, height: 40 };
    let c = center_rect(60, 50, area);
    assert_eq!(c.width, 60);
    assert_eq!(c.height, 20);
    assert_eq!(c.x, 2 + 20);
    assert_eq!(c.y, 3 + 10);
}

#[test]
fn menu_selection_wraps_both_ways() {
    let mut menu = MenuBuilder::new()
        .title("T")
        .simple_item("a")
        .simple_item("b")
        .simple_item("c")
        .build();
    assert_eq!(menu.selected_index(), 0);
    menu.select_previous();
    assert_eq!(menu.selected_index(), 2);
    menu.select_next();
    assert_eq!(menu.selected_index(), 0);
    menu.select_item(1);
    assert_eq!(menu.selected_item().unwrap().title, "b");
    menu.select_item(99);
    assert_eq!(menu.selected_index(), 1, "an out-of-range jump is ignored");
}

#[test]
fn empty_menu_is_inert() {
    let mut menu = AnimatedMenu::new(Vec::new());
    menu.select_next();
    menu.select_previous();
    assert!(menu.selected_item().is_none());
}

#[test]
fn menu_items_build_up() {
    let item = MenuItem::new("Run")
        .with_description("runs")
        .with_icon(">")
        .with_hotkey('r');
    assert_eq!(item.title, "Run");
    assert_eq!(item.description.as_deref(), Some("runs"));
    assert_eq!(item.icon.as_deref(), Some(">"));
    assert_eq!(item.hotkey, Some('r'));
    assert!(item.enabled);
    assert!(!item.disabled().enabled);
}

#[test]
fn preset_menus_have_their_rows() {
    let m = MenuPresets::main_menu();
    assert_eq!(m.items()[0].title, "Manage Classes");
    assert_eq!(m.items()[4].title, "Quit");
    let m = MenuPresets::class_management("CS");
    assert_eq!(m.items().len(), 6);
    let m = MenuPresets::student_management("CS");
    assert_eq!(m.items()[0].title, "Add Students");
    let m = MenuPresets::repository_management("CS");
    assert_eq!(m.items()[0].title, "Clone All Repos");
    let m = MenuPresets::github_activity("CS");
    assert_eq!(m.items()[1].title, "Latest Activity");
}

#[test]
fn input_field_editing() {
    let mut input = AnimatedInput::new("Name");
    input.focus();
    for c in "hello".chars() {
        input.handle_key_event(KeyInput::plain(KeyCode::Char(c)));
    }
    assert_eq!(input.value(), "hello");
    input.handle_key_event(KeyInput::plain(KeyCode::Backspace));
    assert_eq!(input.value(), "hell");
    input.handle_key_event(KeyInput::plain(KeyCode::Home));
    input.handle_key_event(KeyInput::plain(KeyCode::Delete));
    assert_eq!(input.value(), "ell");
    input.handle_key_event(KeyInput::plain(KeyCode::Char('b')));
    assert_eq!(input.value(), "bell");
    input.handle_key_event(KeyInput::plain(KeyCode::End));
    input.handle_key_event(KeyInput::plain(KeyCode::Char('s')));
    assert_eq!(input.value(), "bells");
    assert_eq!(input.cursor_position(), 5);
}

#[test]
fn confirmation_dialog_answers() {
    let mut d = ConfirmationDialog::new("Delete?", "Really delete this?")
        .with_yes_text("Delete")
        .with_no_text("Keep");
    assert!(!d.is_visible());
    assert!(d.handle_key_event(KeyInput::plain(KeyCode::Char('y'))).is_none());
    d.show();
    assert!(d.is_visible());
    assert_eq!(d.handle_key_event(KeyInput::plain(KeyCode::Char('y'))), Some(true));
    assert!(!d.is_visible());
    d.show();
    assert_eq!(d.handle_key_event(KeyInput::plain(KeyCode::Esc)), Some(false));
}

#[test]
fn string_helpers() {
    assert_eq!(u64_to_string(0), "0");
    assert_eq!(u64_to_string(907), "907");
    assert!(str_eq("abc", "abc"));
    assert!(!str_eq("abc", "abd"));
    assert!(!str_eq("abc", "ab"));
    let trimmed = trim_chars(&"  a b  ".chars().collect());
    assert_eq!(trimmed, "a b".chars().collect::<Vec<char>>());
    let names = parse_student_names(&" ada, grace ,, bob ".chars().collect());
    assert_eq!(names, vec!["ada".to_string(), "grace".to_string(), "bob".to_string()]);
    let none = parse_student_names(&" , , ".chars().collect());
    assert!(none.is_empty());
}

#[test]
fn ascii_art_sets() {
    assert_eq!(AsciiArt::logo().len(), 8);
    assert_eq!(AsciiArt::github_octocat().len(), 8);
    assert_eq!(AsciiArt::loading_spinner_frames().len(), 10);
    assert_eq!(AsciiArt::celebration_confetti().len(), 7);
}

#[test]
fn loading_presets_carry_their_messages() {
    let themes = Themes::new();
    let t = themes.default_theme();
    assert_eq!(LoadingPresets::cloning_repos(t).message, "Cloning repositories...");
    assert_eq!(LoadingPresets::fetching_github_data(t).message, "Fetching GitHub data...");
    assert_eq!(LoadingPresets::initializing(t).message, "Initializing...");
    assert_eq!(LoadingPresets::hacker_mode(t).message, "Accessing the mainframe...");
    let p = LoadingPresets::processing_students(3, 12, t);
    assert_eq!(p.message, "Processing students (3/12)");
    assert!(matches!(p.loading_type, LoadingType::ProgressBar { current: 3, total: 12 }));
    assert!(p.show_percentage);
}

#[test]
fn entrance_slide_starts_out_and_settles_in() {
    // Before the slide begins every row sits ten cells out.
    assert_eq!(entrance_slide_offset(0, 0), 10);
    assert_eq!(entrance_slide_offset(0, 3), 10);
    // Once the slide completes the first rows sit flush; late rows
    // lag behind their stagger.
    assert_eq!(entrance_slide_offset(EASE_SCALE, 0), 0);
    assert_eq!(entrance_slide_offset(EASE_SCALE, 4), 0);
    assert!(entrance_slide_offset(EASE_SCALE / 2, 4) > 0);
}
