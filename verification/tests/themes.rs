//! The look of the window and the saved themes.

use foxy_views::settings::themes::{
    arrow_target, color_label, font_label, section_rows, FontSizeRange, Look, RgbColor, Theme,
    ThemeFileOutcome, ThemeOutcome, ThemeSettings, UiScale, COLOR_COUNT, FONT_COUNT,
};

fn look(size: u16) -> Look {
    Look { font_sizes: vec![size], palette_colors: vec![RgbColor { red: 1, green: 2, blue: 3 }] }
}

fn limits() -> Vec<FontSizeRange> {
    vec![FontSizeRange { min: 8, max: 20 }]
}

fn settings(names: &[&str]) -> ThemeSettings {
    ThemeSettings {
        look: look(10),
        saved_themes: names
            .iter()
            .map(|name| Theme { name: name.to_string(), look: look(99) })
            .collect(),
        selected_saved_theme: None,
        saved_theme_name_draft: String::new(),
        new_theme_name_draft: String::new(),
        show_add_theme_modal: false,
        focus_new_theme_name: false,
    }
}

#[test]
fn sizes_are_clamped_once() {
    let mut small = look(1);
    small.clamp_to_limits(&limits());
    assert_eq!(small.font_sizes, vec![8]);
    let mut large = look(99);
    large.clamp_to_limits(&limits());
    large.clamp_to_limits(&limits());
    assert_eq!(large.font_sizes, vec![20]);
    assert_eq!(large.palette_colors[0].blue, 3);
}

#[test]
fn labels_are_distinct() {
    let fonts: Vec<&str> = (0..FONT_COUNT).map(font_label).collect();
    let colors: Vec<&str> = (0..COLOR_COUNT).map(color_label).collect();
    for labels in [fonts, colors] {
        for (i, label) in labels.iter().enumerate() {
            assert!(!label.is_empty());
            assert!(!labels[..i].contains(label));
        }
    }
}

#[test]
fn scales_are_applied_on_request() {
    let mut s = UiScale { percent: 100, draft: 150 };
    assert!(s.apply() && s.percent == 150);
    assert!(!s.apply());
    assert!(s.reset() && s.percent == 100 && s.draft == 100);
    assert!(!s.reset());
}

#[test]
fn new_themes_need_a_new_name() {
    let mut s = settings(&["Dark"]);
    s.open_add_theme_modal();
    assert!(s.show_add_theme_modal && s.focus_new_theme_name);
    assert_eq!(s.answer_add_theme(true, false), ThemeOutcome::NameMissing);
    s.new_theme_name_draft = " dark ".to_string();
    assert_eq!(s.answer_add_theme(true, false), ThemeOutcome::NameTaken);
    assert!(s.show_add_theme_modal);
    s.new_theme_name_draft = " Light ".to_string();
    assert_eq!(s.answer_add_theme(true, false), ThemeOutcome::Added);
    assert!(!s.show_add_theme_modal);
    assert_eq!(s.saved_themes[1].name, "Light");
    assert_eq!(s.saved_themes[1].look.font_sizes, vec![10]);
    assert_eq!(s.selected_saved_theme, Some(1));
    assert_eq!(s.saved_theme_name_draft, "Light");
    s.open_add_theme_modal();
    assert_eq!(s.answer_add_theme(false, true), ThemeOutcome::Nothing);
    assert!(!s.show_add_theme_modal);
}

#[test]
fn saved_themes_are_replaced_and_loaded() {
    let mut s = settings(&["Dark", "Light"]);
    assert_eq!(s.load_selected_theme(&limits()), ThemeOutcome::Nothing);
    s.select_saved_theme(5);
    assert_eq!(s.selected_saved_theme, None);
    s.select_saved_theme(1);
    assert_eq!(s.load_selected_theme(&limits()), ThemeOutcome::Loaded);
    assert_eq!(s.look.font_sizes, vec![20]);
    s.saved_theme_name_draft = "DARK".to_string();
    assert_eq!(s.save_selected_theme(), ThemeOutcome::NameTaken);
    s.saved_theme_name_draft = "LIGHT".to_string();
    assert_eq!(s.save_selected_theme(), ThemeOutcome::Updated);
    assert_eq!(s.saved_themes[1].name, "LIGHT");
    assert_eq!(s.saved_themes[1].look.font_sizes, vec![20]);
    // What was saved is what is loaded.
    s.apply_theme(look(9), &limits());
    assert_eq!(s.look.font_sizes, vec![9]);
    s.load_selected_theme(&limits());
    assert_eq!(s.look.font_sizes, vec![20]);
    s.saved_theme_name_draft = " ".to_string();
    assert_eq!(s.save_selected_theme(), ThemeOutcome::NameMissing);
}

#[test]
fn deleting_selects_a_neighbour() {
    let mut s = settings(&["a", "b", "c"]);
    assert_eq!(s.delete_selected_theme(), ThemeOutcome::Nothing);
    s.select_saved_theme(1);
    assert_eq!(s.delete_selected_theme(), ThemeOutcome::Deleted);
    assert_eq!(s.selected_saved_theme, Some(1));
    assert_eq!(s.saved_theme_name_draft, "c");
    s.delete_selected_theme();
    assert_eq!(s.saved_theme_name_draft, "a");
    s.delete_selected_theme();
    assert_eq!(s.selected_saved_theme, None);
    assert_eq!(s.saved_theme_name_draft, "");
}

#[test]
fn outcomes_are_told_and_saved() {
    assert_eq!(ThemeOutcome::Nothing.toast(), None);
    assert_eq!(ThemeOutcome::NameMissing.toast(), Some("Enter a theme name first."));
    assert_eq!(
        ThemeOutcome::NameTaken.toast(),
        Some("A saved theme with this name already exists.")
    );
    assert!(ThemeOutcome::Deleted.saves() && !ThemeOutcome::NameTaken.saves());
    assert!(ThemeFileOutcome::Exported.toast().1);
    assert!(!ThemeFileOutcome::NotATheme.toast().1);
    assert!(!ThemeFileOutcome::ExportFailed.toast().1);
    assert!(!ThemeFileOutcome::ReadFailed.toast().1);
    assert!(ThemeFileOutcome::Imported.toast().1);
}

#[test]
fn arrows_stay_in_the_list() {
    assert_eq!(arrow_target(0, true, false, 2), None);
    assert_eq!(arrow_target(1, true, false, 2), Some(0));
    assert_eq!(arrow_target(0, false, true, 2), Some(1));
    assert_eq!(arrow_target(1, false, true, 2), None);
    assert_eq!(arrow_target(1, false, false, 2), None);
}

#[test]
fn sections_break_into_rows() {
    assert_eq!(section_rows(5, 2), vec![(0, 2), (2, 4), (4, 5)]);
    assert_eq!(section_rows(4, 2), vec![(0, 2), (2, 4)]);
    assert!(section_rows(0, 3).is_empty());
}
