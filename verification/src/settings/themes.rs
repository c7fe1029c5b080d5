//! The look of the window: font sizes, colours and saved themes.

use vstd::prelude::*;

use crate::text;
use crate::text::{eq_ignore_ascii_case, trim};

verus! {

broadcast use vstd::string::group_string_axioms;

// ---------------------------------------------------------------------------
// The look
// ---------------------------------------------------------------------------

/// How many font sizes a look has.
pub const FONT_COUNT: usize = 31;

/// How many colours a look has.
pub const COLOR_COUNT: usize = 16;

/// A colour: red, green and blue.
#[derive(Debug, Clone, Copy, PartialEq, Eq, Structural)]
pub struct RgbColor {
    pub red: u8,
    pub green: u8,
    pub blue: u8,
}

/// The smallest and the largest size that a font can have.
#[derive(Debug, Clone, Copy, PartialEq, Eq, Structural)]
pub struct FontSizeRange {
    pub min: u16,
    pub max: u16,
}

/// The label of font size `i`.
pub open spec fn font_label_of(i: int) -> Seq<char> {
    if i == 0 {
        "Window control icons"@
    } else if i == 1 {
        "Activity log toggle icon"@
    } else if i == 2 {
        "Settings page title"@
    } else if i == 3 {
        "Settings close icon"@
    } else if i == 4 {
        "Help page title"@
    } else if i == 5 {
        "Help tab labels"@
    } else if i == 6 {
        "Help section title"@
    } else if i == 7 {
        "Help body text"@
    } else if i == 8 {
        "About H1 heading"@
    } else if i == 9 {
        "About H2 heading"@
    } else if i == 10 {
        "About H3 heading"@
    } else if i == 11 {
        "About body text"@
    } else if i == 12 {
        "Add repository button"@
    } else if i == 13 {
        "Repository toolbar icons"@
    } else if i == 14 {
        "Repository status banners"@
    } else if i == 15 {
        "Launch and Join buttons"@
    } else if i == 16 {
        "Repository settings title"@
    } else if i == 17 {
        "Repository settings close icon"@
    } else if i == 18 {
        "Repository settings refresh icon"@
    } else if i == 19 {
        "Repository addon path text"@
    } else if i == 20 {
        "Update page title"@
    } else if i == 21 {
        "Update close icon"@
    } else if i == 22 {
        "Update section title"@
    } else if i == 23 {
        "Update total size label"@
    } else if i == 24 {
        "Update summary heading"@
    } else if i == 25 {
        "Update summary body fallback"@
    } else if i == 26 {
        "Update mod name"@
    } else if i == 27 {
        "Update mod status"@
    } else if i == 28 {
        "Update mod progress"@
    } else if i == 29 {
        "Update file details"@
    } else {
        "Update pause button"@
    }
}

/// The label of font size `i`, in the order of the tab.
pub fn font_label(i: usize) -> (r: &'static str)
    requires
        i < FONT_COUNT,
    ensures
        r@ == font_label_of(i as int),
{
    match i {
        0 => "Window control icons",
        1 => "Activity log toggle icon",
        2 => "Settings page title",
        3 => "Settings close icon",
        4 => "Help page title",
        5 => "Help tab labels",
        6 => "Help section title",
        7 => "Help body text",
        8 => "About H1 heading",
        9 => "About H2 heading",
        10 => "About H3 heading",
        11 => "About body text",
        12 => "Add repository button",
        13 => "Repository toolbar icons",
        14 => "Repository status banners",
        15 => "Launch and Join buttons",
        16 => "Repository settings title",
        17 => "Repository settings close icon",
        18 => "Repository settings refresh icon",
        19 => "Repository addon path text",
        20 => "Update page title",
        21 => "Update close icon",
        22 => "Update section title",
        23 => "Update total size label",
        24 => "Update summary heading",
        25 => "Update summary body fallback",
        26 => "Update mod name",
        27 => "Update mod status",
        28 => "Update mod progress",
        29 => "Update file details",
        _ => "Update pause button",
    }
}

/// The label of colour `i`.
pub open spec fn color_label_of(i: int) -> Seq<char> {
    if i == 0 {
        "Primary Accent"@
    } else if i == 1 {
        "Widget Background"@
    } else if i == 2 {
        "Main Background"@
    } else if i == 3 {
        "Card Background"@
    } else if i == 4 {
        "Server Offline Background"@
    } else if i == 5 {
        "Text Normal"@
    } else if i == 6 {
        "Text Gray"@
    } else if i == 7 {
        "Text Dim"@
    } else if i == 8 {
        "Text Error"@
    } else if i == 9 {
        "Log Error"@
    } else if i == 10 {
        "Log Warning"@
    } else if i == 11 {
        "Log Debug"@
    } else if i == 12 {
        "Success"@
    } else if i == 13 {
        "Success Muted"@
    } else if i == 14 {
        "Action Info"@
    } else {
        "Action Destructive"@
    }
}

/// The label of colour `i`, in the order of the tab.
pub fn color_label(i: usize) -> (r: &'static str)
    requires
        i < COLOR_COUNT,
    ensures
        r@ == color_label_of(i as int),
{
    match i {
        0 => "Primary Accent",
        1 => "Widget Background",
        2 => "Main Background",
        3 => "Card Background",
        4 => "Server Offline Background",
        5 => "Text Normal",
        6 => "Text Gray",
        7 => "Text Dim",
        8 => "Text Error",
        9 => "Log Error",
        10 => "Log Warning",
        11 => "Log Debug",
        12 => "Success",
        13 => "Success Muted",
        14 => "Action Info",
        _ => "Action Destructive",
    }
}

/// The font sizes and the colours, in the order of the tab.
#[derive(Debug)]
pub struct Look {
    pub font_sizes: Vec<u16>,
    pub palette_colors: Vec<RgbColor>,
}

/// What a look is.
#[verifier::ext_equal]
pub struct LookModel {
    pub font_sizes: Seq<u16>,
    pub palette_colors: Seq<RgbColor>,
}

impl View for Look {
    type V = LookModel;

    open spec fn view(&self) -> LookModel {
        LookModel { font_sizes: self.font_sizes@, palette_colors: self.palette_colors@ }
    }
}

impl Clone for Look {
    fn clone(&self) -> (r: Self)
        ensures
            r@ == self@,
    {
        let font_sizes: Vec<u16> = self.font_sizes.clone();
        let palette_colors: Vec<RgbColor> = self.palette_colors.clone();
        assert(font_sizes@ =~= self.font_sizes@);
        assert(palette_colors@ =~= self.palette_colors@);
        Look { font_sizes, palette_colors }
    }
}

/// Whether a list of limits can hold font sizes: each has its limits, the
/// smallest no larger than the largest.
pub open spec fn limits_hold(limits: Seq<FontSizeRange>, sizes: Seq<u16>) -> bool {
    &&& limits.len() == sizes.len()
    &&& forall|i: int| 0 <= i < limits.len() ==> (#[trigger] limits[i]).min <= limits[i].max
}

/// A size within its limits.
pub open spec fn clamped_size(size: u16, limit: FontSizeRange) -> u16 {
    if size < limit.min {
        limit.min
    } else if size > limit.max {
        limit.max
    } else {
        size
    }
}

/// Sizes within their limits.
pub open spec fn clamped(sizes: Seq<u16>, limits: Seq<FontSizeRange>) -> Seq<u16> {
    Seq::new(sizes.len(), |i: int| clamped_size(sizes[i], limits[i]))
}

/// A look whose font sizes are within their limits.
pub open spec fn clamped_look(look: LookModel, limits: Seq<FontSizeRange>) -> LookModel {
    LookModel { font_sizes: clamped(look.font_sizes, limits), ..look }
}

impl Look {
    /// Brings the font sizes within their limits.
    pub fn clamp_to_limits(&mut self, limits: &Vec<FontSizeRange>)
        requires
            limits_hold(limits@, old(self).font_sizes@),
        ensures
            final(self)@ == clamped_look(old(self)@, limits@),
    {
        let ghost before = self.font_sizes@;
        let mut i: usize = 0;
        while i < self.font_sizes.len()
            invariant
                limits_hold(limits@, before),
                self.font_sizes@.len() == before.len(),
                self.palette_colors == old(self).palette_colors,
                i <= before.len(),
                forall|j: int|
                    0 <= j < i ==> #[trigger] self.font_sizes@[j] == clamped_size(
                        before[j],
                        limits@[j],
                    ),
                forall|j: int| i <= j < before.len() ==> #[trigger] self.font_sizes@[j] == before[j],
            decreases before.len() - i,
        {
            let size: u16 = self.font_sizes[i];
            let limit: FontSizeRange = limits[i];
            let within: u16 = if size < limit.min {
                limit.min
            } else if size > limit.max {
                limit.max
            } else {
                size
            };
            self.font_sizes.set(i, within);
            i = i + 1;
        }
        assert(self.font_sizes@ =~= clamped(before, limits@));
    }
}

/// Sizes within their limits stay as they are.
pub proof fn law_clamping_settles(sizes: Seq<u16>, limits: Seq<FontSizeRange>)
    requires
        limits_hold(limits, sizes),
    ensures
        clamped(clamped(sizes, limits), limits) == clamped(sizes, limits),
        forall|i: int|
            0 <= i < sizes.len() ==> limits[i].min <= #[trigger] clamped(sizes, limits)[i]
                <= limits[i].max,
{
    assert(clamped(clamped(sizes, limits), limits) =~= clamped(sizes, limits)) by {
        assert forall|i: int| 0 <= i < sizes.len() implies clamped_size(
            clamped_size(sizes[i], limits[i]),
            limits[i],
        ) == clamped_size(sizes[i], limits[i]) by {
            assert(limits[i].min <= limits[i].max);
        }
    }
    assert forall|i: int| 0 <= i < sizes.len() implies limits[i].min <= #[trigger] clamped(
        sizes,
        limits,
    )[i] <= limits[i].max by {
        assert(limits[i].min <= limits[i].max);
    }
}

// ---------------------------------------------------------------------------
// Scale
// ---------------------------------------------------------------------------

/// The scale of a window that is not scaled, in percent.
pub const DEFAULT_UI_SCALE_PERCENT: u32 = 100;

/// The scale of the window: the one in use, and the one that is being chosen.
#[derive(Debug, Clone, Copy, PartialEq, Eq, Structural)]
pub struct UiScale {
    pub percent: u32,
    pub draft: u32,
}

impl UiScale {
    /// Uses the chosen scale. The result says whether that changes anything;
    /// without a choice the button does not work.
    pub fn apply(&mut self) -> (applied: bool)
        ensures
            *final(self) == (UiScale { percent: old(self).draft, ..*old(self) }),
            applied == (old(self).draft != old(self).percent),
    {
        let pending: bool = self.draft != self.percent;
        if pending {
            self.percent = self.draft;
        }
        pending
    }

    /// Goes back to a window that is not scaled. The result says whether that
    /// changes the scale in use.
    pub fn reset(&mut self) -> (applied: bool)
        ensures
            *final(self) == (UiScale {
                percent: DEFAULT_UI_SCALE_PERCENT,
                draft: DEFAULT_UI_SCALE_PERCENT,
            }),
            applied == (old(self).percent != DEFAULT_UI_SCALE_PERCENT),
    {
        self.draft = DEFAULT_UI_SCALE_PERCENT;
        if self.percent != DEFAULT_UI_SCALE_PERCENT {
            self.percent = DEFAULT_UI_SCALE_PERCENT;
            true
        } else {
            false
        }
    }
}

// ---------------------------------------------------------------------------
// Saved themes
// ---------------------------------------------------------------------------

/// A named look.
#[derive(Debug)]
pub struct Theme {
    pub name: String,
    pub look: Look,
}

/// What a theme is.
#[verifier::ext_equal]
pub struct ThemeModel {
    pub name: Seq<char>,
    pub look: LookModel,
}

impl View for Theme {
    type V = ThemeModel;

    open spec fn view(&self) -> ThemeModel {
        ThemeModel { name: self.name@, look: self.look@ }
    }
}

/// What themes are.
pub open spec fn theme_models(v: Seq<Theme>) -> Seq<ThemeModel> {
    Seq::new(v.len(), |i: int| v[i]@)
}

/// The look of the window and the saved themes.
#[derive(Debug)]
pub struct ThemeSettings {
    pub look: Look,
    pub saved_themes: Vec<Theme>,
    pub selected_saved_theme: Option<usize>,
    pub saved_theme_name_draft: String,
    pub new_theme_name_draft: String,
    pub show_add_theme_modal: bool,
    pub focus_new_theme_name: bool,
}

/// What the settings of the look are.
#[verifier::ext_equal]
pub struct ThemeSettingsModel {
    pub look: LookModel,
    pub themes: Seq<ThemeModel>,
    pub selected: Option<usize>,
    pub draft: Seq<char>,
    pub new_draft: Seq<char>,
    pub show_modal: bool,
    pub focus_name: bool,
}

impl View for ThemeSettings {
    type V = ThemeSettingsModel;

    open spec fn view(&self) -> ThemeSettingsModel {
        ThemeSettingsModel {
            look: self.look@,
            themes: theme_models(self.saved_themes@),
            selected: self.selected_saved_theme,
            draft: self.saved_theme_name_draft@,
            new_draft: self.new_theme_name_draft@,
            show_modal: self.show_add_theme_modal,
            focus_name: self.focus_new_theme_name,
        }
    }
}

/// What came of a click.
#[derive(Debug, Clone, Copy, PartialEq, Eq, Structural)]
pub enum ThemeOutcome {
    Nothing,
    NameMissing,
    NameTaken,
    Updated,
    Added,
    Loaded,
    Deleted,
}

/// What the user is told of an outcome.
pub open spec fn outcome_words(o: ThemeOutcome) -> Option<Seq<char>> {
    match o {
        ThemeOutcome::Nothing => None,
        ThemeOutcome::NameMissing => Some("Enter a theme name first."@),
        ThemeOutcome::NameTaken => Some("A saved theme with this name already exists."@),
        ThemeOutcome::Updated => Some("Saved theme updated."@),
        ThemeOutcome::Added => Some("Custom theme saved."@),
        ThemeOutcome::Loaded => Some("Saved theme loaded."@),
        ThemeOutcome::Deleted => Some("Saved theme deleted."@),
    }
}

impl ThemeOutcome {
    /// What the user is told.
    pub fn toast(self) -> (r: Option<&'static str>)
        ensures
            match r {
                Some(t) => outcome_words(self) == Some(t@),
                None => outcome_words(self) is None,
            },
    {
        match self {
            ThemeOutcome::Nothing => None,
            ThemeOutcome::NameMissing => Some("Enter a theme name first."),
            ThemeOutcome::NameTaken => Some("A saved theme with this name already exists."),
            ThemeOutcome::Updated => Some("Saved theme updated."),
            ThemeOutcome::Added => Some("Custom theme saved."),
            ThemeOutcome::Loaded => Some("Saved theme loaded."),
            ThemeOutcome::Deleted => Some("Saved theme deleted."),
        }
    }

    /// Whether the settings are to be saved, that is, whether it went well.
    pub fn saves(self) -> (r: bool)
        ensures
            r == (self == ThemeOutcome::Updated || self == ThemeOutcome::Added || self
                == ThemeOutcome::Loaded || self == ThemeOutcome::Deleted),
    {
        match self {
            ThemeOutcome::Nothing | ThemeOutcome::NameMissing | ThemeOutcome::NameTaken => false,
            _ => true,
        }
    }
}

/// Whether a theme other than `except` has a name, whatever the case of its
/// ASCII letters.
pub open spec fn name_in_use(
    themes: Seq<ThemeModel>,
    name: Seq<char>,
    except: Option<usize>,
) -> bool {
    exists|i: int|
        0 <= i < themes.len() && !(except is Some && except->0 == i) && text::lowered(
            (#[trigger] themes[i]).name,
        ) == text::lowered(name)
}

/// The settings once theme `i` is selected.
pub open spec fn selecting(s: ThemeSettingsModel, i: int) -> ThemeSettingsModel {
    if 0 <= i < s.themes.len() {
        ThemeSettingsModel { selected: Some(i as usize), draft: s.themes[i].name, ..s }
    } else {
        s
    }
}

/// What saving the selected theme does.
pub open spec fn saving(s: ThemeSettingsModel) -> (ThemeSettingsModel, ThemeOutcome) {
    let name = text::trimmed(s.draft);
    if name.len() == 0 {
        (s, ThemeOutcome::NameMissing)
    } else if name_in_use(s.themes, name, s.selected) {
        (s, ThemeOutcome::NameTaken)
    } else {
        match s.selected {
            None => (s, ThemeOutcome::Nothing),
            Some(i) => if i < s.themes.len() {
                (
                    ThemeSettingsModel {
                        themes: s.themes.update(i as int, ThemeModel { name, look: s.look }),
                        draft: name,
                        ..s
                    },
                    ThemeOutcome::Updated,
                )
            } else {
                (ThemeSettingsModel { selected: None, ..s }, ThemeOutcome::Nothing)
            },
        }
    }
}

/// What saving a new theme does.
pub open spec fn adding(s: ThemeSettingsModel) -> (ThemeSettingsModel, ThemeOutcome) {
    let name = text::trimmed(s.new_draft);
    if name.len() == 0 {
        (s, ThemeOutcome::NameMissing)
    } else if name_in_use(s.themes, name, None) {
        (s, ThemeOutcome::NameTaken)
    } else {
        (
            ThemeSettingsModel {
                themes: s.themes.push(ThemeModel { name, look: s.look }),
                selected: Some(s.themes.len() as usize),
                draft: name,
                ..s
            },
            ThemeOutcome::Added,
        )
    }
}

/// What loading the selected theme does.
pub open spec fn loading(s: ThemeSettingsModel, limits: Seq<FontSizeRange>) -> (
    ThemeSettingsModel,
    ThemeOutcome,
) {
    match s.selected {
        None => (s, ThemeOutcome::Nothing),
        Some(i) => if i < s.themes.len() {
            (
                ThemeSettingsModel { look: clamped_look(s.themes[i as int].look, limits), ..s },
                ThemeOutcome::Loaded,
            )
        } else {
            (ThemeSettingsModel { selected: None, ..s }, ThemeOutcome::Nothing)
        },
    }
}

/// What deleting the selected theme does: the one that takes its place is
/// selected, or the last one.
pub open spec fn deleting(s: ThemeSettingsModel) -> (ThemeSettingsModel, ThemeOutcome) {
    match s.selected {
        None => (s, ThemeOutcome::Nothing),
        Some(i) => if i >= s.themes.len() {
            (ThemeSettingsModel { selected: None, ..s }, ThemeOutcome::Nothing)
        } else {
            let left = ThemeSettingsModel { themes: s.themes.remove(i as int), ..s };
            let next = if left.themes.len() == 0 {
                ThemeSettingsModel { selected: None, draft: Seq::empty(), ..left }
            } else {
                selecting(
                    left,
                    if i < left.themes.len() {
                        i as int
                    } else {
                        left.themes.len() - 1
                    },
                )
            };
            (next, ThemeOutcome::Deleted)
        },
    }
}

/// The window for a new theme, closed.
pub open spec fn modal_closed(s: ThemeSettingsModel) -> ThemeSettingsModel {
    ThemeSettingsModel { show_modal: false, new_draft: Seq::empty(), focus_name: false, ..s }
}

/// The theme that an arrow key goes to from theme `index`.
pub open spec fn arrow_goes_to(index: int, up: bool, down: bool, count: int) -> Option<int> {
    if up {
        if index > 0 {
            Some(index - 1)
        } else {
            None
        }
    } else if down && index + 1 < count {
        Some(index + 1)
    } else {
        None
    }
}

/// The theme that an arrow key goes to from theme `index`.
pub fn arrow_target(index: usize, up: bool, down: bool, count: usize) -> (r: Option<usize>)
    requires
        index < count,
    ensures
        match r {
            Some(i) => arrow_goes_to(index as int, up, down, count as int) == Some(i as int) && i
                < count,
            None => arrow_goes_to(index as int, up, down, count as int) is None,
        },
{
    if up {
        if index > 0 {
            Some(index - 1)
        } else {
            None
        }
    } else if down && index + 1 < count {
        Some(index + 1)
    } else {
        None
    }
}

impl ThemeSettings {
    /// Whether the look that would be loaded has as many sizes as there are
    /// limits.
    pub open spec fn loadable(&self, limits: Seq<FontSizeRange>) -> bool {
        forall|i: int|
            0 <= i < self.saved_themes@.len() ==> limits_hold(
                limits,
                (#[trigger] self.saved_themes@[i]).look.font_sizes@,
            )
    }

    /// Whether a theme other than `except` has a name.
    fn has_name(&self, name: &str, except: Option<usize>) -> (r: bool)
        ensures
            r == name_in_use(self@.themes, name@, except),
    {
        let mut i: usize = 0;
        while i < self.saved_themes.len()
            invariant
                i <= self.saved_themes@.len(),
                forall|j: int|
                    0 <= j < i && !(except is Some && except->0 == j) ==> text::lowered(
                        (#[trigger] self@.themes[j]).name,
                    ) != text::lowered(name@),
            decreases self.saved_themes@.len() - i,
        {
            let same: bool = eq_ignore_ascii_case(self.saved_themes[i].name.as_str(), name);
            let excepted: bool = match except {
                Some(e) => e == i,
                None => false,
            };
            assert(self@.themes[i as int].name == self.saved_themes@[i as int].name@);
            if same && !excepted {
                return true;
            }
            i = i + 1;
        }
        false
    }

    /// Selects a theme, for loading or changing it.
    pub fn select_saved_theme(&mut self, index: usize)
        ensures
            final(self)@ == selecting(old(self)@, index as int),
    {
        if index < self.saved_themes.len() {
            assert(self@.themes[index as int].name == self.saved_themes@[index as int].name@);
            self.selected_saved_theme = Some(index);
            self.saved_theme_name_draft = self.saved_themes[index].name.clone();
        }
    }

    /// Overwrites the selected theme with the current look, under the name
    /// that was typed in.
    pub fn save_selected_theme(&mut self) -> (r: ThemeOutcome)
        ensures
            (final(self)@, r) == saving(old(self)@),
    {
        let name: String = trim(self.saved_theme_name_draft.as_str());
        if name.as_str().is_empty() {
            return ThemeOutcome::NameMissing;
        }
        if self.has_name(name.as_str(), self.selected_saved_theme) {
            return ThemeOutcome::NameTaken;
        }
        match self.selected_saved_theme {
            None => ThemeOutcome::Nothing,
            Some(index) => {
                if index >= self.saved_themes.len() {
                    self.selected_saved_theme = None;
                    return ThemeOutcome::Nothing;
                }
                let ghost before = self@.themes;
                let theme: Theme = Theme { name: name.clone(), look: self.look.clone() };
                let ghost made = theme@;
                self.saved_themes.set(index, theme);
                assert(self@.themes =~= before.update(index as int, made));
                self.saved_theme_name_draft = name;
                ThemeOutcome::Updated
            },
        }
    }

    /// Opens the window for a new theme.
    pub fn open_add_theme_modal(&mut self)
        ensures
            final(self)@ == (ThemeSettingsModel {
                new_draft: Seq::empty(),
                show_modal: true,
                focus_name: true,
                ..old(self)@
            }),
    {
        self.new_theme_name_draft = String::new();
        self.show_add_theme_modal = true;
        self.focus_new_theme_name = true;
    }

    /// Saves the current look as a new theme, under the name that was typed
    /// in, and selects it.
    pub fn save_new_theme(&mut self) -> (r: ThemeOutcome)
        ensures
            (final(self)@, r) == adding(old(self)@),
    {
        let name: String = trim(self.new_theme_name_draft.as_str());
        if name.as_str().is_empty() {
            return ThemeOutcome::NameMissing;
        }
        if self.has_name(name.as_str(), None) {
            return ThemeOutcome::NameTaken;
        }
        let ghost before = self@.themes;
        let at: usize = self.saved_themes.len();
        let theme: Theme = Theme { name: name.clone(), look: self.look.clone() };
        let ghost made = theme@;
        self.saved_themes.push(theme);
        assert(self@.themes =~= before.push(made));
        self.selected_saved_theme = Some(at);
        self.saved_theme_name_draft = name;
        ThemeOutcome::Added
    }

    /// Closes the window for a new theme.
    pub fn close_add_theme_modal(&mut self)
        ensures
            final(self)@ == modal_closed(old(self)@),
    {
        self.show_add_theme_modal = false;
        self.new_theme_name_draft = String::new();
        self.focus_new_theme_name = false;
    }

    /// A frame of the window for a new theme. Cancelling closes it, and so
    /// does saving that goes well; a cancelled window saves nothing.
    pub fn answer_add_theme(&mut self, save: bool, cancel: bool) -> (r: ThemeOutcome)
        ensures
            ({
                let (added, outcome) = adding(old(self)@);
                if cancel {
                    final(self)@ == modal_closed(old(self)@) && r == ThemeOutcome::Nothing
                } else if !save {
                    *final(self) == *old(self) && r == ThemeOutcome::Nothing
                } else if outcome == ThemeOutcome::Added {
                    final(self)@ == modal_closed(added) && r == outcome
                } else {
                    final(self)@ == added && r == outcome
                }
            }),
    {
        if cancel {
            self.close_add_theme_modal();
            return ThemeOutcome::Nothing;
        }
        if !save {
            return ThemeOutcome::Nothing;
        }
        let outcome: ThemeOutcome = self.save_new_theme();
        if outcome == ThemeOutcome::Added {
            self.close_add_theme_modal();
        }
        outcome
    }

    /// Replaces the look with that of a theme, within the limits.
    pub fn apply_theme(&mut self, look: Look, limits: &Vec<FontSizeRange>)
        requires
            limits_hold(limits@, look.font_sizes@),
        ensures
            final(self)@ == (ThemeSettingsModel {
                look: clamped_look(look@, limits@),
                ..old(self)@
            }),
    {
        self.look = look;
        self.look.clamp_to_limits(limits);
    }

    /// Loads the selected theme.
    pub fn load_selected_theme(&mut self, limits: &Vec<FontSizeRange>) -> (r: ThemeOutcome)
        requires
            old(self).loadable(limits@),
        ensures
            (final(self)@, r) == loading(old(self)@, limits@),
    {
        match self.selected_saved_theme {
            None => ThemeOutcome::Nothing,
            Some(index) => {
                if index >= self.saved_themes.len() {
                    self.selected_saved_theme = None;
                    return ThemeOutcome::Nothing;
                }
                assert(limits_hold(limits@, self.saved_themes@[index as int].look.font_sizes@));
                assert(self@.themes[index as int].look == self.saved_themes@[index as int].look@);
                let look: Look = self.saved_themes[index].look.clone();
                self.apply_theme(look, limits);
                ThemeOutcome::Loaded
            },
        }
    }

    /// Deletes the selected theme.
    pub fn delete_selected_theme(&mut self) -> (r: ThemeOutcome)
        ensures
            (final(self)@, r) == deleting(old(self)@),
    {
        match self.selected_saved_theme {
            None => ThemeOutcome::Nothing,
            Some(index) => {
                if index >= self.saved_themes.len() {
                    self.selected_saved_theme = None;
                    return ThemeOutcome::Nothing;
                }
                let ghost before = self@.themes;
                let _ = self.saved_themes.remove(index);
                assert(self@.themes =~= before.remove(index as int));
                if self.saved_themes.is_empty() {
                    self.selected_saved_theme = None;
                    self.saved_theme_name_draft = String::new();
                } else {
                    let last: usize = self.saved_themes.len() - 1;
                    let next: usize = if index < self.saved_themes.len() {
                        index
                    } else {
                        last
                    };
                    self.select_saved_theme(next);
                }
                ThemeOutcome::Deleted
            },
        }
    }
}

/// Whether no two themes have names that differ in the case of ASCII letters
/// alone.
pub open spec fn names_distinct(themes: Seq<ThemeModel>) -> bool {
    forall|i: int, j: int|
        0 <= i < j < themes.len() ==> text::lowered((#[trigger] themes[i]).name) != text::lowered(
            (#[trigger] themes[j]).name,
        )
}

/// Whether a selected theme is one of the list.
pub open spec fn selection_stands(s: ThemeSettingsModel) -> bool {
    s.selected matches Some(i) ==> i < s.themes.len()
}

/// Saving, adding and deleting keep the names of the themes apart.
pub proof fn law_theme_names_stay_distinct(s: ThemeSettingsModel)
    requires
        names_distinct(s.themes),
    ensures
        names_distinct(saving(s).0.themes),
        names_distinct(adding(s).0.themes),
        names_distinct(deleting(s).0.themes),
{
    assert(names_distinct(saving(s).0.themes)) by {
        if saving(s).1 == ThemeOutcome::Updated {
            let at = s.selected->0;
            let after = saving(s).0.themes;
            let name = text::trimmed(s.draft);
            assert forall|i: int, j: int| 0 <= i < j < after.len() implies text::lowered(
                (#[trigger] after[i]).name,
            ) != text::lowered((#[trigger] after[j]).name) by {
                if i == at {
                    assert(after[j] == s.themes[j]);
                } else if j == at {
                    assert(after[i] == s.themes[i]);
                } else {
                    assert(after[i] == s.themes[i] && after[j] == s.themes[j]);
                }
            }
        }
    }
    assert(names_distinct(adding(s).0.themes)) by {
        if adding(s).1 == ThemeOutcome::Added {
            let after = adding(s).0.themes;
            assert forall|i: int, j: int| 0 <= i < j < after.len() implies text::lowered(
                (#[trigger] after[i]).name,
            ) != text::lowered((#[trigger] after[j]).name) by {
                assert(after[i] == s.themes[i]);
                if j < s.themes.len() {
                    assert(after[j] == s.themes[j]);
                }
            }
        }
    }
    assert(names_distinct(deleting(s).0.themes)) by {
        if deleting(s).1 == ThemeOutcome::Deleted {
            let at = s.selected->0 as int;
            let after = s.themes.remove(at);
            assert(deleting(s).0.themes == after);
            assert forall|i: int, j: int| 0 <= i < j < after.len() implies text::lowered(
                (#[trigger] after[i]).name,
            ) != text::lowered((#[trigger] after[j]).name) by {
                let a = if i < at {
                    i
                } else {
                    i + 1
                };
                let b = if j < at {
                    j
                } else {
                    j + 1
                };
                assert(after[i] == s.themes[a] && after[j] == s.themes[b]);
            }
        }
    }
}

/// Whatever is done, a selected theme is one of the list.
pub proof fn law_selection_stands(s: ThemeSettingsModel, i: int, limits: Seq<FontSizeRange>)
    requires
        selection_stands(s),
        s.themes.len() < usize::MAX,
    ensures
        selection_stands(selecting(s, i)),
        selection_stands(saving(s).0),
        selection_stands(adding(s).0),
        selection_stands(loading(s, limits).0),
        selection_stands(deleting(s).0),
{
}

/// A look that has just been saved as a new theme is the look that loading
/// gives back, within the limits.
pub proof fn law_load_gives_back(s: ThemeSettingsModel, limits: Seq<FontSizeRange>, other: LookModel)
    requires
        adding(s).1 == ThemeOutcome::Added,
        s.themes.len() < usize::MAX,
    ensures
        loading(ThemeSettingsModel { look: other, ..adding(s).0 }, limits).0.look == clamped_look(
            s.look,
            limits,
        ),
{
    let after = adding(s).0.themes;
    assert(after[s.themes.len() as int].look == s.look);
}

// ---------------------------------------------------------------------------
// Theme files
// ---------------------------------------------------------------------------

/// What came of writing or reading a theme file.
#[derive(Debug, Clone, Copy, PartialEq, Eq, Structural)]
pub enum ThemeFileOutcome {
    Exported,
    ExportFailed,
    Imported,
    /// The file was read and holds no theme.
    NotATheme,
    ReadFailed,
}

/// What the user is told of a theme file, and whether it went well.
pub open spec fn file_words(o: ThemeFileOutcome) -> (Seq<char>, bool) {
    match o {
        ThemeFileOutcome::Exported => ("Theme exported successfully."@, true),
        ThemeFileOutcome::ExportFailed => ("Failed to export theme."@, false),
        ThemeFileOutcome::Imported => ("Theme imported successfully."@, true),
        ThemeFileOutcome::NotATheme => (
            "Failed to import theme. The file is not a valid theme."@,
            false,
        ),
        ThemeFileOutcome::ReadFailed => ("Failed to import theme."@, false),
    }
}

impl ThemeFileOutcome {
    /// What the user is told, and whether it went well.
    pub fn toast(self) -> (r: (&'static str, bool))
        ensures
            (r.0@, r.1) == file_words(self),
    {
        match self {
            ThemeFileOutcome::Exported => ("Theme exported successfully.", true),
            ThemeFileOutcome::ExportFailed => ("Failed to export theme.", false),
            ThemeFileOutcome::Imported => ("Theme imported successfully.", true),
            ThemeFileOutcome::NotATheme => (
                "Failed to import theme. The file is not a valid theme.",
                false,
            ),
            ThemeFileOutcome::ReadFailed => ("Failed to import theme.", false),
        }
    }
}

// ---------------------------------------------------------------------------
// Rows of sections
// ---------------------------------------------------------------------------

/// Whether `rows` breaks `count` sections into rows of `columns`, in order;
/// the last row may be shorter. A row is given by its first section and the
/// one behind its last.
pub open spec fn breaks_into_rows(rows: Seq<(usize, usize)>, count: int, columns: int) -> bool {
    &&& forall|k: int|
        0 <= k < rows.len() ==> (#[trigger] rows[k]).0 == k * columns && rows[k].0 < rows[k].1
            && rows[k].1 == if (k + 1) * columns < count {
            (k + 1) * columns
        } else {
            count
        }
    &&& rows.len() * columns >= count
}

/// The rows into which `count` sections break, with `columns` in a row.
pub fn section_rows(count: usize, columns: usize) -> (rows: Vec<(usize, usize)>)
    requires
        columns > 0,
    ensures
        breaks_into_rows(rows@, count as int, columns as int),
{
    let mut rows: Vec<(usize, usize)> = Vec::new();
    let mut start: usize = 0;
    assert(0 * columns == 0) by (nonlinear_arith);
    while start < count
        invariant
            columns > 0,
            start <= count,
            start < count ==> start == rows@.len() * columns,
            start == count ==> rows@.len() * columns >= count,
            forall|k: int|
                0 <= k < rows@.len() ==> (#[trigger] rows@[k]).0 == k * columns && rows@[k].0
                    < rows@[k].1 && rows@[k].1 == if (k + 1) * columns < count {
                    (k + 1) * columns
                } else {
                    count as int
                },
        decreases count - start,
    {
        let end: usize = if columns < count - start {
            start + columns
        } else {
            count
        };
        let ghost n = rows@.len() as int;
        assert((n + 1) * columns == n * columns + columns) by (nonlinear_arith);
        rows.push((start, end));
        start = end;
    }
    rows
}

/// Every section stands in a row.
pub proof fn law_every_section_has_a_row(
    rows: Seq<(usize, usize)>,
    count: int,
    columns: int,
    i: int,
)
    requires
        columns > 0,
        breaks_into_rows(rows, count, columns),
        0 <= i < count,
    ensures
        0 <= i / columns < rows.len(),
        rows[i / columns].0 <= i < rows[i / columns].1,
{
    let k = i / columns;
    let n = rows.len() as int;
    assert(k * columns <= i < (k + 1) * columns && 0 <= k) by (nonlinear_arith)
        requires
            k == i / columns,
            columns > 0,
            0 <= i,
    ;
    assert(k < n) by (nonlinear_arith)
        requires
            k * columns <= i,
            i < count,
            n * columns >= count,
            columns > 0,
    ;
    assert(rows[k].0 == k * columns);
}

} // verus!
