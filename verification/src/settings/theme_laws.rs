//! What holds of the look of the window and of saved themes.

use vstd::prelude::*;

use crate::settings::themes;
use crate::settings::themes::{
    FontSizeRange, LookModel, ThemeFileOutcome, ThemeOutcome, ThemeSettings, ThemeSettingsModel,
    UiScale,
};
use crate::text;

verus! {

broadcast use vstd::string::group_string_axioms;

/// A clamped size is within its limits, is the size itself if that is, and is
/// the nearest that is otherwise; no colour changes.
pub proof fn law_clamping_takes_the_nearest(
    look: LookModel,
    limits: Seq<FontSizeRange>,
    i: int,
    other: u16,
)
    requires
        themes::limits_hold(limits, look.font_sizes),
        0 <= i < limits.len(),
        limits[i].min <= other <= limits[i].max,
    ensures
        ({
            let was = look.font_sizes[i];
            let now = themes::clamped_look(look, limits).font_sizes[i];
            &&& limits[i].min <= now <= limits[i].max
            &&& limits[i].min <= was <= limits[i].max ==> now == was
            &&& was <= other ==> was <= now <= other || now == limits[i].min
            &&& was >= other ==> was >= now >= other || now == limits[i].max
            &&& was <= other ==> now <= other
            &&& was >= other ==> now >= other
        }),
        themes::clamped_look(look, limits).palette_colors == look.palette_colors,
        themes::clamped_look(look, limits).font_sizes.len() == look.font_sizes.len(),
{
}

/// The chosen scale is the one in use once it is applied; a reset window is not
/// scaled. Each says whether the scale in use changed.
pub proof fn law_scale_is_applied(scale: &mut UiScale, applied: bool)
    requires
        call_ensures(UiScale::apply, (scale,), applied),
    ensures
        final(scale).percent == old(scale).draft,
        final(scale).draft == old(scale).draft,
        applied <==> final(scale).percent != old(scale).percent,
{
}

/// A reset window is not scaled.
pub proof fn law_scale_is_reset(scale: &mut UiScale, applied: bool)
    requires
        call_ensures(UiScale::reset, (scale,), applied),
    ensures
        final(scale).percent == 100,
        final(scale).draft == 100,
        applied <==> final(scale).percent != old(scale).percent,
{
}

/// Saving the selected theme puts the current look under the typed name into
/// its place and leaves every other theme, the look and the selection alone.
pub proof fn law_saving_changes_the_selected_theme(s: ThemeSettingsModel, j: int)
    requires
        0 <= j < s.themes.len(),
    ensures
        ({
            let (after, outcome) = themes::saving(s);
            &&& after.themes.len() == s.themes.len()
            &&& after.look == s.look
            &&& s.selected != Some(j as usize) ==> after.themes[j] == s.themes[j]
            &&& outcome == ThemeOutcome::Updated ==> {
                &&& s.selected is Some && s.selected->0 < s.themes.len()
                &&& after.selected == s.selected
                &&& after.themes[s.selected->0 as int].name == text::trimmed(s.draft)
                &&& after.themes[s.selected->0 as int].look == s.look
            }
            &&& outcome != ThemeOutcome::Updated ==> after.themes == s.themes
        }),
{
}

/// When saving works: there must be a name, no other theme may have it, and a
/// theme must be selected. The first of these that fails is what is told.
pub proof fn law_when_saving_works(s: ThemeSettingsModel)
    requires
        themes::selection_stands(s),
    ensures
        ({
            let name = text::trimmed(s.draft);
            let taken = exists|i: int|
                0 <= i < s.themes.len() && s.selected != Some(i as usize) && text::lowered(
                    (#[trigger] s.themes[i]).name,
                ) == text::lowered(name);
            let outcome = themes::saving(s).1;
            &&& s.themes.len() <= usize::MAX ==> {
                &&& outcome == ThemeOutcome::NameMissing <==> name.len() == 0
                &&& outcome == ThemeOutcome::NameTaken <==> name.len() > 0 && taken
                &&& outcome == ThemeOutcome::Updated <==> name.len() > 0 && !taken
                    && s.selected is Some
                &&& outcome == ThemeOutcome::Nothing <==> name.len() > 0 && !taken
                    && s.selected is None
            }
        }),
{
    let name = text::trimmed(s.draft);
    if s.themes.len() <= usize::MAX {
        if themes::name_in_use(s.themes, name, s.selected) {
            let i = choose|i: int|
                0 <= i < s.themes.len() && !(s.selected is Some && s.selected->0 == i)
                    && text::lowered((#[trigger] s.themes[i]).name) == text::lowered(name);
            assert(s.selected != Some(i as usize));
        }
        assert forall|i: int|
            0 <= i < s.themes.len() && s.selected != Some(i as usize) && text::lowered(
                (#[trigger] s.themes[i]).name,
            ) == text::lowered(name) implies themes::name_in_use(
            s.themes,
            name,
            s.selected,
        ) by {
            assert(!(s.selected is Some && s.selected->0 == i));
        }
    }
}

/// A new theme comes at the end, under the typed name and with the current
/// look, and is the selected one; every theme before it stays.
pub proof fn law_new_theme_comes_last(s: ThemeSettingsModel, j: int)
    requires
        s.themes.len() < usize::MAX,
    ensures
        ({
            let (after, outcome) = themes::adding(s);
            let name = text::trimmed(s.new_draft);
            let taken = exists|i: int|
                0 <= i < s.themes.len() && text::lowered((#[trigger] s.themes[i]).name)
                    == text::lowered(name);
            &&& outcome == ThemeOutcome::NameMissing <==> name.len() == 0
            &&& outcome == ThemeOutcome::NameTaken <==> name.len() > 0 && taken
            &&& outcome == ThemeOutcome::Added <==> name.len() > 0 && !taken
            &&& outcome != ThemeOutcome::Added ==> after == s
            &&& outcome == ThemeOutcome::Added ==> {
                &&& after.themes.len() == s.themes.len() + 1
                &&& after.themes.last().name == name && after.themes.last().look == s.look
                &&& after.selected is Some && after.selected->0 == s.themes.len()
                &&& after.draft == name
                &&& after.look == s.look
                &&& 0 <= j < s.themes.len() ==> after.themes[j] == s.themes[j]
            }
        }),
{
}

/// Loading takes the colours of the selected theme and its sizes within the
/// limits, and changes no theme.
pub proof fn law_loading_takes_the_selected_look(
    s: ThemeSettingsModel,
    limits: Seq<FontSizeRange>,
    i: int,
)
    requires
        s.selected is Some && s.selected->0 < s.themes.len(),
        0 <= i < s.themes[s.selected->0 as int].look.font_sizes.len(),
        themes::limits_hold(limits, s.themes[s.selected->0 as int].look.font_sizes),
    ensures
        ({
            let (after, outcome) = themes::loading(s, limits);
            let look = s.themes[s.selected->0 as int].look;
            &&& outcome == ThemeOutcome::Loaded
            &&& after == (ThemeSettingsModel { look: after.look, ..s })
            &&& after.look.palette_colors == look.palette_colors
            &&& limits[i].min <= look.font_sizes[i] <= limits[i].max
                ==> after.look.font_sizes[i] == look.font_sizes[i]
        }),
{
}

/// Deleting takes out the selected theme alone. The one that takes its place is
/// selected then, the last one if there is none, and nothing if no theme is
/// left; the look stays.
pub proof fn law_deleting_takes_out_the_selected_theme(s: ThemeSettingsModel, j: int)
    requires
        s.selected is Some && s.selected->0 < s.themes.len() <= usize::MAX,
        0 <= j < s.themes.len(),
    ensures
        ({
            let (after, outcome) = themes::deleting(s);
            let i = s.selected->0;
            &&& outcome == ThemeOutcome::Deleted
            &&& after.look == s.look
            &&& after.themes.len() == s.themes.len() - 1
            &&& j < i ==> after.themes[j] == s.themes[j]
            &&& j > i ==> after.themes[j - 1] == s.themes[j]
            &&& s.themes.len() == 1 ==> after.selected is None && after.draft.len() == 0
            &&& j == i + 1 ==> after.selected == Some(i) && after.draft == s.themes[j].name
            &&& i == s.themes.len() - 1 && j == i - 1 ==> after.selected == Some((i - 1) as usize)
                && after.draft == s.themes[j].name
        }),
{
}

/// Without a selection nothing is deleted or loaded.
pub proof fn law_nothing_selected_nothing_done(
    s: ThemeSettingsModel,
    limits: Seq<FontSizeRange>,
)
    requires
        s.selected is None,
    ensures
        themes::deleting(s) == (s, ThemeOutcome::Nothing),
        themes::loading(s, limits) == (s, ThemeOutcome::Nothing),
{
}

/// A theme that was added and deleted again leaves the themes as they were.
pub proof fn law_added_theme_is_deleted_again(s: ThemeSettingsModel)
    requires
        themes::adding(s).1 == ThemeOutcome::Added,
        s.themes.len() < usize::MAX,
    ensures
        themes::deleting(themes::adding(s).0).0.themes == s.themes,
{
    let (added, _) = themes::adding(s);
    assert(added.themes.remove(s.themes.len() as int) =~= s.themes);
}

/// An answer to the window for a new theme: a cancelled window saves nothing; a
/// window is closed by cancelling or by saving that goes well, and stays as it
/// is otherwise. A closed window keeps nothing of what was typed in.
pub proof fn law_window_closes_when_done(
    s: &mut ThemeSettings,
    save: bool,
    cancel: bool,
    r: ThemeOutcome,
)
    requires
        call_ensures(ThemeSettings::answer_add_theme, (s, save, cancel), r),
    ensures
        r == ThemeOutcome::Added ==> save && !cancel,
        r != ThemeOutcome::Added ==> final(s)@.themes == old(s)@.themes && final(s)@.selected
            == old(s)@.selected,
        cancel || r == ThemeOutcome::Added ==> !final(s)@.show_modal && final(s)@.new_draft.len() == 0 && !final(s)@.focus_name,
        !cancel && r != ThemeOutcome::Added ==> final(s)@ == old(s)@,
        !cancel && save ==> r == themes::adding(old(s)@).1 && r != ThemeOutcome::Nothing,
        cancel || !save ==> r == ThemeOutcome::Nothing,
        final(s)@.look == old(s)@.look,
{
}

/// Exactly the outcomes that changed something are saved, and each of them is
/// told by its own words.
pub proof fn law_outcomes_that_changed_something_are_saved(o: ThemeOutcome, saves: bool)
    requires
        call_ensures(ThemeOutcome::saves, (o,), saves),
    ensures
        !saves <==> o is Nothing || o is NameMissing || o is NameTaken,
        saves ==> themes::outcome_words(o) is Some,
        themes::outcome_words(o) is None <==> o is Nothing,
{
}

/// An arrow key goes to the next theme up or down and to no other; at the end of
/// the list it goes nowhere.
pub proof fn law_arrows_go_to_the_neighbour(index: int, up: bool, down: bool, count: int)
    requires
        0 <= index < count,
    ensures
        ({
            let to = themes::arrow_goes_to(index, up, down, count);
            &&& up ==> if index == 0 {
                to is None
            } else {
                to == Some(index - 1)
            }
            &&& !up && down ==> if index == count - 1 {
                to is None
            } else {
                to == Some(index + 1)
            }
            &&& !up && !down ==> to is None
        }),
{
}

/// Going down and up again comes back.
pub proof fn law_arrows_lead_back(index: int, count: int)
    requires
        0 <= index < count - 1,
    ensures
        themes::arrow_goes_to(index, false, true, count) is Some,
        themes::arrow_goes_to(
            themes::arrow_goes_to(index, false, true, count)->0,
            true,
            false,
            count,
        ) == Some(index),
{
}

/// The window for a new theme opens empty, with the name to be typed; closing it
/// forgets what was typed. Neither changes a theme.
pub proof fn law_window_for_a_new_theme_opens(s: &mut ThemeSettings)
    requires
        call_ensures(ThemeSettings::open_add_theme_modal, (s,), ()),
    ensures
        final(s)@.show_modal,
        final(s)@.focus_name,
        final(s)@.new_draft.len() == 0,
        final(s)@.themes == old(s)@.themes,
        final(s)@.look == old(s)@.look,
        final(s)@.selected == old(s)@.selected,
{
}

/// Closing the window for a new theme forgets what was typed.
pub proof fn law_window_for_a_new_theme_closes(s: &mut ThemeSettings)
    requires
        call_ensures(ThemeSettings::close_add_theme_modal, (s,), ()),
    ensures
        !final(s)@.show_modal,
        !final(s)@.focus_name,
        final(s)@.new_draft.len() == 0,
        final(s)@.themes == old(s)@.themes,
        final(s)@.look == old(s)@.look,
        final(s)@.selected == old(s)@.selected,
{
}

/// A theme file went well exactly if it was written or read and held a theme.
pub proof fn law_end_of_a_theme_file(o: ThemeFileOutcome, r: (&'static str, bool))
    requires
        call_ensures(ThemeFileOutcome::toast, (o,), r),
    ensures
        r.1 <==> o is Exported || o is Imported,
        o is Exported ==> r.0@ == "Theme exported successfully."@,
        o is Imported ==> r.0@ == "Theme imported successfully."@,
        o is ExportFailed ==> r.0@ == "Failed to export theme."@,
        o is ReadFailed ==> r.0@ == "Failed to import theme."@,
        o is NotATheme ==> r.0@ == "Failed to import theme. The file is not a valid theme."@,
{
}

/// Selecting a theme of the list selects it and puts its name into the field; a
/// position that the list does not have changes nothing.
pub proof fn law_selecting_takes_over_the_name(s: ThemeSettingsModel, i: int)
    requires
        s.themes.len() <= usize::MAX,
    ensures
        ({
            let after = themes::selecting(s, i);
            &&& 0 <= i < s.themes.len() ==> after.selected == Some(i as usize) && after.draft
                == s.themes[i].name
            &&& i < 0 || i >= s.themes.len() ==> after == s
            &&& after.themes == s.themes && after.look == s.look && after.new_draft
                == s.new_draft
        }),
{
}

} // verus!
