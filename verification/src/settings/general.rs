//! The general settings of the application.

use vstd::prelude::*;

use crate::text;
use crate::text::{concat, contains, same_text, to_ascii_lowercase, trim};

verus! {

broadcast use vstd::string::group_string_axioms;

// ---------------------------------------------------------------------------
// Languages
// ---------------------------------------------------------------------------

/// How many entries the language list has.
pub const LANGUAGE_COUNT: usize = 42;

/// The entry that is taken for a locale that the list does not have.
pub const ENGLISH: usize = 6;

/// An entry of the language list: the code of the locale and the name of the
/// language, which is also the key of its translation. The first entry follows
/// the system.
#[derive(Debug, Clone, Copy)]
pub struct Language {
    pub code: &'static str,
    pub name: &'static str,
}

/// The code and the name of entry `i`.
pub open spec fn language_row(i: int) -> (Seq<char>, Seq<char>) {
    if i == 0 {
        ("system"@, "System"@)
    } else if i == 1 {
        ("ar"@, "Arabic"@)
    } else if i == 2 {
        ("bg"@, "Bulgarian"@)
    } else if i == 3 {
        ("bn"@, "Bengali"@)
    } else if i == 4 {
        ("cs"@, "Czech"@)
    } else if i == 5 {
        ("de"@, "German"@)
    } else if i == 6 {
        ("en"@, "English"@)
    } else if i == 7 {
        ("es"@, "Spanish"@)
    } else if i == 8 {
        ("fa"@, "Persian"@)
    } else if i == 9 {
        ("fr"@, "French"@)
    } else if i == 10 {
        ("he"@, "Hebrew"@)
    } else if i == 11 {
        ("hi"@, "Hindi"@)
    } else if i == 12 {
        ("hr"@, "Croatian"@)
    } else if i == 13 {
        ("hu"@, "Hungarian"@)
    } else if i == 14 {
        ("id"@, "Indonesian"@)
    } else if i == 15 {
        ("it"@, "Italian"@)
    } else if i == 16 {
        ("ja"@, "Japanese"@)
    } else if i == 17 {
        ("ko"@, "Korean"@)
    } else if i == 18 {
        ("da"@, "Danish"@)
    } else if i == 19 {
        ("et"@, "Estonian"@)
    } else if i == 20 {
        ("fi"@, "Finnish"@)
    } else if i == 21 {
        ("el"@, "Greek"@)
    } else if i == 22 {
        ("lt"@, "Lithuanian"@)
    } else if i == 23 {
        ("lv"@, "Latvian"@)
    } else if i == 24 {
        ("nb"@, "Norwegian"@)
    } else if i == 25 {
        ("nl"@, "Dutch"@)
    } else if i == 26 {
        ("pl"@, "Polish"@)
    } else if i == 27 {
        ("pt"@, "Portuguese"@)
    } else if i == 28 {
        ("pt-BR"@, "Brazilian Portuguese"@)
    } else if i == 29 {
        ("ro"@, "Romanian"@)
    } else if i == 30 {
        ("ru"@, "Russian"@)
    } else if i == 31 {
        ("sk"@, "Slovak"@)
    } else if i == 32 {
        ("sl"@, "Slovenian"@)
    } else if i == 33 {
        ("sr"@, "Serbian"@)
    } else if i == 34 {
        ("sv"@, "Swedish"@)
    } else if i == 35 {
        ("th"@, "Thai"@)
    } else if i == 36 {
        ("tl"@, "Tagalog"@)
    } else if i == 37 {
        ("tr"@, "Turkish"@)
    } else if i == 38 {
        ("uk"@, "Ukrainian"@)
    } else if i == 39 {
        ("ur"@, "Urdu"@)
    } else if i == 40 {
        ("vi"@, "Vietnamese"@)
    } else {
        ("zh"@, "Chinese"@)
    }
}

/// Entry `i` of the language list.
pub fn language(i: usize) -> (r: Language)
    requires
        i < LANGUAGE_COUNT,
    ensures
        (r.code@, r.name@) == language_row(i as int),
{
    let (code, name): (&'static str, &'static str) = match i {
        0 => ("system", "System"),
        1 => ("ar", "Arabic"),
        2 => ("bg", "Bulgarian"),
        3 => ("bn", "Bengali"),
        4 => ("cs", "Czech"),
        5 => ("de", "German"),
        6 => ("en", "English"),
        7 => ("es", "Spanish"),
        8 => ("fa", "Persian"),
        9 => ("fr", "French"),
        10 => ("he", "Hebrew"),
        11 => ("hi", "Hindi"),
        12 => ("hr", "Croatian"),
        13 => ("hu", "Hungarian"),
        14 => ("id", "Indonesian"),
        15 => ("it", "Italian"),
        16 => ("ja", "Japanese"),
        17 => ("ko", "Korean"),
        18 => ("da", "Danish"),
        19 => ("et", "Estonian"),
        20 => ("fi", "Finnish"),
        21 => ("el", "Greek"),
        22 => ("lt", "Lithuanian"),
        23 => ("lv", "Latvian"),
        24 => ("nb", "Norwegian"),
        25 => ("nl", "Dutch"),
        26 => ("pl", "Polish"),
        27 => ("pt", "Portuguese"),
        28 => ("pt-BR", "Brazilian Portuguese"),
        29 => ("ro", "Romanian"),
        30 => ("ru", "Russian"),
        31 => ("sk", "Slovak"),
        32 => ("sl", "Slovenian"),
        33 => ("sr", "Serbian"),
        34 => ("sv", "Swedish"),
        35 => ("th", "Thai"),
        36 => ("tl", "Tagalog"),
        37 => ("tr", "Turkish"),
        38 => ("uk", "Ukrainian"),
        39 => ("ur", "Urdu"),
        40 => ("vi", "Vietnamese"),
        _ => ("zh", "Chinese"),
    };
    Language { code, name }
}

/// The English name that stands behind a translated one. The entry that
/// follows the system has none.
pub open spec fn english_name(i: int) -> Option<Seq<char>> {
    if i == 0 {
        None
    } else {
        Some(language_row(i).1)
    }
}

/// The label of entry `i`, given its name in the language of the user.
pub open spec fn language_label(i: int, translated: Seq<char>) -> Seq<char> {
    match english_name(i) {
        None => translated,
        Some(english) => translated + " ("@ + english + ")"@,
    }
}

/// The label of entry `i`, given its name in the language of the user.
pub fn format_language_label(i: usize, translated: &str) -> (r: String)
    requires
        i < LANGUAGE_COUNT,
    ensures
        r@ == language_label(i as int, translated@),
{
    if i == 0 {
        translated.to_owned()
    } else {
        let mut s: String = concat(translated, " (");
        s.append(language(i).name);
        s.append(")");
        s
    }
}

/// The first entry from `i` on with the code of a locale; English if there is
/// none.
pub open spec fn entry_of(locale: Seq<char>, i: int) -> int
    decreases LANGUAGE_COUNT - i,
{
    if i >= LANGUAGE_COUNT {
        ENGLISH as int
    } else if language_row(i).0 == locale {
        i
    } else {
        entry_of(locale, i + 1)
    }
}

/// The entry that is selected for a locale.
pub fn selected_language(locale: &str) -> (r: usize)
    ensures
        r < LANGUAGE_COUNT,
        r == entry_of(locale@, 0),
{
    let mut i: usize = 0;
    while i < LANGUAGE_COUNT
        invariant
            i <= LANGUAGE_COUNT,
            entry_of(locale@, 0) == entry_of(locale@, i as int),
        decreases LANGUAGE_COUNT - i,
    {
        if same_text(language(i).code, locale) {
            return i;
        }
        i = i + 1;
    }
    ENGLISH
}

/// What is searched for.
pub open spec fn search_text(filter: Seq<char>) -> Seq<char> {
    text::lowered(text::trimmed(filter))
}

/// Whether entry `i` shows while `wanted` is searched for: one of its names
/// holds it, whatever the case of its ASCII letters.
pub open spec fn language_shows(i: int, translated: Seq<char>, wanted: Seq<char>) -> bool {
    ||| wanted.len() == 0
    ||| text::text_contains(text::lowered(translated), wanted)
    ||| english_name(i) is Some && text::text_contains(text::lowered(english_name(i)->0), wanted)
    ||| text::text_contains(text::lowered(language_row(i).1), wanted)
}

/// The entries below `n` that show, in order.
pub open spec fn languages_shown(
    translated: Seq<Seq<char>>,
    wanted: Seq<char>,
    n: int,
) -> Seq<usize>
    decreases n,
{
    if n <= 0 {
        Seq::empty()
    } else {
        let head = languages_shown(translated, wanted, n - 1);
        if language_shows(n - 1, translated[n - 1], wanted) {
            head.push((n - 1) as usize)
        } else {
            head
        }
    }
}

/// The text without its ASCII capitals holds `wanted`.
fn lowered_contains(s: &str, wanted: &str) -> (r: bool)
    ensures
        r == text::text_contains(text::lowered(s@), wanted@),
{
    contains(to_ascii_lowercase(s).as_str(), wanted)
}

/// The entries that show under a filter. `translated` holds the names of the
/// languages in the language of the user.
pub fn filtered_languages(filter: &str, translated: &Vec<String>) -> (r: Vec<usize>)
    requires
        translated@.len() == LANGUAGE_COUNT,
    ensures
        r@ == languages_shown(
            text::views(translated@),
            search_text(filter@),
            LANGUAGE_COUNT as int,
        ),
{
    let wanted: String = to_ascii_lowercase(trim(filter).as_str());
    let ghost names = text::views(translated@);
    let mut shown: Vec<usize> = Vec::new();
    let mut i: usize = 0;
    while i < LANGUAGE_COUNT
        invariant
            translated@.len() == LANGUAGE_COUNT,
            names == text::views(translated@),
            wanted@ == search_text(filter@),
            i <= LANGUAGE_COUNT,
            shown@ == languages_shown(names, wanted@, i as int),
        decreases LANGUAGE_COUNT - i,
    {
        assert(names[i as int] == translated@[i as int]@);
        let entry: Language = language(i);
        if wanted.as_str().is_empty() || lowered_contains(translated[i].as_str(), wanted.as_str())
            || lowered_contains(entry.name, wanted.as_str()) {
            shown.push(i);
        }
        i = i + 1;
    }
    shown
}

/// Without a filter every entry shows.
pub proof fn law_no_filter_shows_all(translated: Seq<Seq<char>>, n: int)
    requires
        0 <= n <= LANGUAGE_COUNT,
    ensures
        languages_shown(translated, Seq::empty(), n).len() == n,
        forall|i: int|
            0 <= i < n ==> (#[trigger] languages_shown(translated, Seq::empty(), n)[i]) == i,
    decreases n,
{
    if n > 0 {
        law_no_filter_shows_all(translated, n - 1);
    }
}

// ---------------------------------------------------------------------------
// Choices
// ---------------------------------------------------------------------------

/// How hard hashing works the disk.
#[derive(Debug, Clone, Copy, PartialEq, Eq, Structural)]
pub enum HashIoProfilePreference {
    Auto,
    Conservative,
    Balanced,
    Aggressive,
}

/// What draws the window.
#[derive(Debug, Clone, Copy, PartialEq, Eq, Structural)]
pub enum UiRendererPreference {
    Auto,
    Wgpu,
    Glow,
}

/// The label and the description of a hashing profile.
pub open spec fn hash_profile_row(p: HashIoProfilePreference) -> (Seq<char>, Seq<char>) {
    match p {
        HashIoProfilePreference::Auto => (
            "Auto"@,
            "Benchmark initial hashing work and choose the fastest profile."@,
        ),
        HashIoProfilePreference::Conservative => (
            "Conservative"@,
            "Low concurrency for constrained systems."@,
        ),
        HashIoProfilePreference::Balanced => (
            "Balanced"@,
            "Moderate disk concurrency for mixed systems."@,
        ),
        HashIoProfilePreference::Aggressive => (
            "Aggressive"@,
            "High concurrency for systems that can sustain it."@,
        ),
    }
}

impl HashIoProfilePreference {
    /// The label and the description of the profile.
    pub fn words(self) -> (r: (&'static str, &'static str))
        ensures
            (r.0@, r.1@) == hash_profile_row(self),
    {
        match self {
            HashIoProfilePreference::Auto => (
                "Auto",
                "Benchmark initial hashing work and choose the fastest profile.",
            ),
            HashIoProfilePreference::Conservative => (
                "Conservative",
                "Low concurrency for constrained systems.",
            ),
            HashIoProfilePreference::Balanced => (
                "Balanced",
                "Moderate disk concurrency for mixed systems.",
            ),
            HashIoProfilePreference::Aggressive => (
                "Aggressive",
                "High concurrency for systems that can sustain it.",
            ),
        }
    }
}

/// The label and the description of a renderer.
pub open spec fn renderer_row(p: UiRendererPreference) -> (Seq<char>, Seq<char>) {
    match p {
        UiRendererPreference::Auto => (
            "Auto (WGPU)"@,
            "Use WGPU by default, but allow Foxy to switch to Glow after a WGPU renderer crash."@,
        ),
        UiRendererPreference::Wgpu => (
            "WGPU"@,
            "Force WGPU. This is usually fastest, but may be less reliable on some graphics drivers."@,
        ),
        UiRendererPreference::Glow => (
            "Glow"@,
            "Force Glow/OpenGL. This is usually more compatible after graphics driver or WGPU crashes."@,
        ),
    }
}

impl UiRendererPreference {
    /// The label and the description of the renderer.
    pub fn words(self) -> (r: (&'static str, &'static str))
        ensures
            (r.0@, r.1@) == renderer_row(self),
    {
        match self {
            UiRendererPreference::Auto => (
                "Auto (WGPU)",
                "Use WGPU by default, but allow Foxy to switch to Glow after a WGPU renderer crash.",
            ),
            UiRendererPreference::Wgpu => (
                "WGPU",
                "Force WGPU. This is usually fastest, but may be less reliable on some graphics drivers.",
            ),
            UiRendererPreference::Glow => (
                "Glow",
                "Force Glow/OpenGL. This is usually more compatible after graphics driver or WGPU crashes.",
            ),
        }
    }
}

// ---------------------------------------------------------------------------
// The settings
// ---------------------------------------------------------------------------

/// The slowest limit that a download can be given, in megabits per second.
pub const SLOWEST_LIMIT_MBPS: u32 = 1;

/// The general settings that depend on one another, and the windows that they
/// open.
#[derive(Debug)]
pub struct GeneralSettings {
    pub locale: String,
    pub language_filter: String,
    /// `None` leaves downloads unlimited.
    pub download_speed_limit_mbps: Option<u32>,
    pub hash_io_profile: HashIoProfilePreference,
    pub ui_renderer: UiRendererPreference,
    pub show_memory_diagnostics_icon: bool,
    pub close_after_launch: bool,
    pub hide_to_tray_after_launch: bool,
    pub show_memory_diagnostics_window: bool,
    pub pending_reset_confirmation: bool,
    pub show_wipe_db_confirmation: bool,
}

impl GeneralSettings {
    /// Foxy does not both close and hide once the game has started.
    pub open spec fn one_way_out(&self) -> bool {
        !(self.close_after_launch && self.hide_to_tray_after_launch)
    }

    /// Selects entry `i` of the language list. The result says whether that
    /// changes the language.
    pub fn pick_language(&mut self, i: usize) -> (changed: bool)
        requires
            i < LANGUAGE_COUNT,
        ensures
            *final(self) == (GeneralSettings { locale: final(self).locale, ..*old(self) }),
            final(self).locale@ == language_row(i as int).0,
            changed == (old(self).locale@ != language_row(i as int).0),
            !changed ==> final(self).locale == old(self).locale,
    {
        let code: &'static str = language(i).code;
        if same_text(self.locale.as_str(), code) {
            return false;
        }
        self.locale = code.to_owned();
        true
    }

    /// The switch that lifts the speed limit: switched off, it starts with the
    /// slowest one.
    pub fn set_unlimited(&mut self, unlimited: bool)
        ensures
            *final(self) == (GeneralSettings {
                download_speed_limit_mbps: if unlimited {
                    None
                } else {
                    Some(SLOWEST_LIMIT_MBPS)
                },
                ..*old(self)
            }),
    {
        self.download_speed_limit_mbps = if unlimited {
            None
        } else {
            Some(SLOWEST_LIMIT_MBPS)
        };
    }

    /// The limit that is shown; a limit of nothing becomes the slowest one.
    pub fn limit_shown(&mut self) -> (r: Option<u32>)
        ensures
            *final(self) == (GeneralSettings { download_speed_limit_mbps: r, ..*old(self) }),
            r == match old(self).download_speed_limit_mbps {
                Some(0) => Some(SLOWEST_LIMIT_MBPS),
                limit => limit,
            },
    {
        if let Some(limit) = self.download_speed_limit_mbps {
            if limit == 0 {
                self.download_speed_limit_mbps = Some(SLOWEST_LIMIT_MBPS);
            }
        }
        self.download_speed_limit_mbps
    }

    /// Shows or hides the memory icon. Without the icon its window closes.
    pub fn set_memory_icon(&mut self, shown: bool)
        ensures
            *final(self) == (GeneralSettings {
                show_memory_diagnostics_icon: shown,
                show_memory_diagnostics_window: shown && old(self).show_memory_diagnostics_window,
                ..*old(self)
            }),
    {
        self.show_memory_diagnostics_icon = shown;
        if !shown {
            self.show_memory_diagnostics_window = false;
        }
    }

    /// Switches closing after a launch. Who closes does not hide.
    pub fn set_close_after_launch(&mut self, on: bool)
        ensures
            *final(self) == (GeneralSettings {
                close_after_launch: on,
                hide_to_tray_after_launch: !on && old(self).hide_to_tray_after_launch,
                ..*old(self)
            }),
            final(self).one_way_out(),
    {
        self.close_after_launch = on;
        if on {
            self.hide_to_tray_after_launch = false;
        }
    }

    /// Drops hiding where there is no tray. The result says whether that
    /// changes anything.
    pub fn check_tray(&mut self, tray_available: bool) -> (changed: bool)
        ensures
            changed == (!tray_available && old(self).hide_to_tray_after_launch),
            *final(self) == (GeneralSettings {
                hide_to_tray_after_launch: tray_available && old(self).hide_to_tray_after_launch,
                ..*old(self)
            }),
            old(self).one_way_out() ==> final(self).one_way_out(),
    {
        if !tray_available && self.hide_to_tray_after_launch {
            self.hide_to_tray_after_launch = false;
            true
        } else {
            false
        }
    }

    /// Whether hiding can be switched.
    pub fn tray_switch_enabled(&self, tray_available: bool) -> (r: bool)
        ensures
            r == (!self.close_after_launch && tray_available),
    {
        !self.close_after_launch && tray_available
    }

    /// Switches hiding after a launch, if it can be switched.
    pub fn set_hide_to_tray(&mut self, on: bool, tray_available: bool)
        ensures
            *final(self) == (GeneralSettings {
                hide_to_tray_after_launch: if !old(self).close_after_launch && tray_available {
                    on
                } else {
                    old(self).hide_to_tray_after_launch
                },
                ..*old(self)
            }),
            old(self).one_way_out() ==> final(self).one_way_out(),
    {
        if self.tray_switch_enabled(tray_available) {
            self.hide_to_tray_after_launch = on;
        }
    }

    /// Asks before everything is reset.
    pub fn request_reset(&mut self)
        ensures
            *final(self) == (GeneralSettings { pending_reset_confirmation: true, ..*old(self) }),
    {
        self.pending_reset_confirmation = true;
    }

    /// The answer to that question. The result says whether to reset.
    pub fn answer_reset(&mut self, yes: bool) -> (reset: bool)
        ensures
            *final(self) == (GeneralSettings { pending_reset_confirmation: false, ..*old(self) }),
            reset == (yes && old(self).pending_reset_confirmation),
    {
        let reset: bool = yes && self.pending_reset_confirmation;
        self.pending_reset_confirmation = false;
        reset
    }

    /// Asks before the database is wiped, unless repositories are being
    /// synchronised.
    pub fn request_wipe(&mut self, sync_active: bool)
        ensures
            *final(self) == (GeneralSettings {
                show_wipe_db_confirmation: old(self).show_wipe_db_confirmation || !sync_active,
                ..*old(self)
            }),
    {
        if !sync_active {
            self.show_wipe_db_confirmation = true;
        }
    }

    /// Whether that question is being asked.
    pub fn wipe_dialog_shown(&self) -> (r: bool)
        ensures
            r == self.show_wipe_db_confirmation,
    {
        self.show_wipe_db_confirmation
    }

    /// The answer to that question. A yes counts only while nothing is being
    /// synchronised. The result says whether to wipe.
    pub fn answer_wipe(&mut self, yes: bool, sync_active: bool) -> (wipe: bool)
        ensures
            wipe == (yes && !sync_active && old(self).show_wipe_db_confirmation),
            *final(self) == (GeneralSettings {
                show_wipe_db_confirmation: old(self).show_wipe_db_confirmation && yes
                    && sync_active,
                ..*old(self)
            }),
    {
        if yes && sync_active {
            return false;
        }
        let wipe: bool = yes && self.show_wipe_db_confirmation;
        self.show_wipe_db_confirmation = false;
        wipe
    }
}

/// What the user is told of an export of the logs, and whether it went well.
/// `written` says whether an archive was written, `None` that the export
/// failed. Nothing is said of one that the user called off.
pub fn export_toast(written: Option<bool>) -> (r: Option<(&'static str, bool)>)
    ensures
        match written {
            Some(true) => r matches Some(t) && t.0@ == "Logs exported successfully."@ && t.1,
            Some(false) => r is None,
            None => r matches Some(t) && t.0@ == "Failed to export logs."@ && !t.1,
        },
{
    match written {
        Some(true) => Some(("Logs exported successfully.", true)),
        Some(false) => None,
        None => Some(("Failed to export logs.", false)),
    }
}

} // verus!
