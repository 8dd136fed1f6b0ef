//! The choices the interface settings page offers and how a choice becomes a
//! setting: languages, themes, the startup library view, and the library
//! layout switches.
use vstd::prelude::*;

verus! {

/// The theme id that stands for the built-in default theme.
pub const DEFAULT_THEME_ID: &'static str = "";

/// A language the interface can be shown in.
#[derive(Clone)]
pub struct LanguageOption {
    pub code: &'static str,
    pub display_name: String,
}

/// A theme the user can pick: `id` is `None` for the built-in default theme.
#[derive(Clone)]
pub struct ThemeOption {
    pub id: Option<String>,
    pub label: String,
}

/// One entry of a dropdown: the id it reports when chosen and the label it
/// shows.
#[derive(Clone)]
pub struct DropdownChoice {
    pub id: String,
    pub label: String,
}

/// The languages offered, in order, as (code, display name); the first, with
/// the empty code, follows the system's language and is shown under
/// `system_default`.
pub open spec fn language_table(system_default: Seq<char>) -> Seq<(Seq<char>, Seq<char>)> {
    seq![
        (""@, system_default),
        ("cs"@, "Čeština"@),
        ("el"@, "Ελληνικά"@),
        ("es"@, "Español"@),
        ("en"@, "English"@),
        ("sk"@, "Slovenčina"@),
        ("vi"@, "Tiếng Việt"@),
    ]
}

fn language(code: &'static str, display_name: &str) -> (option: LanguageOption)
    ensures
        option.code@ == code@,
        option.display_name@ == display_name@,
{
    LanguageOption { code, display_name: String::from_str(display_name) }
}

/// The languages the interface is translated into, the system default first.
pub fn get_available_languages(system_default: &str) -> (languages: Vec<LanguageOption>)
    ensures
        languages@.len() == language_table(system_default@).len(),
        forall|i: int|
            0 <= i < languages@.len() ==> {
                &&& (#[trigger] languages@[i]).code@ == language_table(system_default@)[i].0
                &&& languages@[i].display_name@ == language_table(system_default@)[i].1
            },
        languages@.len() == 7,
        languages@[0].code@ == ""@ && languages@[0].display_name@ == system_default@,
        languages@[1].code@ == "cs"@ && languages@[1].display_name@ == "Čeština"@,
        languages@[2].code@ == "el"@ && languages@[2].display_name@ == "Ελληνικά"@,
        languages@[3].code@ == "es"@ && languages@[3].display_name@ == "Español"@,
        languages@[4].code@ == "en"@ && languages@[4].display_name@ == "English"@,
        languages@[5].code@ == "sk"@ && languages@[5].display_name@ == "Slovenčina"@,
        languages@[6].code@ == "vi"@ && languages@[6].display_name@ == "Tiếng Việt"@,
{
    let mut languages = Vec::new();
    languages.push(language("", system_default));
    languages.push(language("cs", "Čeština"));
    languages.push(language("el", "Ελληνικά"));
    languages.push(language("es", "Español"));
    languages.push(language("en", "English"));
    languages.push(language("sk", "Slovenčina"));
    languages.push(language("vi", "Tiếng Việt"));
    languages
}

/// Whether two strings hold the same text.
fn str_equal(a: &str, b: &str) -> (equal: bool)
    ensures
        equal == (a@ == b@),
{
    String::from_str(a) == String::from_str(b)
}

/// The index of the first element of `s` that `p` holds of, or 0 when `p`
/// holds of none.
pub open spec fn first_index_or_zero<A>(s: Seq<A>, p: spec_fn(A) -> bool) -> int {
    if exists|i: int| 0 <= i < s.len() && p(#[trigger] s[i]) {
        choose|i: int|
            0 <= i < s.len() && p(#[trigger] s[i]) && forall|j: int| 0 <= j < i ==> !p(#[trigger] s[j])
    } else {
        0
    }
}

proof fn lemma_first_exists<A>(s: Seq<A>, p: spec_fn(A) -> bool)
    requires
        exists|i: int| 0 <= i < s.len() && p(#[trigger] s[i]),
    ensures
        exists|k: int| 0 <= k < s.len() && p(#[trigger] s[k]) && forall|j: int| 0 <= j < k ==> !p(#[trigger] s[j]),
    decreases s.len(),
{
    let last = s.len() - 1;
    let init = s.drop_last();
    if exists|i: int| 0 <= i < init.len() && p(#[trigger] init[i]) {
        lemma_first_exists(init, p);
        let k = choose|k: int|
            0 <= k < init.len() && p(#[trigger] init[k]) && forall|j: int| 0 <= j < k ==> !p(#[trigger] init[j]);
        assert(s[k] == init[k]);
        assert forall|j: int| 0 <= j < k implies !p(#[trigger] s[j]) by {
            assert(s[j] == init[j]);
        }
    } else {
        assert(p(s[last])) by {
            let i = choose|i: int| 0 <= i < s.len() && p(#[trigger] s[i]);
            if i < last {
                assert(init[i] == s[i]);
            }
        }
        assert forall|j: int| 0 <= j < last implies !p(#[trigger] s[j]) by {
            assert(init[j] == s[j]);
        }
    }
}

/// [`first_index_or_zero`] is the first index that `p` holds at, when there is
/// one, and 0 when there is none.
pub proof fn lemma_first_index_or_zero<A>(s: Seq<A>, p: spec_fn(A) -> bool)
    ensures
        ({
            let k = first_index_or_zero(s, p);
            if exists|i: int| 0 <= i < s.len() && p(#[trigger] s[i]) {
                &&& 0 <= k < s.len()
                &&& p(s[k])
                &&& forall|j: int| 0 <= j < k ==> !p(#[trigger] s[j])
            } else {
                &&& k == 0
                &&& forall|j: int| 0 <= j < s.len() ==> !p(#[trigger] s[j])
            }
        }),
{
    if exists|i: int| 0 <= i < s.len() && p(#[trigger] s[i]) {
        lemma_first_exists(s, p);
    }
}

/// An index that `p` holds at, and at no index before it, is the one
/// [`first_index_or_zero`] picks.
pub proof fn lemma_first_index_at<A>(s: Seq<A>, p: spec_fn(A) -> bool, k: int)
    requires
        0 <= k < s.len(),
        p(s[k]),
        forall|j: int| 0 <= j < k ==> !p(#[trigger] s[j]),
    ensures
        first_index_or_zero(s, p) == k,
{
    lemma_first_index_or_zero(s, p);
    let c = first_index_or_zero(s, p);
    if c < k {
        assert(!p(s[c]));
    } else if c > k {
        assert(!p(s[k]));
    }
}

/// The languages whose code is `code`.
pub open spec fn has_code(code: Seq<char>) -> spec_fn(LanguageOption) -> bool {
    |l: LanguageOption| l.code@ == code
}

/// The index of the first language whose code is `code`, or 0 (the system
/// default) when there is none.
pub open spec fn language_index(languages: Seq<LanguageOption>, code: Seq<char>) -> int {
    first_index_or_zero(languages, has_code(code))
}

/// The dropdown entry to preselect for the configured language.
pub fn selected_language_index(languages: &Vec<LanguageOption>, code: &str) -> (index: usize)
    ensures
        index == language_index(languages@, code@),
        index == 0 || index < languages@.len(),
        (exists|i: int| 0 <= i < languages@.len() && (#[trigger] languages@[i]).code@ == code@) ==> {
            &&& index < languages@.len()
            &&& languages@[index as int].code@ == code@
            &&& forall|j: int| 0 <= j < index ==> (#[trigger] languages@[j]).code@ != code@
        },
        (forall|i: int| 0 <= i < languages@.len() ==> (#[trigger] languages@[i]).code@ != code@) ==> index == 0,
{
    let ghost p = has_code(code@);
    let mut i: usize = 0;
    while i < languages.len()
        invariant
            i <= languages@.len(),
            p == has_code(code@),
            forall|j: int| 0 <= j < i ==> !p(#[trigger] languages@[j]),
        decreases languages@.len() - i,
    {
        if str_equal(languages[i].code, code) {
            proof {
                lemma_first_index_at(languages@, p, i as int);
            }
            return i;
        }
        i = i + 1;
    }
    proof {
        lemma_first_index_or_zero(languages@, p);
    }
    0
}

/// The ids of the library pages the app can open on, in dropdown order.
pub open spec fn startup_view_ids() -> Seq<Seq<char>> {
    seq!["albums"@, "artists"@, "tracks"@, "liked_songs"@]
}

fn choice(id: &str, label: &str) -> (c: DropdownChoice)
    ensures
        c.id@ == id@,
        c.label@ == label@,
{
    DropdownChoice { id: String::from_str(id), label: String::from_str(label) }
}

/// The startup library view dropdown's entries: the albums, artists, tracks
/// and liked songs pages, in that order, under the labels given for them.
pub fn startup_library_view_options(
    albums: &str,
    artists: &str,
    tracks: &str,
    liked_songs: &str,
) -> (options: Vec<DropdownChoice>)
    ensures
        options@.len() == startup_view_ids().len(),
        forall|i: int| 0 <= i < options@.len() ==> (#[trigger] options@[i]).id@ == startup_view_ids()[i],
        options@[0].label@ == albums@,
        options@[1].label@ == artists@,
        options@[2].label@ == tracks@,
        options@[3].label@ == liked_songs@,
        options@.len() == 4,
        options@[0].id@ == "albums"@,
        options@[1].id@ == "artists"@,
        options@[2].id@ == "tracks"@,
        options@[3].id@ == "liked_songs"@,
{
    let mut options = Vec::new();
    options.push(choice("albums", albums));
    options.push(choice("artists", artists));
    options.push(choice("tracks", tracks));
    options.push(choice("liked_songs", liked_songs));
    options
}

/// The id a theme is chosen by: its own, or the default theme's.
pub open spec fn theme_choice_id(theme: ThemeOption) -> Seq<char> {
    match theme.id {
        Some(id) => id@,
        None => DEFAULT_THEME_ID@,
    }
}

/// The label a theme is listed under: its own, or `default_label` for the
/// built-in default theme.
pub open spec fn theme_choice_label(theme: ThemeOption, default_label: Seq<char>) -> Seq<char> {
    match theme.id {
        Some(_) => theme.label@,
        None => default_label,
    }
}

/// The theme dropdown's entries, one per discovered theme, in order.
pub fn build_theme_dropdown_options(theme_options: &Vec<ThemeOption>, default_label: &str) -> (choices: Vec<DropdownChoice>)
    ensures
        choices@.len() == theme_options@.len(),
        forall|i: int|
            0 <= i < choices@.len() ==> {
                &&& (#[trigger] choices@[i]).id@ == theme_choice_id(theme_options@[i])
                &&& choices@[i].label@ == theme_choice_label(theme_options@[i], default_label@)
            },
        forall|i: int|
            0 <= i < choices@.len() && (#[trigger] theme_options@[i]).id is Some ==> {
                &&& choices@[i].id@ == theme_options@[i].id->0@
                &&& choices@[i].label@ == theme_options@[i].label@
            },
        forall|i: int|
            0 <= i < choices@.len() && (#[trigger] theme_options@[i]).id is None ==> {
                &&& choices@[i].id@ == DEFAULT_THEME_ID@
                &&& choices@[i].label@ == default_label@
            },
{
    let mut choices: Vec<DropdownChoice> = Vec::new();
    let mut i: usize = 0;
    while i < theme_options.len()
        invariant
            i <= theme_options@.len(),
            choices@.len() == i,
            forall|k: int|
                0 <= k < i ==> {
                    &&& (#[trigger] choices@[k]).id@ == theme_choice_id(theme_options@[k])
                    &&& choices@[k].label@ == theme_choice_label(theme_options@[k], default_label@)
                },
        decreases theme_options@.len() - i,
    {
        let theme = &theme_options[i];
        let choice = match &theme.id {
            Some(id) => DropdownChoice { id: id.clone(), label: theme.label.clone() },
            None => DropdownChoice {
                id: String::from_str(DEFAULT_THEME_ID),
                label: String::from_str(default_label),
            },
        };
        choices.push(choice);
        i = i + 1;
    }
    choices
}

/// Whether two optional strings are both absent or both present with the
/// same text.
pub open spec fn same_id(a: Option<String>, b: Option<String>) -> bool {
    (a is None && b is None) || (a is Some && b is Some && a->0@ == b->0@)
}

/// Whether two optional theme ids name the same theme.
pub open spec fn same_theme(a: Option<String>, b: Option<String>) -> bool {
    match (a, b) {
        (Some(x), Some(y)) => x@ == y@,
        (None, None) => true,
        _ => false,
    }
}

fn same_theme_exec(a: &Option<String>, b: &Option<String>) -> (r: bool)
    ensures
        r == same_theme(*a, *b),
{
    match (a, b) {
        (Some(x), Some(y)) => *x == *y,
        (None, None) => true,
        _ => false,
    }
}

/// The themes whose id is `selected`.
pub open spec fn has_theme_id(selected: Option<String>) -> spec_fn(ThemeOption) -> bool {
    |t: ThemeOption| same_theme(t.id, selected)
}

/// The index of the first theme whose id is `selected`, or 0 when there is
/// none.
pub open spec fn theme_index(themes: Seq<ThemeOption>, selected: Option<String>) -> int {
    first_index_or_zero(themes, has_theme_id(selected))
}

/// What the interface settings page is told about.
#[derive(Clone, Copy, Debug, PartialEq, Eq, Structural)]
pub enum ThemeDropdownEvent {
    /// The settings changed (the configured theme may or may not have).
    SettingsChanged,
    /// The list of discovered themes changed.
    ThemeOptionsChanged,
}

/// What the page does on an event: whether it rebuilds the theme dropdown,
/// and the theme the dropdown is then built for.
pub struct ThemeDropdownStep {
    pub rebuild: bool,
    pub shown: Option<String>,
}

/// Whether an event makes the page rebuild its theme dropdown: a settings
/// change only when the configured theme differs from the one shown, a change
/// of the theme list always.
pub open spec fn needs_rebuild(shown: Option<String>, configured: Option<String>, event: ThemeDropdownEvent) -> bool {
    match event {
        ThemeDropdownEvent::SettingsChanged => !same_theme(shown, configured),
        ThemeDropdownEvent::ThemeOptionsChanged => true,
    }
}

/// Reacts to an event: rebuilds the theme dropdown when [`needs_rebuild`]
/// says so, for the configured theme, and otherwise keeps showing the theme
/// it shows.
pub fn theme_dropdown_step(
    shown: Option<String>,
    configured: &Option<String>,
    event: ThemeDropdownEvent,
) -> (step: ThemeDropdownStep)
    ensures
        step.rebuild == needs_rebuild(shown, *configured, event),
        step.rebuild ==> same_theme(step.shown, *configured),
        !step.rebuild ==> step.shown == shown,
        event == ThemeDropdownEvent::ThemeOptionsChanged ==> step.rebuild,
        event == ThemeDropdownEvent::SettingsChanged ==> (step.rebuild <==> (match (shown, *configured) {
            (Some(a), Some(b)) => a@ != b@,
            (None, None) => false,
            _ => true,
        })),
        step.rebuild ==> (match (step.shown, *configured) {
            (Some(a), Some(b)) => a@ == b@,
            (None, None) => true,
            _ => false,
        }),
{
    let rebuild = match event {
        ThemeDropdownEvent::SettingsChanged => !same_theme_exec(&shown, configured),
        ThemeDropdownEvent::ThemeOptionsChanged => true,
    };
    if rebuild {
        ThemeDropdownStep { rebuild, shown: configured.clone() }
    } else {
        ThemeDropdownStep { rebuild, shown }
    }
}

/// After any event the dropdown shows the configured theme, and a settings
/// change that leaves the theme alone does not rebuild it.
pub proof fn lemma_dropdown_follows_configured_theme(
    shown: Option<String>,
    configured: Option<String>,
    event: ThemeDropdownEvent,
    next: Option<String>,
)
    requires
        needs_rebuild(shown, configured, event) ==> same_theme(next, configured),
        !needs_rebuild(shown, configured, event) ==> next == shown,
    ensures
        same_theme(next, configured),
        event == ThemeDropdownEvent::SettingsChanged && same_theme(shown, configured)
            ==> !needs_rebuild(shown, configured, event),
{
}

/// The theme dropdown entry to preselect for the (resolved) selected theme.
pub fn theme_selected_index(theme_options: &Vec<ThemeOption>, selected: &Option<String>) -> (index: usize)
    ensures
        index == theme_index(theme_options@, *selected),
        index == 0 || index < theme_options@.len(),
        (exists|i: int| 0 <= i < theme_options@.len() && same_id((#[trigger] theme_options@[i]).id, *selected)) ==> {
            &&& index < theme_options@.len()
            &&& same_id(theme_options@[index as int].id, *selected)
            &&& forall|j: int| 0 <= j < index ==> !same_id((#[trigger] theme_options@[j]).id, *selected)
        },
        (forall|i: int| 0 <= i < theme_options@.len() ==> !same_id((#[trigger] theme_options@[i]).id, *selected))
            ==> index == 0,
{
    let ghost p = has_theme_id(*selected);
    let mut i: usize = 0;
    while i < theme_options.len()
        invariant
            i <= theme_options@.len(),
            p == has_theme_id(*selected),
            forall|j: int| 0 <= j < i ==> !p(#[trigger] theme_options@[j]),
        decreases theme_options@.len() - i,
    {
        if same_theme_exec(&theme_options[i].id, selected) {
            proof {
                lemma_first_index_at(theme_options@, p, i as int);
            }
            return i;
        }
        i = i + 1;
    }
    proof {
        lemma_first_index_or_zero(theme_options@, p);
    }
    0
}

/// The `interface.theme` setting a dropdown id stands for: the empty id is the
/// built-in default (no setting), any other id is the theme file it names.
pub open spec fn theme_setting(id: Seq<char>) -> Option<Seq<char>> {
    if id.len() == 0 {
        None
    } else {
        Some(id)
    }
}

/// Turns the id of the chosen theme entry into the `interface.theme` setting.
pub fn theme_setting_for_choice(id: &str) -> (setting: Option<String>)
    ensures
        match setting {
            Some(s) => theme_setting(id@) == Some(s@),
            None => theme_setting(id@) is None,
        },
        setting is None <==> id@.len() == 0,
        setting matches Some(s) ==> s@ == id@,
{
    if id.is_empty() {
        None
    } else {
        Some(String::from_str(id))
    }
}

/// Choosing a theme's dropdown entry sets `interface.theme` back to that
/// theme's own id (no setting for the built-in default), for every theme
/// whose id is not the empty string.
pub proof fn lemma_theme_choice_round_trip(theme: ThemeOption)
    requires
        match theme.id {
            Some(id) => id@.len() != 0,
            None => true,
        },
    ensures
        theme_setting(theme_choice_id(theme)) == match theme.id {
            Some(id) => Some(id@),
            None => None::<Seq<char>>,
        },
{
    assert(DEFAULT_THEME_ID@.len() == 0) by {
        reveal_strlit("");
    }
}

/// The entry preselected for a listed theme is that theme's first entry.
pub proof fn lemma_theme_index_finds_listed(themes: Seq<ThemeOption>, k: int)
    requires
        0 <= k < themes.len(),
        forall|j: int| 0 <= j < k ==> !same_theme((#[trigger] themes[j]).id, themes[k].id),
    ensures
        theme_index(themes, themes[k].id) == k,
{
    let p = has_theme_id(themes[k].id);
    assert forall|j: int| 0 <= j < k implies !p(#[trigger] themes[j]) by {
        assert(!same_theme(themes[j].id, themes[k].id));
    }
    lemma_first_index_at(themes, p, k);
}

/// The parent directory of `path`, as `Path::parent` computes it, written out
/// as text; `None` when the path has no parent. Which characters separate
/// components depends on the target the program is built for (`/` on Unix,
/// also `\` on Windows), and is fixed for one build.
pub uninterp spec fn path_parent(path: Seq<char>) -> Option<Seq<char>>;

/// Calls `Path::parent` on `path` and writes the parent out with
/// `to_string_lossy`. Claims: the result is the named parent, and the empty
/// path has none (as `Path::parent` documents).
#[verifier::external_body]
fn parent_of(path: &str) -> (parent: Option<String>)
    ensures
        match parent {
            Some(p) => path_parent(path@) == Some(p@),
            None => path_parent(path@) is None,
        },
        path@.len() == 0 ==> parent is None,
{
    std::path::Path::new(path).parent().map(|p| p.to_string_lossy().into_owned())
}

/// The directory the settings file lives in, or the current directory when
/// its path has no parent.
pub fn data_dir_for_settings(settings_path: &str) -> (dir: String)
    ensures
        dir@ == match path_parent(settings_path@) {
            Some(p) => p,
            None => "."@,
        },
{
    match parent_of(settings_path) {
        Some(p) => p,
        None => String::from_str("."),
    }
}

/// The library layout switches of the interface settings.
#[derive(Clone, Copy, Debug, PartialEq, Eq, Structural)]
pub struct LibraryLayoutFlags {
    pub full_width_library: bool,
    pub two_column_library: bool,
    pub always_show_scrollbars: bool,
}

/// The switches after a click on the full-width switch: it flips, unless the
/// two-column library is on, when the click does nothing.
pub open spec fn after_full_width_click(f: LibraryLayoutFlags) -> LibraryLayoutFlags {
    if f.two_column_library {
        f
    } else {
        LibraryLayoutFlags { full_width_library: !f.full_width_library, ..f }
    }
}

/// The switches after a click on the two-column switch.
pub open spec fn after_two_column_click(f: LibraryLayoutFlags) -> LibraryLayoutFlags {
    LibraryLayoutFlags { two_column_library: !f.two_column_library, ..f }
}

/// The switches after a click on the always-show-scrollbars switch.
pub open spec fn after_scrollbars_click(f: LibraryLayoutFlags) -> LibraryLayoutFlags {
    LibraryLayoutFlags { always_show_scrollbars: !f.always_show_scrollbars, ..f }
}

impl LibraryLayoutFlags {
    /// Whether the full-width checkbox shows as ticked: the two-column library
    /// always takes the full width.
    pub fn full_width_checked(&self) -> (checked: bool)
        ensures
            checked == (self.full_width_library || self.two_column_library),
    {
        self.full_width_library || self.two_column_library
    }

    /// Whether the full-width switch can be flipped: not while the two-column
    /// library is on (the switch is then shown dimmed).
    pub fn full_width_enabled(&self) -> (enabled: bool)
        ensures
            enabled == !self.two_column_library,
    {
        !self.two_column_library
    }

    /// A click on the full-width switch.
    pub fn click_full_width(&mut self)
        ensures
            *final(self) == after_full_width_click(*old(self)),
            !old(self).two_column_library ==> final(self).full_width_library == !old(self).full_width_library,
            old(self).two_column_library ==> final(self).full_width_library == old(self).full_width_library,
            final(self).two_column_library == old(self).two_column_library,
            final(self).always_show_scrollbars == old(self).always_show_scrollbars,
    {
        if !self.two_column_library {
            self.full_width_library = !self.full_width_library;
        }
    }

    /// A click on the two-column switch.
    pub fn click_two_column(&mut self)
        ensures
            *final(self) == after_two_column_click(*old(self)),
            final(self).two_column_library == !old(self).two_column_library,
            final(self).full_width_library == old(self).full_width_library,
            final(self).always_show_scrollbars == old(self).always_show_scrollbars,
    {
        self.two_column_library = !self.two_column_library;
    }

    /// A click on the always-show-scrollbars switch.
    pub fn click_always_show_scrollbars(&mut self)
        ensures
            *final(self) == after_scrollbars_click(*old(self)),
            final(self).always_show_scrollbars == !old(self).always_show_scrollbars,
            final(self).full_width_library == old(self).full_width_library,
            final(self).two_column_library == old(self).two_column_library,
    {
        self.always_show_scrollbars = !self.always_show_scrollbars;
    }
}

/// Clicking a switch twice leaves every switch as it was.
pub proof fn lemma_second_click_undoes_first(f: LibraryLayoutFlags)
    ensures
        after_full_width_click(after_full_width_click(f)) == f,
        after_two_column_click(after_two_column_click(f)) == f,
        after_scrollbars_click(after_scrollbars_click(f)) == f,
{
}

/// Each click changes only its own switch.
pub proof fn lemma_click_changes_only_its_switch(f: LibraryLayoutFlags)
    ensures
        after_full_width_click(f).two_column_library == f.two_column_library,
        after_full_width_click(f).always_show_scrollbars == f.always_show_scrollbars,
        after_two_column_click(f).full_width_library == f.full_width_library,
        after_two_column_click(f).always_show_scrollbars == f.always_show_scrollbars,
        after_scrollbars_click(f).full_width_library == f.full_width_library,
        after_scrollbars_click(f).two_column_library == f.two_column_library,
{
}

/// While the two-column library is on, the library shows full width whatever
/// the full-width switch holds, and clicking that switch changes nothing.
pub proof fn lemma_two_column_implies_full_width(f: LibraryLayoutFlags)
    requires
        f.two_column_library,
    ensures
        f.full_width_library || f.two_column_library,
        after_full_width_click(f) == f,
{
}

/// A change to the list of themes always rebuilds the dropdown, whatever theme
/// is configured or shown, so a newly added theme file is listed at once; a
/// settings change rebuilds it exactly when the configured theme is not the one
/// shown.
pub proof fn lemma_rebuild_rules(shown: Option<String>, configured: Option<String>)
    ensures
        needs_rebuild(shown, configured, ThemeDropdownEvent::ThemeOptionsChanged),
        needs_rebuild(shown, configured, ThemeDropdownEvent::SettingsChanged) <==> (match (shown, configured) {
            (Some(a), Some(b)) => a@ != b@,
            (None, None) => false,
            _ => true,
        }),
{
}

/// Unless the two-column library is on, a click on the full-width switch flips
/// it, whatever the other switches hold; while the two-column library is on it
/// changes nothing.
pub proof fn lemma_full_width_click_flips(f: LibraryLayoutFlags)
    ensures
        !f.two_column_library ==> after_full_width_click(f).full_width_library == !f.full_width_library,
        f.two_column_library ==> after_full_width_click(f) == f,
        after_full_width_click(f).two_column_library == f.two_column_library,
        after_full_width_click(f).always_show_scrollbars == f.always_show_scrollbars,
{
}

/// The two-column and always-show-scrollbars switches flip on every click,
/// whatever the other switches hold.
pub proof fn lemma_other_clicks_flip(f: LibraryLayoutFlags)
    ensures
        after_two_column_click(f).two_column_library == !f.two_column_library,
        after_scrollbars_click(f).always_show_scrollbars == !f.always_show_scrollbars,
{
}

} // verus!
