//! Preferences: their values, their defaults, where they are stored and how
//! they are written down.

use crate::model::document;
use crate::model::document::{
    new_table, read_document, skip_document, table_insert, table_item, table_keys, write_document,
    Item, Scalar,
};
use crate::text;
use crate::text::{owned, strip_prefix};
use vstd::prelude::*;

verus! {

/// Colour theme.
#[derive(Debug, Clone, Copy, PartialEq, Eq, Structural)]
pub enum ThemeMode {
    /// Follow the system.
    System,
    Light,
    Dark,
}

/// Shape of the window corners.
#[derive(Debug, Clone, Copy, PartialEq, Eq, Structural)]
pub enum CornerPreference {
    /// Whatever the system does.
    Default,
    Round,
    SmallRound,
}

/// The user's preferences.
#[derive(Debug, Clone, Copy, PartialEq, Eq, Structural)]
pub struct Settings {
    pub theme: ThemeMode,
    pub corner: CornerPreference,
    /// Whether a badge shows its tag's title.
    pub show_badge_title: bool,
    /// Whether badges stay above every window. When off, a badge keeps to its
    /// target's place in the stacking order.
    pub badge_always_top: bool,
    /// Whether a balloon is shown when the program starts.
    pub show_balloon: bool,
}

/// The preferences of a user who never chose any.
pub open spec fn default_settings() -> Settings {
    Settings {
        theme: ThemeMode::System,
        corner: CornerPreference::Default,
        show_badge_title: true,
        badge_always_top: true,
        show_balloon: true,
    }
}

impl Default for Settings {
    fn default() -> (s: Self)
        ensures
            s == default_settings(),
    {
        Settings {
            theme: ThemeMode::System,
            corner: CornerPreference::Default,
            show_badge_title: true,
            badge_always_top: true,
            show_balloon: true,
        }
    }
}

/// The name that the settings window shows for a theme.
pub open spec fn theme_label(theme: ThemeMode) -> Seq<char> {
    match theme {
        ThemeMode::System => "跟随系统"@,
        ThemeMode::Light => "浅色"@,
        ThemeMode::Dark => "深色"@,
    }
}

impl ThemeMode {
    /// The name that the settings window shows.
    pub fn label_cn(&self) -> (label: &'static str)
        ensures
            label@ == theme_label(*self),
    {
        match self {
            ThemeMode::System => "跟随系统",
            ThemeMode::Light => "浅色",
            ThemeMode::Dark => "深色",
        }
    }
}

/// The name that the settings window shows for a corner shape.
pub open spec fn corner_label(corner: CornerPreference) -> Seq<char> {
    match corner {
        CornerPreference::Default => "默认"@,
        CornerPreference::Round => "圆角"@,
        CornerPreference::SmallRound => "小圆角"@,
    }
}

impl CornerPreference {
    /// The name that the settings window shows.
    pub fn label_cn(&self) -> (label: &'static str)
        ensures
            label@ == corner_label(*self),
    {
        match self {
            CornerPreference::Default => "默认",
            CornerPreference::Round => "圆角",
            CornerPreference::SmallRound => "小圆角",
        }
    }
}

/// No two themes and no two corner shapes share a name.
pub proof fn labels_are_distinct(
    a: ThemeMode,
    b: ThemeMode,
    c: CornerPreference,
    d: CornerPreference,
)
    ensures
        theme_label(a) == theme_label(b) ==> a == b,
        corner_label(c) == corner_label(d) ==> c == d,
{
    reveal_strlit("跟随系统");
    reveal_strlit("浅色");
    reveal_strlit("深色");
    reveal_strlit("默认");
    reveal_strlit("圆角");
    reveal_strlit("小圆角");
    assert("浅色"@[0] != "深色"@[0]);
    assert("默认"@[0] != "圆角"@[0]);
}

// ---------------------------------------------------------------------
// The settings of the running program
// ---------------------------------------------------------------------
/// The preferences that every part of the program shares. They are put in place
/// once, when the program starts; from then on they can be replaced, but a
/// second start does nothing.
#[derive(Debug, Clone, Copy, PartialEq, Eq, Structural)]
pub struct SharedSettings {
    pub value: Option<Settings>,
}

/// Puts the preferences in place, unless that was done before.
pub fn set_global_settings(shared: &mut SharedSettings, s: Settings)
    ensures
        final(shared).value == (match old(shared).value {
            Some(earlier) => Some(earlier),
            None => Some(s),
        }),
{
    if shared.value.is_none() {
        shared.value = Some(s);
    }
}

/// The preferences in force, if they were put in place.
pub fn global_settings(shared: &SharedSettings) -> (s: Option<Settings>)
    ensures
        s == shared.value,
{
    shared.value
}

/// Replaces the preferences in force, if they were put in place.
pub fn replace_global_settings(shared: &mut SharedSettings, s: Settings)
    ensures
        final(shared).value == (match old(shared).value {
            Some(_) => Some(s),
            None => None,
        }),
{
    if shared.value.is_some() {
        shared.value = Some(s);
    }
}

// ---------------------------------------------------------------------
// Where the file is
// ---------------------------------------------------------------------
/// The first of four candidates that is there.
pub open spec fn first_of<T>(a: Option<T>, b: Option<T>, c: Option<T>, d: Option<T>) -> Option<
    T,
> {
    if a is Some {
        a
    } else if b is Some {
        b
    } else if c is Some {
        c
    } else {
        d
    }
}

/// The directory of the configuration file: the one given on the command line,
/// else the one from the environment, else the one beside the program, else the
/// one among the user's application data.
pub fn pick_config_root<'a, T: ?Sized>(
    cli: Option<&'a T>,
    env: Option<&'a T>,
    exe_probe: Option<&'a T>,
    appdata: Option<&'a T>,
) -> (root: Option<&'a T>)
    ensures
        root == first_of(cli, env, exe_probe, appdata),
{
    if cli.is_some() {
        cli
    } else if env.is_some() {
        env
    } else if exe_probe.is_some() {
        exe_probe
    } else {
        appdata
    }
}

/// Where the command line names the configuration directory.
#[derive(Debug)]
pub enum ConfigDirArg {
    /// The argument at this position is the directory.
    At(usize),
    /// The directory itself, given in one argument together with the option.
    Inline(String),
}

/// Contents of a [`ConfigDirArg`].
pub enum ConfigDirView {
    At(int),
    Inline(Seq<char>),
}

impl View for ConfigDirArg {
    type V = ConfigDirView;

    open spec fn view(&self) -> ConfigDirView {
        match *self {
            ConfigDirArg::At(i) => ConfigDirView::At(i as int),
            ConfigDirArg::Inline(s) => ConfigDirView::Inline(s@),
        }
    }
}

/// Whether an argument is the option that has its directory behind it.
pub open spec fn is_dir_option(arg: Option<String>) -> bool {
    arg is Some && arg->0@ == "--config-dir"@
}

/// Whether an argument is the option together with its directory.
pub open spec fn is_dir_assignment(arg: Option<String>) -> bool {
    arg is Some && text::begins_with(arg->0@, "--config-dir="@)
}

/// Where the arguments from position `i` on name the configuration directory:
/// the first mention counts, and an option without a directory behind it names
/// none. An argument that is no Unicode text is `None`.
pub open spec fn config_dir_from(args: Seq<Option<String>>, i: int) -> Option<ConfigDirView>
    decreases args.len() - i,
{
    if i < 0 || i >= args.len() {
        None
    } else if is_dir_option(args[i]) {
        if i + 1 < args.len() {
            Some(ConfigDirView::At(i + 1))
        } else {
            None
        }
    } else if is_dir_assignment(args[i]) {
        Some(
            ConfigDirView::Inline(
                args[i]->0@.subrange("--config-dir="@.len() as int, args[i]->0@.len() as int),
            ),
        )
    } else {
        config_dir_from(args, i + 1)
    }
}

/// Where the command line names the configuration directory, if it does.
pub fn parse_cli_config_dir(args: &[Option<String>]) -> (dir: Option<ConfigDirArg>)
    ensures
        match dir {
            Some(d) => config_dir_from(args@, 0) == Some(d@),
            None => config_dir_from(args@, 0) is None,
        },
{
    let mut i: usize = 0;
    while i < args.len()
        invariant
            i <= args.len(),
            config_dir_from(args@, 0) == config_dir_from(args@, i as int),
        decreases args.len() - i,
    {
        if let Some(arg) = &args[i] {
            if text::same(arg.as_str(), "--config-dir") {
                if i + 1 < args.len() {
                    return Some(ConfigDirArg::At(i + 1));
                }
                return None;
            }
            if let Some(rest) = strip_prefix(arg.as_str(), "--config-dir=") {
                return Some(ConfigDirArg::Inline(rest));
            }
        }
        i = i + 1;
    }
    None
}

/// A directory given on the command line is found wherever it stands, as long as
/// nothing before it names one.
pub proof fn first_mention_counts(args: Seq<Option<String>>, i: int)
    requires
        0 <= i < args.len() - 1,
        is_dir_option(args[i]),
        forall|k: int|
            0 <= k < i ==> !is_dir_option(#[trigger] args[k]) && !is_dir_assignment(args[k]),
    ensures
        config_dir_from(args, 0) == Some(ConfigDirView::At(i + 1)),
{
    lemma_skip_other_args(args, 0, i);
}

proof fn lemma_skip_other_args(args: Seq<Option<String>>, from: int, to: int)
    requires
        0 <= from <= to < args.len(),
        forall|k: int|
            from <= k < to ==> !is_dir_option(#[trigger] args[k]) && !is_dir_assignment(args[k]),
    ensures
        config_dir_from(args, from) == config_dir_from(args, to),
    decreases to - from,
{
    if from < to {
        lemma_skip_other_args(args, from + 1, to);
    }
}

/// Whether the configuration file at the old place is to be read: the file at
/// the new place does not exist, and the two places differ.
pub fn should_read_through(resolved_exists: bool, same_path: bool) -> (read: bool)
    ensures
        read == (!resolved_exists && !same_path),
{
    !resolved_exists && !same_path
}

// ---------------------------------------------------------------------
// What the file says
// ---------------------------------------------------------------------
/// What is wrong with a configuration file.
#[derive(Debug, Clone, Copy, PartialEq, Eq, Structural)]
pub enum ConfigError {
    /// It is no document.
    Syntax,
    /// The theme is missing or not known.
    Theme,
    /// The corner shape is missing or not known.
    Corner,
    /// A switch is neither on nor off.
    ShowBadgeTitle,
    BadgeAlwaysTop,
    ShowBalloon,
}

/// The value of a switch that a file does not mention.
pub fn default_true() -> (on: bool)
    ensures
        on,
{
    true
}

/// The word for a theme.
pub open spec fn theme_word(theme: ThemeMode) -> Seq<char> {
    match theme {
        ThemeMode::System => "System"@,
        ThemeMode::Light => "Light"@,
        ThemeMode::Dark => "Dark"@,
    }
}

/// The word for a corner shape.
pub open spec fn corner_word(corner: CornerPreference) -> Seq<char> {
    match corner {
        CornerPreference::Default => "Default"@,
        CornerPreference::Round => "Round"@,
        CornerPreference::SmallRound => "SmallRound"@,
    }
}

/// The theme that a word stands for.
pub open spec fn theme_of_word(word: Seq<char>) -> Option<ThemeMode> {
    if word == "System"@ {
        Some(ThemeMode::System)
    } else if word == "Light"@ {
        Some(ThemeMode::Light)
    } else if word == "Dark"@ {
        Some(ThemeMode::Dark)
    } else {
        None
    }
}

/// The corner shape that a word stands for.
pub open spec fn corner_of_word(word: Seq<char>) -> Option<CornerPreference> {
    if word == "Default"@ {
        Some(CornerPreference::Default)
    } else if word == "Round"@ {
        Some(CornerPreference::Round)
    } else if word == "SmallRound"@ {
        Some(CornerPreference::SmallRound)
    } else {
        None
    }
}

/// The choice that a value makes: a string, or a table with that string as its
/// only key and nothing under it.
pub open spec fn choice_of(item: document::ItemView) -> Option<Seq<char>> {
    match item {
        document::ItemView::Text(word) => Some(word),
        document::ItemView::Nested(entries) => if entries.len() == 1 && is_nothing(entries[0].1) {
            Some(entries[0].0)
        } else {
            None
        },
        _ => None,
    }
}

/// Whether a value is an empty array or an empty table.
pub open spec fn is_nothing(item: document::ItemView) -> bool {
    match item {
        document::ItemView::List(n) => n == 0,
        document::ItemView::Nested(entries) => entries.len() == 0,
        _ => false,
    }
}

/// The choice that is made under `key`.
pub open spec fn choice_at(entries: document::Entries, key: Seq<char>) -> Option<Seq<char>> {
    match document::entry_of(entries, key) {
        Some(item) => choice_of(item),
        None => None,
    }
}

/// The switch under `key`: on when it is not mentioned, `None` when the value
/// is no boolean.
pub open spec fn switch_at(entries: document::Entries, key: Seq<char>) -> Option<bool> {
    match document::entry_of(entries, key) {
        Some(document::ItemView::Flag(on)) => Some(on),
        Some(_) => None,
        None => Some(true),
    }
}

/// The preferences that a table holds.
pub open spec fn settings_of(entries: document::Entries) -> Result<Settings, ConfigError> {
    let theme = match choice_at(entries, "theme"@) {
        Some(word) => theme_of_word(word),
        None => None,
    };
    let corner = match choice_at(entries, "corner"@) {
        Some(word) => corner_of_word(word),
        None => None,
    };
    let title = switch_at(entries, "show_badge_title"@);
    let top = switch_at(entries, "badge_always_top"@);
    let balloon = switch_at(entries, "show_balloon"@);
    if theme is None {
        Err(ConfigError::Theme)
    } else if corner is None {
        Err(ConfigError::Corner)
    } else if title is None {
        Err(ConfigError::ShowBadgeTitle)
    } else if top is None {
        Err(ConfigError::BadgeAlwaysTop)
    } else if balloon is None {
        Err(ConfigError::ShowBalloon)
    } else {
        Ok(
            Settings {
                theme: theme->0,
                corner: corner->0,
                show_badge_title: title->0,
                badge_always_top: top->0,
                show_balloon: balloon->0,
            },
        )
    }
}

/// The preferences that a text holds.
pub open spec fn settings_read(content: Seq<char>) -> Result<Settings, ConfigError> {
    if document::is_document(content) {
        match document::document_entries(content) {
            Some(entries) => settings_of(entries),
            None => Err(ConfigError::Syntax),
        }
    } else {
        Err(ConfigError::Syntax)
    }
}

/// The preferences that a text holds, or else the defaults.
pub open spec fn settings_read_or_default(content: Seq<char>) -> Settings {
    match settings_read(content) {
        Ok(s) => s,
        Err(_) => default_settings(),
    }
}

/// The table that preferences are written as.
pub open spec fn settings_entries(s: Settings) -> document::Entries {
    seq![
        ("theme"@, document::ItemView::Text(theme_word(s.theme))),
        ("corner"@, document::ItemView::Text(corner_word(s.corner))),
        ("show_badge_title"@, document::ItemView::Flag(s.show_badge_title)),
        ("badge_always_top"@, document::ItemView::Flag(s.badge_always_top)),
        ("show_balloon"@, document::ItemView::Flag(s.show_balloon)),
    ]
}

/// The text that preferences are written as.
pub open spec fn settings_text(s: Settings) -> Seq<char> {
    document::entry_line("theme"@, document::ItemView::Text(theme_word(s.theme)))
        + document::entry_line("corner"@, document::ItemView::Text(corner_word(s.corner)))
        + document::entry_line("show_badge_title"@, document::ItemView::Flag(s.show_badge_title))
        + document::entry_line("badge_always_top"@, document::ItemView::Flag(s.badge_always_top))
        + document::entry_line("show_balloon"@, document::ItemView::Flag(s.show_balloon))
}

/// The choice that a value makes.
fn item_choice(item: Item) -> (word: Option<String>)
    ensures
        match word {
            Some(w) => choice_of(item@) == Some(w@),
            None => choice_of(item@) is None,
        },
{
    match item {
        Item::Text(word) => Some(word),
        Item::Nested(table) => {
            let mut keys: Vec<String> = table_keys(&table);
            if keys.len() != 1 {
                return None;
            }
            let key: String = keys.remove(0);
            let payload: Option<Item> = table_item(&table, key.as_str());
            proof {
                let entries = document::read_entries(table);
                assert(entries.last() == entries[0]);
            }
            let nothing: bool = match payload {
                Some(Item::List(n)) => n == 0,
                Some(Item::Nested(inner)) => table_keys(&inner).len() == 0,
                _ => false,
            };
            if nothing {
                Some(key)
            } else {
                None
            }
        },
        _ => None,
    }
}

/// The switch that a value sets.
fn item_switch(item: Option<Item>) -> (on: Option<bool>)
    ensures
        on == (match item {
            Some(Item::Flag(b)) => Some(b),
            Some(_) => None,
            None => Some(true),
        }),
{
    match item {
        Some(Item::Flag(b)) => Some(b),
        Some(_) => None,
        None => Some(default_true()),
    }
}

/// The theme that a word stands for.
pub fn theme_from_word(word: &str) -> (theme: Option<ThemeMode>)
    ensures
        theme == theme_of_word(word@),
{
    if text::same(word, "System") {
        Some(ThemeMode::System)
    } else if text::same(word, "Light") {
        Some(ThemeMode::Light)
    } else if text::same(word, "Dark") {
        Some(ThemeMode::Dark)
    } else {
        None
    }
}

/// The corner shape that a word stands for.
pub fn corner_from_word(word: &str) -> (corner: Option<CornerPreference>)
    ensures
        corner == corner_of_word(word@),
{
    if text::same(word, "Default") {
        Some(CornerPreference::Default)
    } else if text::same(word, "Round") {
        Some(CornerPreference::Round)
    } else if text::same(word, "SmallRound") {
        Some(CornerPreference::SmallRound)
    } else {
        None
    }
}

/// Reads preferences from a table.
pub fn read_settings(table: &toml::de::DeTable<'_>) -> (s: Result<Settings, ConfigError>)
    ensures
        s == settings_of(document::read_entries(*table)),
{
    let theme: Option<ThemeMode> = match table_item(table, "theme") {
        Some(item) => match item_choice(item) {
            Some(word) => theme_from_word(word.as_str()),
            None => None,
        },
        None => None,
    };
    let corner: Option<CornerPreference> = match table_item(table, "corner") {
        Some(item) => match item_choice(item) {
            Some(word) => corner_from_word(word.as_str()),
            None => None,
        },
        None => None,
    };
    let theme: ThemeMode = match theme {
        Some(theme) => theme,
        None => {
            return Err(ConfigError::Theme);
        },
    };
    let corner: CornerPreference = match corner {
        Some(corner) => corner,
        None => {
            return Err(ConfigError::Corner);
        },
    };
    let show_badge_title: bool = match item_switch(table_item(table, "show_badge_title")) {
        Some(on) => on,
        None => {
            return Err(ConfigError::ShowBadgeTitle);
        },
    };
    let badge_always_top: bool = match item_switch(table_item(table, "badge_always_top")) {
        Some(on) => on,
        None => {
            return Err(ConfigError::BadgeAlwaysTop);
        },
    };
    let show_balloon: bool = match item_switch(table_item(table, "show_balloon")) {
        Some(on) => on,
        None => {
            return Err(ConfigError::ShowBalloon);
        },
    };
    Ok(Settings { theme, corner, show_badge_title, badge_always_top, show_balloon })
}

/// Reads preferences from the text of a configuration file.
pub fn parse_str(content: &str) -> (s: Result<Settings, ConfigError>)
    ensures
        s == settings_read(content@),
{
    if skip_document(content).is_err() {
        return Err(ConfigError::Syntax);
    }
    match read_document(content) {
        Ok(table) => read_settings(&table),
        Err(_) => Err(ConfigError::Syntax),
    }
}

/// Reads preferences from the text of a configuration file, and falls back to
/// the defaults when it holds none.
pub fn parse_or_default(content: &str) -> (s: Settings)
    ensures
        s == settings_read_or_default(content@),
{
    match parse_str(content) {
        Ok(s) => s,
        Err(_) => Settings::default(),
    }
}

/// The preferences to start with. `primary` is the text of the configuration
/// file, if it could be read, and `legacy` that of the file at the old place;
/// the latter counts only when `read_through` allows it.
pub fn load(primary: Option<&str>, read_through: bool, legacy: Option<&str>) -> (s: Settings)
    ensures
        s == (match primary {
            Some(content) => settings_read_or_default(content@),
            None => match legacy {
                Some(content) => if read_through {
                    settings_read_or_default(content@)
                } else {
                    default_settings()
                },
                None => default_settings(),
            },
        }),
{
    match primary {
        Some(content) => parse_or_default(content),
        None => match legacy {
            Some(content) => {
                if read_through {
                    parse_or_default(content)
                } else {
                    Settings::default()
                }
            },
            None => Settings::default(),
        },
    }
}

proof fn lemma_entries_plain(s: Settings)
    ensures
        document::is_plain(settings_entries(s)),
        settings_of(settings_entries(s)) == Ok::<Settings, ConfigError>(s),
        forall|n: int, k: int|
            0 <= n <= k < 5 ==> document::entry_of(
                #[trigger] settings_entries(s).take(n),
                (#[trigger] settings_entries(s)[k]).0,
            ) is None,
{
    reveal_strlit("theme");
    reveal_strlit("corner");
    reveal_strlit("show_badge_title");
    reveal_strlit("badge_always_top");
    reveal_strlit("show_balloon");
    reveal_strlit("System");
    reveal_strlit("Light");
    reveal_strlit("Dark");
    reveal_strlit("Default");
    reveal_strlit("Round");
    reveal_strlit("SmallRound");
    let e = settings_entries(s);
    assert("theme"@.len() == 5 && "corner"@.len() == 6 && "show_badge_title"@.len() == 16
        && "badge_always_top"@.len() == 16 && "show_balloon"@.len() == 12);
    assert("show_badge_title"@[0] != "badge_always_top"@[0]);
    assert("System"@[0] != "Light"@[0]);
    assert("Default"@.len() == 7 && "Round"@.len() == 5 && "SmallRound"@.len() == 10);
    assert("Light"@.len() == 5 && "Dark"@.len() == 4 && "System"@.len() == 6);
    reveal_with_fuel(document::entry_of, 6);
    assert(e.drop_last() =~= e.take(4));
    assert(e.take(4).drop_last() =~= e.take(3));
    assert(e.take(3).drop_last() =~= e.take(2));
    assert(e.take(2).drop_last() =~= e.take(1));
    assert(e.take(1).drop_last() =~= e.take(0));
    assert(e.take(0).len() == 0);
    assert forall|i: int| 0 <= i < e.len() implies document::is_plain_key((#[trigger] e[i]).0)
        && document::is_plain_item(e[i].1) by {
    }
    assert forall|n: int, k: int| 0 <= n <= k < 5 implies document::entry_of(
        #[trigger] e.take(n),
        (#[trigger] e[k]).0,
    ) is None by {
    }
}

proof fn lemma_entries_text(s: Settings)
    ensures
        document::document_text(settings_entries(s)) == settings_text(s),
{
    let e = settings_entries(s);
    assert(e.drop_last() =~= e.take(4));
    assert(e.take(4).drop_last() =~= e.take(3));
    assert(e.take(3).drop_last() =~= e.take(2));
    assert(e.take(2).drop_last() =~= e.take(1));
    assert(e.take(1).drop_last() =~= e.take(0));
    let line0 = document::entry_line(e[0].0, e[0].1);
    assert(document::document_text(e.take(0)) =~= Seq::empty());
    assert(document::document_text(e.take(1)) =~= line0);
    assert(document::document_text(e.take(2)) == line0 + document::entry_line(e[1].0, e[1].1));
    assert(document::document_text(e.take(3)) == document::document_text(e.take(2))
        + document::entry_line(e[2].0, e[2].1));
    assert(document::document_text(e.take(4)) == document::document_text(e.take(3))
        + document::entry_line(e[3].0, e[3].1));
}

impl Settings {
    /// The text of a configuration file with these preferences, a line for each.
    /// Reading it gives the preferences again.
    pub fn to_toml(&self) -> (content: Result<String, ConfigError>)
        ensures
            content is Ok,
            content->Ok_0@ == settings_text(*self),
            settings_read(content->Ok_0@) == Ok::<Settings, ConfigError>(*self),
    {
        let mut table = new_table();
        let ghost e = settings_entries(*self);
        proof {
            lemma_entries_plain(*self);
            lemma_entries_text(*self);
            assert(e.take(0) =~= Seq::empty());
            assert(e.take(1) =~= e.take(0).push(e[0]));
            assert(e.take(2) =~= e.take(1).push(e[1]));
            assert(e.take(3) =~= e.take(2).push(e[2]));
            assert(e.take(4) =~= e.take(3).push(e[3]));
            assert(e =~= e.take(4).push(e[4]));
        }
        let theme: String = owned(
            match self.theme {
                ThemeMode::System => "System",
                ThemeMode::Light => "Light",
                ThemeMode::Dark => "Dark",
            },
        );
        let corner: String = owned(
            match self.corner {
                CornerPreference::Default => "Default",
                CornerPreference::Round => "Round",
                CornerPreference::SmallRound => "SmallRound",
            },
        );
        table_insert(&mut table, "theme", Scalar::Text(theme));
        table_insert(&mut table, "corner", Scalar::Text(corner));
        table_insert(&mut table, "show_badge_title", Scalar::Flag(self.show_badge_title));
        table_insert(&mut table, "badge_always_top", Scalar::Flag(self.badge_always_top));
        table_insert(&mut table, "show_balloon", Scalar::Flag(self.show_balloon));
        match write_document(&table) {
            Ok(content) => Ok(content),
            Err(_) => Err(ConfigError::Syntax),
        }
    }
}

/// Reading preferences takes every one from the entry of its own name: a switch is
/// as written, and on where nothing is written; theme and corner shape are what the
/// words say. What other entries there are does not matter.
pub proof fn preferences_are_read_by_name(entries: document::Entries, s: Settings)
    requires
        settings_of(entries) == Ok::<Settings, ConfigError>(s),
    ensures
        document::entry_of(entries, "show_badge_title"@) == (if s.show_badge_title
            && document::entry_of(entries, "show_badge_title"@) is None {
            None
        } else {
            Some(document::ItemView::Flag(s.show_badge_title))
        }),
        document::entry_of(entries, "badge_always_top"@) == (if s.badge_always_top
            && document::entry_of(entries, "badge_always_top"@) is None {
            None
        } else {
            Some(document::ItemView::Flag(s.badge_always_top))
        }),
        document::entry_of(entries, "show_balloon"@) == (if s.show_balloon && document::entry_of(
            entries,
            "show_balloon"@,
        ) is None {
            None
        } else {
            Some(document::ItemView::Flag(s.show_balloon))
        }),
        document::entry_of(entries, "theme"@) matches Some(document::ItemView::Text(word)) ==> {
            &&& word == "Dark"@ <==> s.theme == ThemeMode::Dark
            &&& word == "Light"@ <==> s.theme == ThemeMode::Light
            &&& word == "System"@ <==> s.theme == ThemeMode::System
        },
        document::entry_of(entries, "corner"@) matches Some(document::ItemView::Text(word)) ==> {
            &&& word == "Round"@ <==> s.corner == CornerPreference::Round
            &&& word == "SmallRound"@ <==> s.corner == CornerPreference::SmallRound
            &&& word == "Default"@ <==> s.corner == CornerPreference::Default
        },
{
    reveal_strlit("Dark");
    reveal_strlit("Light");
    reveal_strlit("System");
    reveal_strlit("Round");
    reveal_strlit("SmallRound");
    reveal_strlit("Default");
    assert("Dark"@[0] != "Light"@[0] && "Dark"@[0] != "System"@[0] && "Light"@[0] != "System"@[0]);
    assert("Round"@[0] != "SmallRound"@[0] && "Round"@[0] != "Default"@[0] && "SmallRound"@[0]
        != "Default"@[0]);
}

/// A file that names a theme and a corner shape, and no switch that is neither on nor
/// off, can be read.
pub proof fn good_files_are_read(entries: document::Entries)
    requires
        document::entry_of(entries, "theme"@) == Some(document::ItemView::Text("Dark"@))
            || document::entry_of(entries, "theme"@) == Some(document::ItemView::Text("Light"@))
            || document::entry_of(entries, "theme"@) == Some(document::ItemView::Text("System"@)),
        document::entry_of(entries, "corner"@) == Some(document::ItemView::Text("Round"@))
            || document::entry_of(entries, "corner"@) == Some(
            document::ItemView::Text("SmallRound"@),
        ) || document::entry_of(entries, "corner"@) == Some(document::ItemView::Text("Default"@)),
        document::entry_of(entries, "show_badge_title"@) is None || document::entry_of(
            entries,
            "show_badge_title"@,
        )->0 is Flag,
        document::entry_of(entries, "badge_always_top"@) is None || document::entry_of(
            entries,
            "badge_always_top"@,
        )->0 is Flag,
        document::entry_of(entries, "show_balloon"@) is None || document::entry_of(
            entries,
            "show_balloon"@,
        )->0 is Flag,
    ensures
        settings_of(entries) is Ok,
{
}

/// The file at the new place decides whenever it can be read; the one at the old
/// place counts only when there is none at the new place and reading it is allowed.
/// A file that holds no preferences stands for the defaults.
pub proof fn the_new_place_comes_first(
    primary: &str,
    legacy: &str,
    read_through: bool,
    from_new: Settings,
    from_old: Settings,
    from_none: Settings,
    of_new: Settings,
    of_old: Settings,
)
    requires
        call_ensures(load, (Some(primary), read_through, Some(legacy)), from_new),
        call_ensures(load, (None, read_through, Some(legacy)), from_old),
        call_ensures(load, (None, read_through, None), from_none),
        call_ensures(parse_or_default, (primary,), of_new),
        call_ensures(parse_or_default, (legacy,), of_old),
    ensures
        from_new == of_new,
        read_through ==> from_old == of_old,
        !read_through ==> from_old == from_none,
        from_none.theme == ThemeMode::System && from_none.corner == CornerPreference::Default
            && from_none.show_badge_title && from_none.badge_always_top && from_none.show_balloon,
{
}

/// What was read is used, and what could not be read stands for the defaults.
pub proof fn unreadable_files_mean_the_defaults(
    content: &str,
    read: Result<Settings, ConfigError>,
    used: Settings,
)
    requires
        call_ensures(parse_str, (content,), read),
        call_ensures(parse_or_default, (content,), used),
    ensures
        read matches Ok(s) ==> used == s,
        read is Err ==> used.theme == ThemeMode::System && used.corner == CornerPreference::Default
            && used.show_badge_title && used.badge_always_top && used.show_balloon,
        !document::is_document(content@) ==> read is Err,
{
}

/// The command line decides about the directory, then the environment, then what
/// stands beside the program, and at last the user's application data.
pub proof fn directories_are_tried_in_order<T>(
    cli: Option<&T>,
    env: Option<&T>,
    exe_probe: Option<&T>,
    appdata: Option<&T>,
    root: Option<&T>,
)
    requires
        call_ensures(pick_config_root::<T>, (cli, env, exe_probe, appdata), root),
    ensures
        cli is Some ==> root == cli,
        cli is None && env is Some ==> root == env,
        cli is None && env is None && exe_probe is Some ==> root == exe_probe,
        cli is None && env is None && exe_probe is None ==> root == appdata,
{
}

/// A directory that is given together with its option is what stands behind the
/// equals sign, wherever it stands, as long as nothing before it names one. Without
/// either form no directory is named.
pub proof fn assigned_directory_counts(args: Seq<Option<String>>, i: int, dir: Seq<char>)
    requires
        0 <= i < args.len(),
        args[i] is Some,
        args[i]->0@ == "--config-dir="@ + dir,
        forall|k: int|
            0 <= k < i ==> !is_dir_option(#[trigger] args[k]) && !is_dir_assignment(args[k]),
    ensures
        config_dir_from(args, 0) == Some(ConfigDirView::Inline(dir)),
{
    reveal_strlit("--config-dir=");
    reveal_strlit("--config-dir");
    let s = args[i]->0@;
    let n = "--config-dir="@.len() as int;
    assert(s.subrange(0, n) =~= "--config-dir="@);
    assert(s.subrange(n, s.len() as int) =~= dir);
    assert("--config-dir"@.len() != s.len());
    lemma_skip_other_args(args, 0, i);
}

/// The old place is read when there is nothing at the new one, and the two differ.
pub proof fn old_place_is_read_once(
    exists_there: bool,
    same_path: bool,
    read: bool,
)
    requires
        call_ensures(should_read_through, (exists_there, same_path), read),
    ensures
        read <==> !exists_there && !same_path,
{
}

/// Preferences are put in place once and replaced from then on; what is in force is
/// what was put there last.
pub proof fn preferences_are_put_in_place_once(s: Settings)
    ensures
        forall|shared: &mut SharedSettings| #[trigger]
            call_ensures(set_global_settings, (shared, s), ()) ==> {
                &&& shared.value is None ==> final(shared).value == Some(s)
                &&& shared.value is Some ==> final(shared).value == shared.value
            },
        forall|shared: &mut SharedSettings| #[trigger]
            call_ensures(replace_global_settings, (shared, s), ()) ==> {
                &&& shared.value is Some ==> final(shared).value == Some(s)
                &&& shared.value is None ==> final(shared).value is None
            },
        forall|shared: &SharedSettings, now: Option<Settings>| #[trigger]
            call_ensures(global_settings, (shared,), now) ==> now == shared.value,
{
}

/// What is said here of the command line is said of the function that reads it, and
/// without either form of the option no directory is named.
pub proof fn command_line_is_read_like_this(
    args: &[Option<String>],
    dir: Option<ConfigDirArg>,
)
    requires
        call_ensures(parse_cli_config_dir, (args,), dir),
    ensures
        dir matches Some(d) ==> config_dir_from(args@, 0) == Some(d@),
        dir is None ==> config_dir_from(args@, 0) is None,
        (forall|k: int|
            0 <= k < args@.len() ==> !is_dir_option(#[trigger] args@[k]) && !is_dir_assignment(
                args@[k],
            )) ==> dir is None,
{
    if forall|k: int|
        0 <= k < args@.len() ==> !is_dir_option(#[trigger] args@[k]) && !is_dir_assignment(
            args@[k],
        ) {
        if args@.len() > 0 {
            lemma_skip_other_args(args@, 0, args@.len() - 1);
            assert(config_dir_from(args@, args@.len() as int) is None);
        }
    }
}

/// A choice that is written as a table with one empty entry is the same choice.
pub proof fn choices_can_be_tables(word: Seq<char>)
    ensures
        choice_of(
            document::ItemView::Nested(seq![(word, document::ItemView::Nested(Seq::empty()))]),
        ) == choice_of(document::ItemView::Text(word)),
        choice_of(document::ItemView::Nested(seq![(word, document::ItemView::List(0))]))
            == choice_of(document::ItemView::Text(word)),
        choice_of(document::ItemView::Nested(Seq::empty())) is None,
        choice_of(document::ItemView::Flag(true)) is None,
        choice_of(document::ItemView::Integer) is None,
{
}

/// What is written of preferences is a line for each, by its own name.
pub proof fn preferences_are_written_by_name(s: Settings, written: Result<String, ConfigError>)
    requires
        call_ensures(Settings::to_toml, (&s,), written),
    ensures
        written is Ok,
        written->Ok_0@ == document::entry_line("theme"@, document::ItemView::Text(theme_word(s.theme)))
            + document::entry_line(
            "corner"@,
            document::ItemView::Text(corner_word(s.corner)),
        ) + document::entry_line("show_badge_title"@, document::ItemView::Flag(s.show_badge_title))
            + document::entry_line(
            "badge_always_top"@,
            document::ItemView::Flag(s.badge_always_top),
        ) + document::entry_line("show_balloon"@, document::ItemView::Flag(s.show_balloon)),
        settings_read(written->Ok_0@) == Ok::<Settings, ConfigError>(s),
{
}

/// An argument that is no text is neither form of the option, and no argument is both.
pub proof fn options_are_texts(arg: Option<String>)
    ensures
        arg is None ==> !is_dir_option(arg) && !is_dir_assignment(arg),
        !(is_dir_option(arg) && is_dir_assignment(arg)),
{
    reveal_strlit("--config-dir");
    reveal_strlit("--config-dir=");
}

/// The choices read as what they choose, and what was never set is as the system has
/// it, with everything switched on.
pub proof fn choices_read_as_what_they_choose(
    theme: ThemeMode,
    theme_text: &'static str,
    corner: CornerPreference,
    corner_text: &'static str,
    s: Settings,
    on: bool,
)
    requires
        call_ensures(ThemeMode::label_cn, (&theme,), theme_text),
        call_ensures(CornerPreference::label_cn, (&corner,), corner_text),
        call_ensures(Settings::default, (), s),
        call_ensures(default_true, (), on),
    ensures
        theme_text@[0] == '跟' <==> theme == ThemeMode::System,
        theme_text@[0] == '浅' <==> theme == ThemeMode::Light,
        theme_text@[0] == '深' <==> theme == ThemeMode::Dark,
        corner_text@[0] == '默' <==> corner == CornerPreference::Default,
        corner_text@[0] == '圆' <==> corner == CornerPreference::Round,
        corner_text@[0] == '小' <==> corner == CornerPreference::SmallRound,
        s.theme == ThemeMode::System && s.corner == CornerPreference::Default,
        s.show_badge_title == on && s.badge_always_top == on && s.show_balloon == on,
        on,
{
    reveal_strlit("跟随系统");
    reveal_strlit("浅色");
    reveal_strlit("深色");
    reveal_strlit("默认");
    reveal_strlit("圆角");
    reveal_strlit("小圆角");
}

} // verus!
