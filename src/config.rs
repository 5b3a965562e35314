//! Settings records and the values used when nothing has been saved yet.
use vstd::prelude::*;

verus! {

/// A countdown towards an absolute instant, written as an ISO 8601
/// date-time with an offset, shown under a display name.
pub struct CustomCountdown {
    pub target: String,
    pub name: String,
}

/// How the countdown widget is configured.
pub struct CountdownConfig {
    /// Time of day at which work ends, as `HH:MM`.
    pub work_end_time: String,
    pub enable_work_end_countdown: bool,
    pub final_countdown_minutes: i32,
    pub end_state_keep_minutes: i32,
    /// `single` or `double` rest days a week.
    pub work_days: String,
    pub show_seconds: bool,
    /// `current`, `workEnd` or `custom`.
    pub time_display_mode: String,
    pub custom_countdown: CustomCountdown,
}

/// The configuration used before any has been saved.
pub fn get_default_countdown_config() -> (r: CountdownConfig)
    ensures
        r.work_end_time@ == Seq::<char>::empty(),
        !r.enable_work_end_countdown,
        r.final_countdown_minutes == 1,
        r.end_state_keep_minutes == 5,
        r.work_days@ == "double"@,
        r.show_seconds,
        r.time_display_mode@ == "current"@,
        r.custom_countdown.target@ == Seq::<char>::empty(),
        r.custom_countdown.name@ == Seq::<char>::empty(),
{
    CountdownConfig {
        work_end_time: String::new(),
        enable_work_end_countdown: false,
        final_countdown_minutes: 1,
        end_state_keep_minutes: 5,
        work_days: String::from_str("double"),
        show_seconds: true,
        time_display_mode: String::from_str("current"),
        custom_countdown: CustomCountdown { target: String::new(), name: String::new() },
    }
}


/// Where the assistant's model is reached.
pub struct AISettings {
    pub api_key: String,
    pub base_url: String,
    pub model: String,
}

/// Key combinations of the global shortcuts, such as `Alt+G`.
pub struct ShortcutSettings {
    pub toggle_window: String,
    pub quick_add_todo: String,
}

/// Display colour of each priority level, as (level key, CSS colour)
/// pairs with distinct keys.
pub struct TodoColorSettings {
    pub colors: Vec<(String, String)>,
}

/// The AI settings used before any have been saved.
pub fn get_default_ai_settings() -> (r: AISettings)
    ensures
        r.api_key@ == Seq::<char>::empty(),
        r.base_url@ == "https://api.openai.com/v1"@,
        r.model@ == "gpt-3.5-turbo"@,
{
    AISettings {
        api_key: String::new(),
        base_url: String::from_str("https://api.openai.com/v1"),
        model: String::from_str("gpt-3.5-turbo"),
    }
}

/// The shortcuts used before any have been saved.
pub fn get_default_shortcut_settings() -> (r: ShortcutSettings)
    ensures
        r.toggle_window@ == "Alt+G"@,
        r.quick_add_todo@ == "Alt+N"@,
{
    ShortcutSettings {
        toggle_window: String::from_str("Alt+G"),
        quick_add_todo: String::from_str("Alt+N"),
    }
}

/// Views of (key, value) text pairs.
pub open spec fn pair_views(s: Seq<(String, String)>) -> Seq<(Seq<char>, Seq<char>)> {
    s.map_values(|p: (String, String)| (p.0@, p.1@))
}

/// The level colours used before any have been saved, as (level key, colour).
pub open spec fn default_colors() -> Seq<(Seq<char>, Seq<char>)> {
    seq![
        ("level-important-urgent"@, "#ff4757"@),
        ("level-important-not-urgent"@, "#ffa726"@),
        ("level-not-important-urgent"@, "#ffca28"@),
        ("level-not-important-not-urgent"@, "#66bb6a"@),
        ("level-uncategorized"@, "#bdbdbd"@),
    ]
}

/// The level colours used before any have been saved.
pub fn get_default_todo_color_settings() -> (r: TodoColorSettings)
    ensures
        pair_views(r.colors@) == default_colors(),
{
    let mut colors: Vec<(String, String)> = Vec::new();
    colors.push((String::from_str("level-important-urgent"), String::from_str("#ff4757")));
    colors.push((String::from_str("level-important-not-urgent"), String::from_str("#ffa726")));
    colors.push((String::from_str("level-not-important-urgent"), String::from_str("#ffca28")));
    colors.push(
        (String::from_str("level-not-important-not-urgent"), String::from_str("#66bb6a")),
    );
    colors.push((String::from_str("level-uncategorized"), String::from_str("#bdbdbd")));
    assert(pair_views(colors@) =~= default_colors());
    TodoColorSettings { colors }
}

/// What a settings table yields when read: its newest row, or `default`
/// where it is empty.
pub open spec fn loaded<T>(rows: Seq<T>, default: T) -> T {
    if rows.len() == 0 {
        default
    } else {
        rows.last()
    }
}

/// The rows of a settings table after saving `value`: every earlier row is
/// removed and `value` is the only one.
pub open spec fn saved<T>(rows: Seq<T>, value: T) -> Seq<T> {
    seq![value]
}

/// A table of one kind of settings, oldest row first. Saving replaces the
/// whole table; reading takes the newest row.
pub struct SettingsTable<T> {
    pub rows: Vec<T>,
}

impl<T> SettingsTable<T> {
    /// A table that holds `rows`, oldest first.
    pub fn from_rows(rows: Vec<T>) -> (r: SettingsTable<T>)
        ensures
            r.rows@ == rows@,
    {
        SettingsTable { rows }
    }

    /// Replaces every row by `value`.
    pub fn save(&mut self, value: T)
        ensures
            final(self).rows@ == saved(old(self).rows@, value),
    {
        self.rows.clear();
        self.rows.push(value);
        assert(self.rows@ =~= seq![value]);
    }

    /// The newest row, or `default` where the table is empty.
    pub fn load<'a>(&'a self, default: &'a T) -> (r: &'a T)
        ensures
            *r == loaded(self.rows@, *default),
    {
        let n = self.rows.len();
        if n == 0 {
            default
        } else {
            &self.rows[n - 1]
        }
    }
}

/// Saving a value and reading the table back yields that value, whatever
/// the table held and whatever the default.
pub proof fn lemma_save_then_load<T>(rows: Seq<T>, value: T, default: T)
    ensures
        loaded(saved(rows, value), default) == value,
{
}

/// Saving twice leaves exactly one row, the second value.
pub proof fn lemma_save_twice<T>(rows: Seq<T>, first: T, second: T)
    ensures
        saved(saved(rows, first), second).len() == 1,
        saved(saved(rows, first), second)[0] == second,
{
}

/// Whether the keys of (key, value) pairs are distinct.
pub open spec fn keys_distinct(s: Seq<(String, String)>) -> bool {
    forall|i: int, j: int| 0 <= i < j < s.len() ==> (#[trigger] s[i]).0@ != (#[trigger] s[j]).0@
}

fn copy_pairs(s: &Vec<(String, String)>) -> (r: Vec<(String, String)>)
    ensures
        r@ == s@,
{
    let mut out: Vec<(String, String)> = Vec::new();
    let mut i: usize = 0;
    while i < s.len()
        invariant
            i <= s@.len(),
            out@ == s@.take(i as int),
        decreases s@.len() - i,
    {
        let p = &s[i];
        out.push((p.0.clone(), p.1.clone()));
        assert(out@ =~= s@.take(i + 1));
        i = i + 1;
    }
    assert(s@.take(s@.len() as int) =~= s@);
    out
}

/// What the colour table yields when read, as pairs of views: its rows, or
/// the default colours where it is empty.
pub open spec fn loaded_colors(rows: Seq<(String, String)>) -> Seq<(Seq<char>, Seq<char>)> {
    if rows.len() == 0 {
        default_colors()
    } else {
        pair_views(rows)
    }
}

/// Saving a non-empty set of colours and reading the table back yields
/// those colours. (An empty set reads back as the default colours.)
pub proof fn lemma_colors_round_trip(colors: Seq<(String, String)>)
    requires
        colors.len() > 0,
    ensures
        loaded_colors(colors) == pair_views(colors),
{
}

/// The level colours: one row per level key, replaced as a set.
pub struct ColorTable {
    pub rows: Vec<(String, String)>,
}

impl ColorTable {
    /// A table that holds `rows`.
    pub fn from_rows(rows: Vec<(String, String)>) -> (r: ColorTable)
        ensures
            r.rows@ == rows@,
    {
        ColorTable { rows }
    }

    /// Replaces every row by the pairs of `colors`.
    pub fn save(&mut self, colors: Vec<(String, String)>)
        requires
            keys_distinct(colors@),
        ensures
            final(self).rows@ == colors@,
    {
        self.rows = colors;
    }

    /// The stored colours, or the default ones where none are stored.
    pub fn load(&self) -> (r: Vec<(String, String)>)
        ensures
            pair_views(r@) == loaded_colors(self.rows@),
            self.rows@.len() > 0 ==> r@ == self.rows@,
            self.rows@.len() == 0 ==> pair_views(r@) == default_colors(),
    {
        if self.rows.len() == 0 {
            get_default_todo_color_settings().colors
        } else {
            copy_pairs(&self.rows)
        }
    }
}

} // verus!
