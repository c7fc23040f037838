use vstd::prelude::*;

verus! {

/// A theme: its name and the wallpapers shown with it, in order.
pub struct Theme {
    pub name: String,
    pub wallpapers: Vec<String>,
}

/// What a theme name maps to for one application: one value per rule, or a
/// single value shared by every rule.
pub enum ThemeMappingType {
    Arr(Vec<String>),
    Str(String),
}

/// One rewrite rule: every match of `expression` is replaced by `target`, in
/// which `key` has first been replaced by the theme's value for this rule.
pub struct Regex {
    pub expression: String,
    pub target: String,
    pub key: String,
}

/// The settings of one application. An application either rewrites files
/// (`paths` and `regex`) or runs a command (`command` and `key`).
/// `theme_mapping` lists theme names with their values; the first entry of a
/// name is the one that counts.
pub struct Config {
    pub paths: Option<Vec<String>>,
    pub regex: Option<Vec<Regex>>,
    pub theme_mapping: Option<Vec<(String, ThemeMappingType)>>,
    pub command: Option<String>,
    pub key: Option<String>,
}

impl Default for Config {
    fn default() -> (r: Config)
        ensures
            r.paths is None,
            r.regex is None,
            r.theme_mapping is None,
            r.command is None,
            r.key is None,
    {
        Config { paths: None, regex: None, theme_mapping: None, command: None, key: None }
    }
}

/// An application with its name and settings.
pub struct App {
    pub name: String,
    pub config: Config,
}

/// Why a theme could not be applied to an application.
#[derive(Debug)]
pub enum ThemeError {
    /// A rule's pattern is not a valid regular expression.
    Compile { pattern: String, cause: String },
    /// A field that the application's kind needs is absent.
    MissingField { field: String },
    /// A list of values does not hold exactly one value per rule.
    MappingShape { expected: usize, found: usize },
    /// The theme has no entry in the application's mapping.
    UnmappedTheme { theme: String },
    /// A command application maps the theme to a list instead of one value.
    ScalarExpected { theme: String },
    /// An application with a command that no handler knows.
    UnknownCommandApp { name: String },
}

/// The characters of each string, in order.
pub open spec fn strs(v: Seq<String>) -> Seq<Seq<char>> {
    v.map_values(|s: String| s@)
}

/// The value that the first entry named `name` gives, if any.
pub open spec fn lookup(entries: Seq<(String, ThemeMappingType)>, name: Seq<char>) -> Option<
    ThemeMappingType,
>
    decreases entries.len(),
{
    if entries.len() == 0 {
        None
    } else if entries[0].0@ == name {
        Some(entries[0].1)
    } else {
        lookup(entries.drop_first(), name)
    }
}

} // verus!
