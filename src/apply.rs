use vstd::prelude::*;
use vstd::string::StringExecFns;
use crate::structs::{App, ThemeMappingType, ThemeError, strs, lookup};
use crate::resolve::{resolution, resolve_error, mapping_view, resolve_targets, find_theme};
use crate::rewrite::{
    CompiledRule, all_compile, all_wf, compile_failure, compile_rules, expand_placeholder, rewrite_contents,
    literal_replaced, rewritten, rules_of,
};

verus! {

/// How an application takes a theme.
#[derive(Debug, PartialEq, Eq, Structural)]
pub enum AppKind {
    /// Its files are rewritten by its rules.
    FileRewrite,
    /// Its command recolours the folder icons.
    FolderIcon,
}

/// The name of the application whose command recolours folder icons.
pub open spec fn folder_icon_name() -> Seq<char> {
    "folder_icon"@
}

/// Decides how `app` takes a theme: an application without a command has
/// its files rewritten; one with a command must be the folder icon one.
pub fn app_kind(app: &App) -> (r: Result<AppKind, ThemeError>)
    ensures
        app.config.command is None ==> r == Ok::<AppKind, ThemeError>(AppKind::FileRewrite),
        app.config.command is Some && app.name@ == folder_icon_name() ==> r == Ok::<
            AppKind,
            ThemeError,
        >(AppKind::FolderIcon),
        app.config.command is Some && app.name@ != folder_icon_name() ==> (r matches Err(
            ThemeError::UnknownCommandApp { name: n },
        ) && n@ == app.name@),
{
    if app.config.command.is_none() {
        return Ok(AppKind::FileRewrite);
    }
    let folder = String::from_str("folder_icon");
    if app.name == folder {
        Ok(AppKind::FolderIcon)
    } else {
        Err(ThemeError::UnknownCommandApp { name: app.name.clone() })
    }
}

/// The token in a file path that stands for the current user's name.
pub open spec fn user_token() -> Seq<char> {
    "$USER"@
}

/// What one application needs to rewrite its files for one theme: the
/// expanded paths, the compiled rules and the value of each rule.
pub struct FilePlan {
    pub paths: Vec<String>,
    pub rules: Vec<CompiledRule>,
    pub values: Vec<String>,
}

impl FilePlan {
    pub open spec fn wf(&self) -> bool {
        &&& self.values@.len() == self.rules@.len()
        &&& all_wf(self.rules@)
    }

    /// The new contents of a file that held `contents`.
    pub fn rewrite(&self, contents: &String) -> (r: String)
        requires
            self.wf(),
        ensures
            r@ == rewritten(rules_of(self.rules@), strs(self.values@), contents@),
    {
        rewrite_contents(&self.rules, &self.values, contents)
    }
}

/// Each path with the user token replaced by `user`.
pub open spec fn expanded_paths(paths: Seq<String>, user: Seq<char>) -> Seq<Seq<char>> {
    Seq::new(paths.len(), |i: int| literal_replaced(paths[i]@, user_token(), user))
}

/// Replaces the user token in a file path by `user`.
pub fn expand_user(path: &String, user: &String) -> (r: String)
    ensures
        r@ == literal_replaced(path@, user_token(), user@),
{
    let token = String::from_str("$USER");
    proof {
        reveal_strlit("$USER");
    }
    expand_placeholder(path, &token, user)
}

/// Prepares the rewrite of an application's files for `theme`: the paths
/// and the rules must be present, every pattern must compile, and the
/// mapping must give the theme one value per rule.
pub fn prepare_app_theme(app: &App, theme: &String, user: &String) -> (r: Result<FilePlan, ThemeError>)
    ensures
        app.config.paths is None ==> (r matches Err(ThemeError::MissingField { field: f }) && f@
            == "paths"@),
        app.config.paths is Some && app.config.regex is None ==> (r matches Err(
            ThemeError::MissingField { field: f },
        ) && f@ == "regex"@),
        app.config.paths is Some && app.config.regex is Some && !all_compile(
            app.config.regex->Some_0@,
        ) ==> r is Err && compile_failure(app.config.regex->Some_0@, r->Err_0),
        app.config.paths is Some && app.config.regex is Some && all_compile(
            app.config.regex->Some_0@,
        ) && resolution(
            mapping_view(&app.config.theme_mapping),
            theme@,
            app.config.regex->Some_0@.len(),
        ) is None ==> r is Err && resolve_error(
            mapping_view(&app.config.theme_mapping),
            theme@,
            app.config.regex->Some_0@.len(),
            r->Err_0,
        ),
        r is Ok <==> (app.config.paths is Some && app.config.regex is Some && all_compile(
            app.config.regex->Some_0@,
        ) && resolution(
            mapping_view(&app.config.theme_mapping),
            theme@,
            app.config.regex->Some_0@.len(),
        ) is Some),
        r is Ok ==> {
            let plan = r->Ok_0;
            &&& plan.wf()
            &&& strs(plan.paths@) == expanded_paths(app.config.paths->Some_0@, user@)
            &&& rules_of(plan.rules@) == app.config.regex->Some_0@
            &&& Some(strs(plan.values@)) == resolution(
                mapping_view(&app.config.theme_mapping),
                theme@,
                app.config.regex->Some_0@.len(),
            )
        },
{
    let paths = match &app.config.paths {
        None => {
            return Err(ThemeError::MissingField { field: String::from_str("paths") });
        },
        Some(p) => p,
    };
    let regexes = match &app.config.regex {
        None => {
            return Err(ThemeError::MissingField { field: String::from_str("regex") });
        },
        Some(r) => r,
    };
    let rules = match compile_rules(regexes) {
        Err(e) => {
            return Err(e);
        },
        Ok(c) => c,
    };
    let values = match resolve_targets(&app.config.theme_mapping, theme, regexes.len()) {
        Err(e) => {
            return Err(e);
        },
        Ok(v) => v,
    };
    let mut expanded: Vec<String> = Vec::new();
    let mut i: usize = 0;
    while i < paths.len()
        invariant
            i <= paths@.len(),
            expanded@.len() == i,
            forall|j: int|
                0 <= j < i ==> (#[trigger] expanded@[j])@ == literal_replaced(
                    paths@[j]@,
                    user_token(),
                    user@,
                ),
        decreases paths.len() - i,
    {
        expanded.push(expand_user(&paths[i], user));
        i = i + 1;
    }
    assert(strs(expanded@) =~= expanded_paths(paths@, user@));
    assert(strs(values@).len() == values@.len());
    assert(values@.len() == regexes@.len());
    assert(rules_of(rules@).len() == rules@.len());
    Ok(FilePlan { paths: expanded, rules, values })
}

/// The shell command that recolours folder icons for `theme`: the
/// application's command with its key replaced by the theme's single value.
pub fn folder_icon_command(app: &App, theme: &String) -> (r: Result<String, ThemeError>)
    ensures
        match app.config.theme_mapping {
            None => r matches Err(ThemeError::MissingField { field: f }) && f@ == "theme_mapping"@,
            Some(m) => match lookup(m@, theme@) {
                None => r matches Err(ThemeError::UnmappedTheme { theme: t }) && t@ == theme@,
                Some(ThemeMappingType::Arr(_)) => r matches Err(ThemeError::ScalarExpected { theme: t })
                    && t@ == theme@,
                Some(ThemeMappingType::Str(s)) => match (app.config.command, app.config.key) {
                    (None, _) => r matches Err(ThemeError::MissingField { field: f }) && f@
                        == "command"@,
                    (Some(_), None) => r matches Err(ThemeError::MissingField { field: f }) && f@
                        == "key"@,
                    (Some(c), Some(k)) => r is Ok && r->Ok_0@ == literal_replaced(c@, k@, s@),
                },
            },
        },
{
    let mapping = match &app.config.theme_mapping {
        None => {
            return Err(ThemeError::MissingField { field: String::from_str("theme_mapping") });
        },
        Some(m) => m,
    };
    let value = match find_theme(mapping, theme) {
        None => {
            return Err(ThemeError::UnmappedTheme { theme: theme.clone() });
        },
        Some(ThemeMappingType::Arr(_)) => {
            return Err(ThemeError::ScalarExpected { theme: theme.clone() });
        },
        Some(ThemeMappingType::Str(s)) => s,
    };
    match (&app.config.command, &app.config.key) {
        (None, _) => Err(ThemeError::MissingField { field: String::from_str("command") }),
        (Some(_), None) => Err(ThemeError::MissingField { field: String::from_str("key") }),
        (Some(c), Some(k)) => Ok(expand_placeholder(c, k, value)),
    }
}

/// The strings of `s` with `sep` between each two neighbours.
pub open spec fn joined(s: Seq<Seq<char>>, sep: Seq<char>) -> Seq<char>
    decreases s.len(),
{
    if s.len() == 0 {
        Seq::empty()
    } else if s.len() == 1 {
        s[0]
    } else {
        joined(s.drop_last(), sep) + sep + s.last()
    }
}

/// The shell command that shows the wallpapers, one per screen.
pub fn wallpaper_command(wallpapers: &Vec<String>) -> (r: String)
    ensures
        r@ == "feh --bg-fill -z "@ + joined(strs(wallpapers@), " "@) + "*"@,
{
    let mut list = String::new();
    let mut i: usize = 0;
    while i < wallpapers.len()
        invariant
            i <= wallpapers@.len(),
            list@ == joined(strs(wallpapers@).take(i as int), " "@),
        decreases wallpapers.len() - i,
    {
        assert(strs(wallpapers@).take(i + 1).drop_last() =~= strs(wallpapers@).take(i as int));
        if i > 0 {
            list.append(" ");
        }
        list.append(wallpapers[i].as_str());
        proof {
            if i == 0 {
                assert(list@ =~= strs(wallpapers@).take(1)[0]);
            }
        }
        i = i + 1;
    }
    assert(strs(wallpapers@).take(wallpapers@.len() as int) =~= strs(wallpapers@));
    let mut cmd = String::from_str("feh --bg-fill -z ");
    cmd.append(list.as_str());
    cmd.append("*");
    cmd
}

} // verus!
