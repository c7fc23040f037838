use theme_switcher::apply::{app_kind, expand_user, AppKind, folder_icon_command, prepare_app_theme, wallpaper_command};
use theme_switcher::resolve::resolve_targets;
use theme_switcher::rewrite::{compile_rules, expand_placeholder, rewrite_contents};
use theme_switcher::select::{select_theme, SelectError, Selection};
use theme_switcher::structs::{App, Config, Regex, ThemeError, ThemeMappingType};

fn s(x: &str) -> String {
    x.to_string()
}

fn rule(expression: &str, target: &str, key: &str) -> Regex {
    Regex { expression: s(expression), target: s(target), key: s(key) }
}

fn strs(v: &[&str]) -> Vec<String> {
    v.iter().map(|x| s(x)).collect()
}

fn rewrite(rules: Vec<Regex>, values: &[&str], text: &str) -> String {
    let compiled = compile_rules(&rules).unwrap();
    rewrite_contents(&compiled, &strs(values), &s(text))
}

fn file_app(name: &str, paths: &[&str], rules: Vec<Regex>, mapping: Option<Vec<(String, ThemeMappingType)>>) -> App {
    App {
        name: s(name),
        config: Config {
            paths: Some(strs(paths)),
            regex: Some(rules),
            theme_mapping: mapping,
            command: None,
            key: None,
        },
    }
}

#[test]
fn rewrite_is_deterministic() {
    let rules = vec![rule("color=\\w+", "color={C}", "{C}"), rule("size=\\d+", "size=12", "{C}")];
    let first = rewrite(rules, &["red", "red"], "color=blue\nsize=10");
    let rules = vec![rule("color=\\w+", "color={C}", "{C}"), rule("size=\\d+", "size=12", "{C}")];
    let second = rewrite(rules, &["red", "red"], "color=blue\nsize=10");
    assert_eq!(first, "color=red\nsize=12");
    assert_eq!(first, second);
}

#[test]
fn rule_order_matters() {
    let forward = rewrite(vec![rule("a", "b", "{X}"), rule("b", "c", "{X}")], &["v", "v"], "a");
    assert_eq!(forward, "c");
    let backward = rewrite(vec![rule("b", "c", "{X}"), rule("a", "b", "{X}")], &["v", "v"], "a");
    assert_eq!(backward, "b");
}

#[test]
fn every_match_is_replaced() {
    assert_eq!(rewrite(vec![rule("a", "{X}", "{X}")], &["z"], "a-a-a"), "z-z-z");
}

#[test]
fn no_rules_keep_the_text() {
    assert_eq!(rewrite(vec![], &[], "unchanged"), "unchanged");
}

#[test]
fn broadcast_without_mapping() {
    let r = resolve_targets(&None, &s("dark"), 3).unwrap();
    assert_eq!(r, strs(&["dark", "dark", "dark"]));
}

#[test]
fn scalar_mapping_broadcast() {
    let m = Some(vec![(s("dark"), ThemeMappingType::Str(s("black")))]);
    let r = resolve_targets(&m, &s("dark"), 2).unwrap();
    assert_eq!(r, strs(&["black", "black"]));
}

#[test]
fn sequence_mapping_positional() {
    let m = Some(vec![
        (s("light"), ThemeMappingType::Arr(strs(&["#fff", "#eee"]))),
        (s("dark"), ThemeMappingType::Arr(strs(&["#000", "#111"]))),
    ]);
    let r = resolve_targets(&m, &s("dark"), 2).unwrap();
    assert_eq!(r, strs(&["#000", "#111"]));
}

#[test]
fn shape_mismatch_rejected() {
    let m = Some(vec![(s("dark"), ThemeMappingType::Arr(strs(&["#000"])))]);
    let r = resolve_targets(&m, &s("dark"), 2);
    assert!(matches!(r, Err(ThemeError::MappingShape { expected: 2, found: 1 })));
}

#[test]
fn unmapped_theme_rejected() {
    let m = Some(vec![(s("dark"), ThemeMappingType::Str(s("black")))]);
    match resolve_targets(&m, &s("light"), 1) {
        Err(ThemeError::UnmappedTheme { theme }) => assert_eq!(theme, "light"),
        other => panic!("unexpected {:?}", other),
    }
}

#[test]
fn reapply_is_a_no_op() {
    let rules = vec![rule("theme = \"\\w+\"", "theme = \"{T}\"", "{T}")];
    let once = rewrite(rules, &["nord"], "font = 11\ntheme = \"gruvbox\"\n");
    let rules = vec![rule("theme = \"\\w+\"", "theme = \"{T}\"", "{T}")];
    let twice = rewrite(rules, &["nord"], &once);
    assert_eq!(once, "font = 11\ntheme = \"nord\"\n");
    assert_eq!(twice, once);
}

#[test]
fn terminal_end_to_end() {
    let app = file_app(
        "terminal",
        &["/home/$USER/.config/term.conf"],
        vec![rule("background=.*", "background={X}", "{X}")],
        Some(vec![(s("dark"), ThemeMappingType::Str(s("#000")))]),
    );
    let plan = match prepare_app_theme(&app, &s("dark"), &s("alice")) {
        Ok(p) => p,
        Err(e) => panic!("unexpected {:?}", e),
    };
    assert_eq!(plan.paths, strs(&["/home/alice/.config/term.conf"]));
    assert_eq!(plan.rewrite(&s("background=#fff\nfoo=bar")), "background=#000\nfoo=bar");
}

#[test]
fn invalid_pattern_is_a_compile_error() {
    match compile_rules(&vec![rule("ok", "x", "{X}"), rule("foo(bar", "x", "{X}")]) {
        Err(ThemeError::Compile { pattern, cause }) => {
            assert_eq!(pattern, "foo(bar");
            assert!(!cause.is_empty());
        }
        _ => panic!("expected a compile error"),
    }
}

#[test]
fn missing_paths_or_rules() {
    let mut app = file_app("a", &[], vec![], None);
    app.config.paths = None;
    match prepare_app_theme(&app, &s("dark"), &s("u")) {
        Err(ThemeError::MissingField { field }) => assert_eq!(field, "paths"),
        _ => panic!("expected a missing field"),
    }
    let mut app = file_app("a", &[], vec![], None);
    app.config.regex = None;
    match prepare_app_theme(&app, &s("dark"), &s("u")) {
        Err(ThemeError::MissingField { field }) => assert_eq!(field, "regex"),
        _ => panic!("expected a missing field"),
    }
}

#[test]
fn plan_fails_on_unmapped_theme() {
    let app = file_app(
        "bar",
        &["/tmp/x"],
        vec![rule("c=.*", "c={X}", "{X}")],
        Some(vec![(s("dark"), ThemeMappingType::Str(s("#000")))]),
    );
    assert!(matches!(prepare_app_theme(&app, &s("light"), &s("u")), Err(ThemeError::UnmappedTheme { .. })));
}

#[test]
fn user_token_expanded() {
    assert_eq!(expand_user(&s("/home/$USER/.bashrc"), &s("bob")), "/home/bob/.bashrc");
    assert_eq!(expand_placeholder(&s("x {C} y {C}"), &s("{C}"), &s("red")), "x red y red");
}

fn folder_app(mapping: Option<Vec<(String, ThemeMappingType)>>, command: Option<&str>, key: Option<&str>) -> App {
    App {
        name: s("folder_icon"),
        config: Config {
            paths: None,
            regex: None,
            theme_mapping: mapping,
            command: command.map(s),
            key: key.map(s),
        },
    }
}

#[test]
fn folder_icon_command_substitutes_color() {
    let app = folder_app(
        Some(vec![(s("dark"), ThemeMappingType::Str(s("grey")))]),
        Some("papirus-folders -C {color} --theme Papirus-Dark"),
        Some("{color}"),
    );
    assert_eq!(folder_icon_command(&app, &s("dark")).unwrap(), "papirus-folders -C grey --theme Papirus-Dark");
}

#[test]
fn folder_icon_command_errors() {
    let app = folder_app(Some(vec![(s("dark"), ThemeMappingType::Arr(strs(&["a"])))]), Some("c {k}"), Some("{k}"));
    assert!(matches!(folder_icon_command(&app, &s("dark")), Err(ThemeError::ScalarExpected { .. })));
    assert!(matches!(folder_icon_command(&app, &s("light")), Err(ThemeError::UnmappedTheme { .. })));
    let app = folder_app(None, Some("c {k}"), Some("{k}"));
    assert!(matches!(folder_icon_command(&app, &s("dark")), Err(ThemeError::MissingField { .. })));
    let app = folder_app(Some(vec![(s("dark"), ThemeMappingType::Str(s("x")))]), None, Some("{k}"));
    match folder_icon_command(&app, &s("dark")) {
        Err(ThemeError::MissingField { field }) => assert_eq!(field, "command"),
        other => panic!("unexpected {:?}", other),
    }
    let app = folder_app(Some(vec![(s("dark"), ThemeMappingType::Str(s("x")))]), Some("c {k}"), None);
    match folder_icon_command(&app, &s("dark")) {
        Err(ThemeError::MissingField { field }) => assert_eq!(field, "key"),
        other => panic!("unexpected {:?}", other),
    }
}

#[test]
fn wallpaper_command_joins_paths() {
    assert_eq!(wallpaper_command(&strs(&["/w/a.png", "/w/b.png"])), "feh --bg-fill -z /w/a.png /w/b.png*");
    assert_eq!(wallpaper_command(&strs(&["/w/"])), "feh --bg-fill -z /w/*");
    assert_eq!(wallpaper_command(&vec![]), "feh --bg-fill -z *");
}

#[test]
fn selection_of_a_theme() {
    assert_eq!(select_theme(&s("\n"), 3), Ok(Selection::Random));
    assert_eq!(select_theme(&s(""), 0), Err(SelectError::NoThemes));
    assert_eq!(select_theme(&s(" 2\n"), 3), Ok(Selection::Index(1)));
    assert_eq!(select_theme(&s("+1"), 3), Ok(Selection::Index(0)));
    assert_eq!(select_theme(&s("0"), 3), Err(SelectError::OutOfRange { count: 3 }));
    assert_eq!(select_theme(&s("4"), 3), Err(SelectError::OutOfRange { count: 3 }));
    assert_eq!(select_theme(&s("two"), 3), Err(SelectError::NotANumber));
    assert_eq!(select_theme(&s("-1"), 3), Err(SelectError::NotANumber));
}

#[test]
fn default_config_is_empty() {
    let c = Config::default();
    assert!(c.paths.is_none() && c.regex.is_none() && c.theme_mapping.is_none());
    assert!(c.command.is_none() && c.key.is_none());
}

#[test]
fn kind_of_each_app() {
    let files = file_app("terminal", &["/tmp/x"], vec![], None);
    assert_eq!(app_kind(&files).unwrap(), AppKind::FileRewrite);
    let folder = folder_app(None, Some("c {k}"), Some("{k}"));
    assert_eq!(app_kind(&folder).unwrap(), AppKind::FolderIcon);
    let mut other = folder_app(None, Some("c {k}"), Some("{k}"));
    other.name = s("notifier");
    match app_kind(&other) {
        Err(ThemeError::UnknownCommandApp { name }) => assert_eq!(name, "notifier"),
        r => panic!("unexpected {:?}", r),
    }
}

#[test]
fn empty_placeholder_marks_every_boundary() {
    assert_eq!(expand_placeholder(&s("ab"), &s(""), &s("-")), "-a-b-");
}

#[test]
fn unicode_white_space_is_trimmed() {
    assert_eq!(select_theme(&s("\u{3000}3\u{a0}"), 3), Ok(Selection::Index(2)));
}
