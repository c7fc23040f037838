use vstd::prelude::*;
use crate::structs::{ThemeMappingType, ThemeError, strs, lookup};

verus! {

/// The values that `theme` gives to `n` rules, or `None` where the mapping
/// does not give exactly one value per rule or lacks the theme.
pub open spec fn resolution(
    mapping: Option<Seq<(String, ThemeMappingType)>>,
    theme: Seq<char>,
    n: nat,
) -> Option<Seq<Seq<char>>> {
    match mapping {
        None => Some(Seq::new(n, |i: int| theme)),
        Some(m) => match lookup(m, theme) {
            None => None,
            Some(ThemeMappingType::Str(s)) => Some(Seq::new(n, |i: int| s@)),
            Some(ThemeMappingType::Arr(a)) => if a@.len() == n {
                Some(strs(a@))
            } else {
                None
            },
        },
    }
}

/// The error that resolving `theme` for `n` rules reports, where the
/// resolution fails.
pub open spec fn resolve_error(
    mapping: Option<Seq<(String, ThemeMappingType)>>,
    theme: Seq<char>,
    n: nat,
    e: ThemeError,
) -> bool {
    match mapping {
        None => false,
        Some(m) => match lookup(m, theme) {
            None => e matches ThemeError::UnmappedTheme { theme: t } && t@ == theme,
            Some(ThemeMappingType::Arr(a)) => e == ThemeError::MappingShape {
                expected: n as usize,
                found: a@.len() as usize,
            },
            Some(ThemeMappingType::Str(_)) => false,
        },
    }
}

/// The view of an optional mapping.
pub open spec fn mapping_view(mapping: &Option<Vec<(String, ThemeMappingType)>>) -> Option<
    Seq<(String, ThemeMappingType)>,
> {
    match mapping {
        None => None,
        Some(m) => Some(m@),
    }
}

/// Finds the first entry of `entries` named `name`.
pub fn find_theme<'a>(entries: &'a Vec<(String, ThemeMappingType)>, name: &String) -> (r: Option<
    &'a ThemeMappingType,
>)
    ensures
        match lookup(entries@, name@) {
            None => r is None,
            Some(v) => r == Some(&v),
        },
{
    let mut i: usize = 0;
    assert(entries@.skip(0) =~= entries@);
    while i < entries.len()
        invariant
            i <= entries@.len(),
            lookup(entries@, name@) == lookup(entries@.skip(i as int), name@),
        decreases entries.len() - i,
    {
        if entries[i].0 == *name {
            return Some(&entries[i].1);
        }
        assert(entries@.skip(i as int).drop_first() =~= entries@.skip(i + 1));
        i = i + 1;
    }
    None
}

/// `n` copies of `value`.
fn repeat(value: &String, n: usize) -> (r: Vec<String>)
    ensures
        strs(r@) == Seq::new(n as nat, |i: int| value@),
{
    let mut r: Vec<String> = Vec::new();
    let mut i: usize = 0;
    while i < n
        invariant
            i <= n,
            r@.len() == i,
            forall|j: int| 0 <= j < i ==> r@[j]@ == value@,
        decreases n - i,
    {
        r.push(value.clone());
        i = i + 1;
    }
    assert(strs(r@) =~= Seq::new(n as nat, |j: int| value@));
    r
}

/// Copies a list of strings.
fn copy_all(v: &Vec<String>) -> (r: Vec<String>)
    ensures
        strs(r@) == strs(v@),
{
    let mut r: Vec<String> = Vec::new();
    let mut i: usize = 0;
    while i < v.len()
        invariant
            i <= v@.len(),
            r@.len() == i,
            forall|j: int| 0 <= j < i ==> r@[j]@ == v@[j]@,
        decreases v.len() - i,
    {
        r.push(v[i].clone());
        i = i + 1;
    }
    assert(strs(r@) =~= strs(v@));
    r
}

/// The value that `theme` gives to each of `n` rules, in rule order.
///
/// Without a mapping every rule gets the theme's name. A mapping that gives
/// the theme one value gives it to every rule; one that gives a list gives
/// its i-th value to rule i, and must hold exactly `n` values.
pub fn resolve_targets(
    mapping: &Option<Vec<(String, ThemeMappingType)>>,
    theme: &String,
    n: usize,
) -> (r: Result<Vec<String>, ThemeError>)
    ensures
        match resolution(mapping_view(mapping), theme@, n as nat) {
            Some(vals) => r is Ok && strs(r->Ok_0@) == vals,
            None => r is Err && resolve_error(mapping_view(mapping), theme@, n as nat, r->Err_0),
        },
{
    match mapping {
        None => Ok(repeat(theme, n)),
        Some(m) => match find_theme(m, theme) {
            None => Err(ThemeError::UnmappedTheme { theme: theme.clone() }),
            Some(ThemeMappingType::Str(s)) => Ok(repeat(s, n)),
            Some(ThemeMappingType::Arr(a)) => {
                if a.len() == n {
                    Ok(copy_all(a))
                } else {
                    Err(ThemeError::MappingShape { expected: n, found: a.len() })
                }
            },
        },
    }
}

} // verus!
