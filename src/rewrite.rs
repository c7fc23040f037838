use vstd::prelude::*;
use crate::structs::{Regex, ThemeError, strs};
use regex::Regex as Matcher;
use regex::Error as PatternError;

verus! {

/// A compiled regular expression of the `regex` crate, carried as is.
#[verifier::external_type_specification]
#[verifier::external_body]
pub struct ExCompiledPattern(Matcher);

/// Why the `regex` crate refused a pattern, carried as is.
#[verifier::external_type_specification]
#[verifier::external_body]
pub struct ExPatternError(PatternError);

/// Whether `regex::Regex::new` accepts the pattern: its syntax is valid and
/// the compiled program stays within the default size limit.
pub uninterp spec fn pattern_compiles(p: Seq<char>) -> bool;

/// The pattern a matcher was built from, as `regex::Regex::as_str` returns it.
pub uninterp spec fn regex_source(r: Matcher) -> Seq<char>;

/// What `regex::Regex::replace_all` returns for a matcher built from
/// `pattern`, on `text`, with replacement `rep`.
pub uninterp spec fn regex_replace_all(pattern: Seq<char>, text: Seq<char>, rep: Seq<char>) -> Seq<
    char,
>;

/// Whether a matcher was built by `regex::Regex::new`, with the default
/// options, rather than by a builder with options of its own.
pub uninterp spec fn built_by_new(m: Matcher) -> bool;

/// `s` with each occurrence of `from`, found left to right without overlap,
/// replaced by `to`. An empty `from` occurs before each character and at
/// the end.
pub open spec fn literal_replaced(s: Seq<char>, from: Seq<char>, to: Seq<char>) -> Seq<char>
    decreases s.len(),
{
    if from.len() == 0 {
        if s.len() == 0 {
            to
        } else {
            to + seq![s[0]] + literal_replaced(s.drop_first(), from, to)
        }
    } else if s.len() < from.len() {
        s
    } else if s.take(from.len() as int) == from {
        to + literal_replaced(s.skip(from.len() as int), from, to)
    } else {
        seq![s[0]] + literal_replaced(s.drop_first(), from, to)
    }
}

/// Relies on `regex::Regex::new`: it fails exactly on patterns it cannot
/// compile, and the matcher it builds keeps its pattern (`as_str`).
pub assume_specification[ Matcher::new ](re: &str) -> (r: Result<Matcher, PatternError>)
    ensures
        (r is Ok) == pattern_compiles(re@),
        r is Ok ==> regex_source(r->Ok_0) == re@,
        r is Ok ==> built_by_new(r->Ok_0),
;

/// Relies on `regex::Regex::replace_all`: every non-overlapping match, left
/// to right, replaced by `rep` (with its `$` group references expanded). For
/// a matcher built by `regex::Regex::new` the matches depend on its pattern
/// alone.
#[verifier::external_body]
fn replace_matches(re: &Matcher, text: &str, rep: &str) -> (r: String)
    requires
        built_by_new(*re),
    ensures
        r@ == regex_replace_all(regex_source(*re), text@, rep@),
{
    re.replace_all(text, rep).into_owned()
}

/// Relies on `regex::Error`'s `Display`: a readable account of why a
/// pattern was refused.
#[verifier::external_body]
fn describe_pattern_error(e: &PatternError) -> String {
    e.to_string()
}

/// Relies on `str::replace`: every occurrence of `from` in `s`, found from
/// the left without overlap, replaced by `to`.
#[verifier::external_body]
fn replace_literal(s: &str, from: &str, to: &str) -> (r: String)
    ensures
        r@ == literal_replaced(s@, from@, to@),
{
    s.replace(from, to)
}

/// Replaces every occurrence of `key` in `template` by `value`.
pub fn expand_placeholder(template: &String, key: &String, value: &String) -> (r: String)
    ensures
        r@ == literal_replaced(template@, key@, value@),
{
    replace_literal(template.as_str(), key.as_str(), value.as_str())
}

/// A rule together with the matcher built from its pattern. Only
/// `compile_rules` makes one.
pub struct CompiledRule {
    rule: Regex,
    matcher: Matcher,
}

impl CompiledRule {
    /// The rule.
    pub closed spec fn rule_spec(&self) -> Regex {
        self.rule
    }

    /// The matcher built from the rule's pattern.
    pub closed spec fn matcher_spec(&self) -> Matcher {
        self.matcher
    }

    /// The matcher was built by `regex::Regex::new` from the rule's own pattern.
    pub open spec fn wf(&self) -> bool {
        &&& regex_source(self.matcher_spec()) == self.rule_spec().expression@
        &&& built_by_new(self.matcher_spec())
    }

    /// The rule.
    pub fn rule(&self) -> (r: &Regex)
        ensures
            *r == self.rule_spec(),
    {
        &self.rule
    }
}

/// The rules behind a list of compiled rules.
pub open spec fn rules_of(c: Seq<CompiledRule>) -> Seq<Regex> {
    c.map_values(|r: CompiledRule| r.rule_spec())
}

/// Every rule's matcher was built from its pattern.
pub open spec fn all_wf(c: Seq<CompiledRule>) -> bool {
    forall|i: int| 0 <= i < c.len() ==> #[trigger] c[i].wf()
}

/// The text that replaces a match of `rule` when the theme gives it `value`.
pub open spec fn effective_target(rule: Regex, value: Seq<char>) -> Seq<char> {
    literal_replaced(rule.target@, rule.key@, value)
}

/// `text` after each rule in turn has replaced all its matches, rule i
/// with the target that `values[i]` gives it. Each rule sees what the
/// rules before it produced.
pub open spec fn rewritten(rules: Seq<Regex>, values: Seq<Seq<char>>, text: Seq<char>) -> Seq<char>
    decreases rules.len(),
{
    if rules.len() == 0 {
        text
    } else {
        let k = rules.len() - 1;
        regex_replace_all(
            rules[k].expression@,
            rewritten(rules.drop_last(), values.drop_last(), text),
            effective_target(rules[k], values[k]),
        )
    }
}

/// Whether every rule's pattern compiles.
pub open spec fn all_compile(rules: Seq<Regex>) -> bool {
    forall|i: int| 0 <= i < rules.len() ==> pattern_compiles(#[trigger] rules[i].expression@)
}

/// Index of the first rule whose pattern does not compile: every rule before
/// it compiles.
pub open spec fn first_failure(rules: Seq<Regex>, i: int) -> bool {
    &&& 0 <= i < rules.len()
    &&& !pattern_compiles(rules[i].expression@)
    &&& forall|j: int| 0 <= j < i ==> pattern_compiles(#[trigger] rules[j].expression@)
}

/// The error that compiling `rules` reports: it names the first pattern
/// that does not compile.
pub open spec fn compile_failure(rules: Seq<Regex>, e: ThemeError) -> bool {
    exists|i: int|
        first_failure(rules, i) && (e matches ThemeError::Compile { pattern: p, .. } && p@
            == rules[i].expression@)
}

fn copy_rule(r: &Regex) -> (c: Regex)
    ensures
        c == *r,
{
    Regex { expression: r.expression.clone(), target: r.target.clone(), key: r.key.clone() }
}

/// Builds the matcher of each rule, in order. Fails on the first rule whose
/// pattern does not compile, naming that pattern.
pub fn compile_rules(rules: &Vec<Regex>) -> (r: Result<Vec<CompiledRule>, ThemeError>)
    ensures
        (r is Ok) == all_compile(rules@),
        r is Ok ==> rules_of(r->Ok_0@) == rules@ && all_wf(r->Ok_0@),
        r is Err ==> compile_failure(rules@, r->Err_0),
{
    let mut out: Vec<CompiledRule> = Vec::new();
    let mut i: usize = 0;
    while i < rules.len()
        invariant
            i <= rules@.len(),
            out@.len() == i,
            forall|j: int| 0 <= j < i ==> (#[trigger] out@[j]).rule_spec() == rules@[j] && out@[j].wf(),
            forall|j: int| 0 <= j < i ==> pattern_compiles(#[trigger] rules@[j].expression@),
        decreases rules.len() - i,
    {
        match Matcher::new(rules[i].expression.as_str()) {
            Ok(m) => {
                out.push(CompiledRule { rule: copy_rule(&rules[i]), matcher: m });
            },
            Err(e) => {
                assert(first_failure(rules@, i as int));
                return Err(
                    ThemeError::Compile {
                        pattern: rules[i].expression.clone(),
                        cause: describe_pattern_error(&e),
                    },
                );
            },
        }
        i = i + 1;
    }
    assert(rules_of(out@) =~= rules@);
    Ok(out)
}

/// Rewrites `text` with every rule in order, rule i using `values[i]`.
pub fn rewrite_contents(rules: &Vec<CompiledRule>, values: &Vec<String>, text: &String) -> (r:
    String)
    requires
        values@.len() == rules@.len(),
        all_wf(rules@),
    ensures
        r@ == rewritten(rules_of(rules@), strs(values@), text@),
{
    let mut current: String = text.clone();
    let mut i: usize = 0;
    assert(rules_of(rules@).take(0).len() == 0);
    while i < rules.len()
        invariant
            i <= rules@.len(),
            values@.len() == rules@.len(),
            all_wf(rules@),
            current@ == rewritten(rules_of(rules@).take(i as int), strs(values@).take(i as int), text@),
        decreases rules.len() - i,
    {
        let rule = &rules[i];
        assert(rule.wf());
        let target = expand_placeholder(&rule.rule.target, &rule.rule.key, &values[i]);
        current = replace_matches(&rule.matcher, current.as_str(), target.as_str());
        assert(rules_of(rules@).take(i + 1).drop_last() =~= rules_of(rules@).take(i as int));
        assert(strs(values@).take(i + 1).drop_last() =~= strs(values@).take(i as int));
        i = i + 1;
    }
    assert(rules_of(rules@).take(rules@.len() as int) =~= rules_of(rules@));
    assert(strs(values@).take(rules@.len() as int) =~= strs(values@));
    current
}

} // verus!
