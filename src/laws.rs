use vstd::prelude::*;
use crate::structs::Regex;
use crate::rewrite::{CompiledRule, effective_target, regex_replace_all, rewritten, rules_of};

verus! {

/// Rewriting is a function of the rules, their values and the starting
/// text: two rule lists compiled from the same rules give the same output
/// on the same values and text.
pub proof fn lemma_rewrite_deterministic(
    a: Seq<CompiledRule>,
    b: Seq<CompiledRule>,
    values: Seq<Seq<char>>,
    text: Seq<char>,
)
    requires
        rules_of(a) == rules_of(b),
    ensures
        rewritten(rules_of(a), values, text) == rewritten(rules_of(b), values, text),
{
}

/// Rules apply in list order: a rule added at the end works on what all
/// the rules before it produced.
pub proof fn lemma_rules_apply_in_order(
    rules: Seq<Regex>,
    values: Seq<Seq<char>>,
    rule: Regex,
    value: Seq<char>,
    text: Seq<char>,
)
    requires
        values.len() == rules.len(),
    ensures
        rewritten(rules.push(rule), values.push(value), text) == regex_replace_all(
            rule.expression@,
            rewritten(rules, values, text),
            effective_target(rule, value),
        ),
{
    assert(rules.push(rule).drop_last() =~= rules);
    assert(values.push(value).drop_last() =~= values);
}

/// Two rules in either order: the second one sees the first one's output.
pub proof fn lemma_two_rules_order(r1: Regex, v1: Seq<char>, r2: Regex, v2: Seq<char>, text: Seq<char>)
    ensures
        rewritten(seq![r1, r2], seq![v1, v2], text) == regex_replace_all(
            r2.expression@,
            regex_replace_all(r1.expression@, text, effective_target(r1, v1)),
            effective_target(r2, v2),
        ),
        rewritten(seq![r2, r1], seq![v2, v1], text) == regex_replace_all(
            r1.expression@,
            regex_replace_all(r2.expression@, text, effective_target(r2, v2)),
            effective_target(r1, v1),
        ),
{
    let none_r = Seq::<Regex>::empty();
    let none_v = Seq::<Seq<char>>::empty();
    lemma_rules_apply_in_order(none_r, none_v, r1, v1, text);
    lemma_rules_apply_in_order(none_r, none_v, r2, v2, text);
    lemma_rules_apply_in_order(none_r.push(r1), none_v.push(v1), r2, v2, text);
    lemma_rules_apply_in_order(none_r.push(r2), none_v.push(v2), r1, v1, text);
    assert(none_r.push(r1).push(r2) =~= seq![r1, r2]);
    assert(none_v.push(v1).push(v2) =~= seq![v1, v2]);
    assert(none_r.push(r2).push(r1) =~= seq![r2, r1]);
    assert(none_v.push(v2).push(v1) =~= seq![v2, v1]);
}

/// Rewriting the output again with the same theme changes nothing, where no
/// rule changes that output any more.
pub proof fn lemma_reapply_unchanged(rules: Seq<Regex>, values: Seq<Seq<char>>, text: Seq<char>)
    requires
        values.len() == rules.len(),
        forall|i: int|
            0 <= i < rules.len() ==> regex_replace_all(
                (#[trigger] rules[i]).expression@,
                rewritten(rules, values, text),
                effective_target(rules[i], values[i]),
            ) == rewritten(rules, values, text),
    ensures
        rewritten(rules, values, rewritten(rules, values, text)) == rewritten(rules, values, text),
{
    let out = rewritten(rules, values, text);
    lemma_prefix_fixed(rules, values, out, rules.len() as int);
    assert(rules.take(rules.len() as int) =~= rules);
    assert(values.take(rules.len() as int) =~= values);
}

proof fn lemma_prefix_fixed(rules: Seq<Regex>, values: Seq<Seq<char>>, out: Seq<char>, k: int)
    requires
        values.len() == rules.len(),
        0 <= k <= rules.len(),
        forall|i: int|
            0 <= i < rules.len() ==> regex_replace_all(
                (#[trigger] rules[i]).expression@,
                out,
                effective_target(rules[i], values[i]),
            ) == out,
    ensures
        rewritten(rules.take(k), values.take(k), out) == out,
    decreases k,
{
    if k > 0 {
        lemma_prefix_fixed(rules, values, out, k - 1);
        assert(rules.take(k).drop_last() =~= rules.take(k - 1));
        assert(values.take(k).drop_last() =~= values.take(k - 1));
        assert(rules.take(k)[k - 1] == rules[k - 1]);
    }
}

} // verus!
