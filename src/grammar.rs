//! The generator graph: pools, templates and transforms, referring to one
//! another by position, and the sampling that walks it.
use crate::random::RandomSource;
use crate::text::{apply, count_holes, fill, fill_pattern, holes, lines_of, split_lines, transformed, views, Transform};
use vstd::prelude::*;

verus! {

/// One alternative of a template: a pattern whose placeholders `{}` are
/// filled, left to right, by samples of the generators listed in `parts`.
pub struct TemplateRule {
    pub pattern: String,
    pub parts: Vec<usize>,
}

/// A generator, stored in a [`Grammar`] and named by its position there.
pub enum Node {
    /// Uniform choice among fixed values.
    Pool(Vec<String>),
    /// Uniform choice among rules, each then filled by its sub-generators.
    Template(Vec<TemplateRule>),
    /// The output of another generator, post-processed.
    Transform(Transform, usize),
}

/// Why a generator could not be added to a grammar.
#[derive(Clone, Copy, Debug, PartialEq, Eq, Structural)]
pub enum ConfigError {
    /// A pool with no values.
    EmptyPool,
    /// A template with no rules.
    NoRules,
    /// A rule whose pattern has a different number of placeholders than it
    /// lists generators.
    PlaceholderMismatch { rule: usize, placeholders: usize, generators: usize },
    /// A reference to a generator that is not (yet) in the grammar.
    UnknownGenerator { id: usize },
}

/// Whether rule `r` of the generator at position `id` is sound: one
/// generator per placeholder, each one added before `id`.
pub open spec fn rule_wf(r: TemplateRule, id: int) -> bool {
    &&& holes(r.pattern@) == r.parts@.len()
    &&& forall|j: int| 0 <= j < r.parts@.len() ==> (#[trigger] r.parts@[j]) < id
}

/// Whether the generator at position `i` is sound: a pool has values, a
/// template has rules that are all sound, and every reference points to an
/// earlier generator (so the graph has no cycle).
pub open spec fn node_wf(nodes: Seq<Node>, i: int) -> bool {
    match nodes[i] {
        Node::Pool(values) => values@.len() > 0,
        Node::Template(rules) => rules@.len() > 0 && forall|k: int|
            0 <= k < rules@.len() ==> rule_wf(#[trigger] rules@[k], i),
        Node::Transform(_, inner) => inner < i,
    }
}

/// What sampling the generator at `id` yields when it reads the draws `s`
/// from the front: the string and the draws left over, or `None` when `s`
/// runs out or holds a draw out of range. A pool reads one draw and returns
/// the value at that index; a template reads one draw to pick a rule, then
/// samples the rule's generators left to right and fills its pattern; a
/// transform samples its generator and post-processes the result.
pub open spec fn run(nodes: Seq<Node>, id: int, s: Seq<int>) -> Option<(Seq<char>, Seq<int>)>
    decreases id + 1, 0int,
{
    if !(0 <= id < nodes.len()) {
        None
    } else {
        match nodes[id] {
            Node::Pool(values) => {
                if s.len() > 0 && 0 <= s[0] < values@.len() {
                    Some((values@[s[0]]@, s.drop_first()))
                } else {
                    None
                }
            },
            Node::Template(rules) => {
                if s.len() > 0 && 0 <= s[0] < rules@.len() {
                    let rule = rules@[s[0]];
                    match run_parts(nodes, id, rule.parts@, rule.parts@.len() as int, s.drop_first()) {
                        Some((vals, rest)) => Some((fill(rule.pattern@, vals), rest)),
                        None => None,
                    }
                } else {
                    None
                }
            },
            Node::Transform(t, inner) => {
                if inner < id {
                    match run(nodes, inner as int, s) {
                        Some((out, rest)) => Some((transformed(t, out), rest)),
                        None => None,
                    }
                } else {
                    None
                }
            },
        }
    }
}

/// What sampling the first `n` of `parts` in order yields when they read the
/// draws `s`: their strings and the draws left over. Every part must come
/// before `parent`.
pub open spec fn run_parts(nodes: Seq<Node>, parent: int, parts: Seq<usize>, n: int, s: Seq<int>) -> Option<(Seq<Seq<char>>, Seq<int>)>
    decreases parent, n,
{
    if n <= 0 {
        Some((Seq::empty(), s))
    } else if n > parts.len() || parts[n - 1] >= parent {
        None
    } else {
        match run_parts(nodes, parent, parts, n - 1, s) {
            Some((vals, rest)) => match run(nodes, parts[n - 1] as int, rest) {
                Some((out, rest2)) => Some((vals.push(out), rest2)),
                None => None,
            },
            None => None,
        }
    }
}

/// Whether sampling the generator at `id` read exactly the draws that a
/// source handed out between the logs `before` and `after`, and produced `out`.
pub open spec fn produced(nodes: Seq<Node>, id: int, before: Seq<int>, after: Seq<int>, out: Seq<char>) -> bool {
    &&& before.len() <= after.len()
    &&& after.subrange(0, before.len() as int) == before
    &&& run(nodes, id, after.subrange(before.len() as int, after.len() as int)) == Some((out, Seq::<int>::empty()))
}

proof fn lemma_run_extend(nodes: Seq<Node>, id: int, s: Seq<int>, t: Seq<int>)
    requires
        run(nodes, id, s) is Some,
    ensures
        run(nodes, id, s + t) == Some(((run(nodes, id, s)->0).0, (run(nodes, id, s)->0).1 + t)),
    decreases id + 1, 0int,
{
    match nodes[id] {
        Node::Pool(values) => {
            assert((s + t).drop_first() =~= s.drop_first() + t);
        },
        Node::Template(rules) => {
            assert((s + t).drop_first() =~= s.drop_first() + t);
            let rule = rules@[s[0]];
            lemma_parts_extend(nodes, id, rule.parts@, rule.parts@.len() as int, s.drop_first(), t);
        },
        Node::Transform(_, inner) => {
            lemma_run_extend(nodes, inner as int, s, t);
        },
    }
}

proof fn lemma_parts_extend(nodes: Seq<Node>, parent: int, parts: Seq<usize>, n: int, s: Seq<int>, t: Seq<int>)
    requires
        run_parts(nodes, parent, parts, n, s) is Some,
    ensures
        run_parts(nodes, parent, parts, n, s + t) == Some(
            ((run_parts(nodes, parent, parts, n, s)->0).0, (run_parts(nodes, parent, parts, n, s)->0).1 + t),
        ),
    decreases parent, n,
{
    if n > 0 {
        lemma_parts_extend(nodes, parent, parts, n - 1, s, t);
        let rest = (run_parts(nodes, parent, parts, n - 1, s)->0).1;
        lemma_run_extend(nodes, parts[n - 1] as int, rest, t);
    }
}

/// A sample is fixed by the draws it reads. Two samplings of one generator
/// over the same stream of draws read the same prefix of it and return the
/// same string; so sources that hand out the same values, as two sources
/// made from one seed do, yield the same sequence of samples.
pub proof fn same_draws_same_sample(
    nodes: Seq<Node>,
    id: int,
    d1: Seq<int>,
    t1: Seq<int>,
    d2: Seq<int>,
    t2: Seq<int>,
    out1: Seq<char>,
    out2: Seq<char>,
)
    requires
        run(nodes, id, d1) == Some((out1, Seq::<int>::empty())),
        run(nodes, id, d2) == Some((out2, Seq::<int>::empty())),
        d1 + t1 == d2 + t2,
    ensures
        d1 == d2,
        t1 == t2,
        out1 == out2,
{
    lemma_run_extend(nodes, id, d1, t1);
    lemma_run_extend(nodes, id, d2, t2);
    assert(Seq::<int>::empty() + t1 == t1);
    assert(Seq::<int>::empty() + t2 == t2);
    assert(d1.len() == d2.len());
    assert(d1 == (d1 + t1).subrange(0, d1.len() as int));
    assert(d2 == (d2 + t2).subrange(0, d2.len() as int));
}

/// A pool reads one draw and returns the value at that index, leaving the
/// rest of the draws: each value is picked by exactly one draw value, its own
/// position, so uniform draws pick every value with the same chance.
pub proof fn pool_draw_selects_value(nodes: Seq<Node>, id: int, i: int, rest: Seq<int>)
    requires
        0 <= id < nodes.len(),
        nodes[id] is Pool,
        0 <= i < nodes[id]->Pool_0@.len(),
    ensures
        run(nodes, id, seq![i] + rest) == Some((nodes[id]->Pool_0@[i]@, rest)),
        forall|j: int|
            0 <= j < nodes[id]->Pool_0@.len() && j != i ==> (run(nodes, id, seq![j] + rest)->0).0
                == nodes[id]->Pool_0@[j]@,
{
    assert((seq![i] + rest).drop_first() =~= rest);
    assert forall|j: int|
        0 <= j < nodes[id]->Pool_0@.len() && j != i implies (run(nodes, id, seq![j] + rest)->0).0
            == nodes[id]->Pool_0@[j]@ by {
        assert((seq![j] + rest)[0] == j);
    }
}

/// A template reads one draw and uses the rule at that index: its generators
/// are sampled left to right from the remaining draws and fill its pattern.
pub proof fn template_draw_selects_rule(nodes: Seq<Node>, id: int, i: int, rest: Seq<int>)
    requires
        0 <= id < nodes.len(),
        nodes[id] is Template,
        0 <= i < nodes[id]->Template_0@.len(),
    ensures
        run(nodes, id, seq![i] + rest) == match run_parts(
            nodes,
            id,
            nodes[id]->Template_0@[i].parts@,
            nodes[id]->Template_0@[i].parts@.len() as int,
            rest,
        ) {
            Some((vals, left)) => Some((fill(nodes[id]->Template_0@[i].pattern@, vals), left)),
            None => None,
        },
{
    assert((seq![i] + rest).drop_first() =~= rest);
}

/// Rules are not merged: a rule listed at two positions of a template is
/// picked by both draw values, and either gives the same result. Listing a
/// rule twice thus doubles its share of the draws.
pub proof fn repeated_rule_same_result(nodes: Seq<Node>, id: int, a: int, b: int, rest: Seq<int>)
    requires
        0 <= id < nodes.len(),
        nodes[id] is Template,
        0 <= a < nodes[id]->Template_0@.len(),
        0 <= b < nodes[id]->Template_0@.len(),
        nodes[id]->Template_0@[a] == nodes[id]->Template_0@[b],
    ensures
        run(nodes, id, seq![a] + rest) == run(nodes, id, seq![b] + rest),
{
    template_draw_selects_rule(nodes, id, a, rest);
    template_draw_selects_rule(nodes, id, b, rest);
}

/// The single values of the pools at `parts`, in order.
pub open spec fn single_values(nodes: Seq<Node>, parts: Seq<usize>) -> Seq<Seq<char>> {
    parts.map_values(|p: usize| pool_values(nodes[p as int])[0])
}

/// Whether every generator at `parts` is a pool of exactly one value.
pub open spec fn all_single_pools(nodes: Seq<Node>, parts: Seq<usize>) -> bool {
    forall|j: int|
        0 <= j < parts.len() ==> (#[trigger] parts[j]) < nodes.len() && nodes[parts[j] as int] is Pool
            && pool_values(nodes[parts[j] as int]).len() == 1
}

proof fn lemma_parts_single(nodes: Seq<Node>, parent: int, parts: Seq<usize>, n: int, s: Seq<int>)
    requires
        0 <= n <= parts.len(),
        all_single_pools(nodes, parts),
        run_parts(nodes, parent, parts, n, s) is Some,
    ensures
        (run_parts(nodes, parent, parts, n, s)->0).0 == single_values(nodes, parts).subrange(0, n),
    decreases n,
{
    if n == 0 {
        assert(single_values(nodes, parts).subrange(0, 0) =~= Seq::<Seq<char>>::empty());
    } else {
        lemma_parts_single(nodes, parent, parts, n - 1, s);
        let p = parts[n - 1];
        assert(nodes[p as int] is Pool);
        let rest = (run_parts(nodes, parent, parts, n - 1, s)->0).1;
        if let Node::Pool(values) = nodes[p as int] {
            assert(views(values@)[0] == values@[0]@);
            assert((run(nodes, p as int, rest)->0).0 == pool_values(nodes[p as int])[0]);
        }
        assert(single_values(nodes, parts).subrange(0, n) =~= single_values(nodes, parts).subrange(0, n - 1).push(
            pool_values(nodes[p as int])[0],
        ));
    }
}

/// A template with a single rule whose generators are pools of one value
/// each always yields that rule's pattern filled with those values, whatever
/// the draws.
pub proof fn single_choice_template_is_constant(nodes: Seq<Node>, id: int, s: Seq<int>)
    requires
        0 <= id < nodes.len(),
        nodes[id] is Template,
        nodes[id]->Template_0@.len() == 1,
        all_single_pools(nodes, nodes[id]->Template_0@[0].parts@),
        run(nodes, id, s) is Some,
    ensures
        (run(nodes, id, s)->0).0 == fill(
            nodes[id]->Template_0@[0].pattern@,
            single_values(nodes, nodes[id]->Template_0@[0].parts@),
        ),
{
    let rule = nodes[id]->Template_0@[0];
    lemma_parts_single(nodes, id, rule.parts@, rule.parts@.len() as int, s.drop_first());
    assert(single_values(nodes, rule.parts@).subrange(0, rule.parts@.len() as int) =~= single_values(
        nodes,
        rule.parts@,
    ));
}

/// The first of `parts[j..]` that is not below `n`, if any.
pub open spec fn first_unknown(parts: Seq<usize>, n: nat, j: int) -> Option<usize>
    decreases parts.len() - j,
{
    if j < 0 || j >= parts.len() {
        None
    } else if parts[j] >= n {
        Some(parts[j])
    } else {
        first_unknown(parts, n, j + 1)
    }
}

/// What is wrong, if anything, with rule `r`, at position `k` of a template
/// added to a grammar of `n` generators: a placeholder count that differs
/// from its number of generators comes first, then its first reference that
/// is not below `n`.
pub open spec fn rule_error(r: TemplateRule, k: int, n: nat) -> Option<ConfigError> {
    if holes(r.pattern@) != r.parts@.len() {
        Some(
            ConfigError::PlaceholderMismatch {
                rule: k as usize,
                placeholders: holes(r.pattern@) as usize,
                generators: r.parts@.len() as usize,
            },
        )
    } else {
        match first_unknown(r.parts@, n, 0) {
            Some(id) => Some(ConfigError::UnknownGenerator { id }),
            None => None,
        }
    }
}

/// The error of the first faulty rule among `rules[k..]`, if any.
pub open spec fn rules_error(rules: Seq<TemplateRule>, n: nat, k: int) -> Option<ConfigError>
    decreases rules.len() - k,
{
    if k < 0 || k >= rules.len() {
        None
    } else {
        match rule_error(rules[k], k, n) {
            Some(e) => Some(e),
            None => rules_error(rules, n, k + 1),
        }
    }
}

/// Why a template with `rules` cannot be added to a grammar of `n`
/// generators, if it cannot: it has no rule, or one of its rules is faulty.
pub open spec fn template_error(rules: Seq<TemplateRule>, n: nat) -> Option<ConfigError> {
    if rules.len() == 0 {
        Some(ConfigError::NoRules)
    } else {
        rules_error(rules, n, 0)
    }
}

/// Finds the first of `parts` that is not below `n`.
fn find_unknown(parts: &Vec<usize>, n: usize) -> (r: Option<usize>)
    ensures
        r == first_unknown(parts@, n as nat, 0),
        r is None ==> forall|j: int| 0 <= j < parts@.len() ==> (#[trigger] parts@[j]) < n,
{
    let mut j: usize = 0;
    while j < parts.len()
        invariant
            j <= parts@.len(),
            first_unknown(parts@, n as nat, 0) == first_unknown(parts@, n as nat, j as int),
            forall|i: int| 0 <= i < j ==> (#[trigger] parts@[i]) < n,
        decreases parts@.len() - j,
    {
        if parts[j] >= n {
            return Some(parts[j]);
        }
        j = j + 1;
    }
    None
}

/// Checks `rules` for a template added to a grammar of `n` generators.
fn check_rules(rules: &Vec<TemplateRule>, n: usize) -> (r: Option<ConfigError>)
    ensures
        r == template_error(rules@, n as nat),
        r is None ==> forall|k: int| 0 <= k < rules@.len() ==> rule_wf(#[trigger] rules@[k], n as int),
{
    if rules.len() == 0 {
        return Some(ConfigError::NoRules);
    }
    let mut k: usize = 0;
    while k < rules.len()
        invariant
            k <= rules@.len(),
            rules_error(rules@, n as nat, 0) == rules_error(rules@, n as nat, k as int),
            forall|i: int| 0 <= i < k ==> rule_wf(#[trigger] rules@[i], n as int),
        decreases rules@.len() - k,
    {
        let rule = &rules[k];
        let placeholders = count_holes(rule.pattern.as_str());
        if placeholders != rule.parts.len() {
            return Some(
                ConfigError::PlaceholderMismatch { rule: k, placeholders, generators: rule.parts.len() },
            );
        }
        match find_unknown(&rule.parts, n) {
            Some(id) => {
                return Some(ConfigError::UnknownGenerator { id });
            },
            None => {},
        }
        k = k + 1;
    }
    None
}

impl TemplateRule {
    /// A rule with `pattern` and the generators `parts`.
    pub fn new(pattern: &str, parts: Vec<usize>) -> (r: Self)
        ensures
            r.pattern@ == pattern@,
            r.parts@ == parts@,
    {
        TemplateRule { pattern: pattern.to_owned(), parts }
    }
}

/// The values of a pool, as strings; empty for any other generator.
pub open spec fn pool_values(n: Node) -> Seq<Seq<char>> {
    match n {
        Node::Pool(values) => views(values@),
        _ => Seq::empty(),
    }
}

/// The rules of a template, each as its pattern and the positions of its
/// generators; empty for any other generator.
pub open spec fn rule_views(n: Node) -> Seq<(Seq<char>, Seq<usize>)> {
    match n {
        Node::Template(rules) => rules@.map_values(|r: TemplateRule| (r.pattern@, r.parts@)),
        _ => Seq::empty(),
    }
}

/// A set of generators, each referring only to generators added before it.
pub struct Grammar {
    pub nodes: Vec<Node>,
}

impl Grammar {
    /// Whether every generator of the grammar is sound.
    pub open spec fn wf(&self) -> bool {
        forall|i: int| 0 <= i < self.nodes@.len() ==> node_wf(self.nodes@, i)
    }

    /// An empty grammar.
    pub fn new() -> (r: Self)
        ensures
            r.nodes@ == Seq::<Node>::empty(),
            r.wf(),
    {
        Grammar { nodes: Vec::new() }
    }

    /// Samples the generator at `id`: a pool returns one of its values, a
    /// template picks a rule and fills its pattern with samples of the rule's
    /// generators taken left to right, a transform post-processes a sample
    /// of its generator. The result is the one that `run` gives for exactly
    /// the draws taken from `rng` during the call.
    pub fn sample(&self, id: usize, rng: &mut RandomSource) -> (r: String)
        requires
            self.wf(),
            id < self.nodes@.len(),
        ensures
            produced(self.nodes@, id as int, old(rng).drawn(), final(rng).drawn(), r@),
        decreases id,
    {
        let ghost before = rng.drawn();
        assert(node_wf(self.nodes@, id as int));
        match &self.nodes[id] {
            Node::Pool(values) => {
                let k = rng.below(values.len());
                let ghost d = rng.drawn().subrange(before.len() as int, rng.drawn().len() as int);
                assert(d == seq![k as int]);
                assert(d.drop_first() =~= Seq::<int>::empty());
                assert(rng.drawn().subrange(0, before.len() as int) == before);
                values[k].clone()
            },
            Node::Template(rules) => {
                let k = rng.below(rules.len());
                let rule = &rules[k];
                assert(rule_wf(rules@[k as int], id as int));
                let ghost start = rng.drawn().len();
                let mut vals: Vec<String> = Vec::new();
                let mut j: usize = 0;
                assert(rng.drawn().subrange(start as int, start as int) =~= Seq::<int>::empty());
                while j < rule.parts.len()
                    invariant
                        self.wf(),
                        id < self.nodes@.len(),
                        self.nodes@[id as int] == Node::Template(*rules),
                        k < rules@.len(),
                        rule == rules@[k as int],
                        rule_wf(*rule, id as int),
                        j <= rule.parts@.len(),
                        before.len() + 1 == start <= rng.drawn().len(),
                        rng.drawn().subrange(0, before.len() as int) == before,
                        rng.drawn()[before.len() as int] == k as int,
                        vals@.len() == j,
                        run_parts(self.nodes@, id as int, rule.parts@, j as int,
                            rng.drawn().subrange(start as int, rng.drawn().len() as int))
                            == Some((views(vals@), Seq::<int>::empty())),
                    decreases rule.parts@.len() - j,
                {
                    let ghost mid = rng.drawn();
                    let part = rule.parts[j];
                    let v = self.sample(part, rng);
                    proof {
                        let d = mid.subrange(start as int, mid.len() as int);
                        let e = rng.drawn().subrange(mid.len() as int, rng.drawn().len() as int);
                        lemma_parts_extend(self.nodes@, id as int, rule.parts@, j as int, d, e);
                        assert(Seq::<int>::empty() + e =~= e);
                        assert(rng.drawn() =~= mid + e);
                        assert(rng.drawn().subrange(start as int, rng.drawn().len() as int) =~= d + e);
                        assert(rng.drawn().subrange(0, before.len() as int) =~= before);
                    }
                    let ghost prev = vals@;
                    vals.push(v);
                    assert(views(vals@) =~= views(prev).push(v@));
                    j = j + 1;
                }
                let r = fill_pattern(rule.pattern.as_str(), &vals);
                proof {
                    let all = rng.drawn().subrange(before.len() as int, rng.drawn().len() as int);
                    assert(all[0] == k as int);
                    assert(all.drop_first() =~= rng.drawn().subrange(start as int, rng.drawn().len() as int));
                    assert(rule.parts@.len() == j);
                    assert(run(self.nodes@, id as int, all) == Some((r@, Seq::<int>::empty())));
                }
                r
            },
            Node::Transform(t, inner) => {
                let v = self.sample(*inner, rng);
                let r = apply(*t, v.as_str());
                assert(run(self.nodes@, id as int, rng.drawn().subrange(before.len() as int, rng.drawn().len() as int)) == Some((r@, Seq::<int>::empty())));
                r
            },
        }
    }

    /// Adds a pool of `values`, sampled uniformly, and returns its position.
    /// A pool with no values is refused.
    pub fn add_pool(&mut self, values: Vec<String>) -> (r: Result<usize, ConfigError>)
        requires
            old(self).wf(),
        ensures
            final(self).wf(),
            values@.len() == 0 ==> r == Err::<usize, ConfigError>(ConfigError::EmptyPool)
                && final(self).nodes@ == old(self).nodes@,
            values@.len() > 0 ==> r == Ok::<usize, ConfigError>(old(self).nodes@.len() as usize)
                && final(self).nodes@ == old(self).nodes@.push(Node::Pool(values)),
    {
        if values.len() == 0 {
            return Err(ConfigError::EmptyPool);
        }
        let id = self.nodes.len();
        let ghost prev = self.nodes@;
        self.nodes.push(Node::Pool(values));
        assert forall|i: int| 0 <= i < self.nodes@.len() implies node_wf(self.nodes@, i) by {
            if i < prev.len() {
                assert(node_wf(prev, i));
            }
        }
        Ok(id)
    }

    /// Adds a pool whose values are the lines of `text`, and returns its
    /// position. A text with no lines is refused.
    pub fn add_pool_from_lines(&mut self, text: &str) -> (r: Result<usize, ConfigError>)
        requires
            old(self).wf(),
        ensures
            final(self).wf(),
            lines_of(text@).len() == 0 ==> r == Err::<usize, ConfigError>(ConfigError::EmptyPool)
                && final(self).nodes@ == old(self).nodes@,
            lines_of(text@).len() > 0 ==> r == Ok::<usize, ConfigError>(old(self).nodes@.len() as usize)
                && final(self).nodes@.len() == old(self).nodes@.len() + 1
                && final(self).nodes@.drop_last() == old(self).nodes@
                && pool_values(final(self).nodes@.last()) == lines_of(text@),
    {
        let values = split_lines(text);
        self.add_pool(values)
    }

    /// Adds a template over `rules`, each rule picked with equal chance (a
    /// rule listed twice is picked twice as often), and returns its position.
    /// It is refused when it has no rule, when a rule's placeholders and
    /// generators differ in number, or when a rule names a generator not in
    /// the grammar.
    pub fn add_template(&mut self, rules: Vec<TemplateRule>) -> (r: Result<usize, ConfigError>)
        requires
            old(self).wf(),
        ensures
            final(self).wf(),
            template_error(rules@, old(self).nodes@.len()) matches Some(e) ==> r == Err::<usize, ConfigError>(e)
                && final(self).nodes@ == old(self).nodes@,
            template_error(rules@, old(self).nodes@.len()) is None ==> r == Ok::<usize, ConfigError>(old(self).nodes@.len() as usize)
                && final(self).nodes@ == old(self).nodes@.push(Node::Template(rules)),
    {
        let id = self.nodes.len();
        match check_rules(&rules, id) {
            Some(e) => {
                return Err(e);
            },
            None => {},
        }
        let ghost prev = self.nodes@;
        self.nodes.push(Node::Template(rules));
        assert forall|i: int| 0 <= i < self.nodes@.len() implies node_wf(self.nodes@, i) by {
            if i < prev.len() {
                assert(node_wf(prev, i));
            }
        }
        Ok(id)
    }

    /// Adds a template whose rules are known to be sound, and returns its
    /// position.
    pub fn add_sound_template(&mut self, rules: Vec<TemplateRule>) -> (r: usize)
        requires
            old(self).wf(),
            rules@.len() > 0,
            forall|k: int| 0 <= k < rules@.len() ==> rule_wf(#[trigger] rules@[k], old(self).nodes@.len() as int),
        ensures
            final(self).wf(),
            r == old(self).nodes@.len(),
            final(self).nodes@ == old(self).nodes@.push(Node::Template(rules)),
    {
        let id = self.nodes.len();
        let ghost prev = self.nodes@;
        self.nodes.push(Node::Template(rules));
        assert forall|i: int| 0 <= i < self.nodes@.len() implies node_wf(self.nodes@, i) by {
            if i < prev.len() {
                assert(node_wf(prev, i));
            }
        }
        id
    }

    /// Adds a generator that applies `t` to samples of the generator at
    /// `inner`, and returns its position. A reference to a generator not in
    /// the grammar is refused.
    pub fn add_transform(&mut self, t: Transform, inner: usize) -> (r: Result<usize, ConfigError>)
        requires
            old(self).wf(),
        ensures
            final(self).wf(),
            inner >= old(self).nodes@.len() ==> r == Err::<usize, ConfigError>(ConfigError::UnknownGenerator { id: inner })
                && final(self).nodes@ == old(self).nodes@,
            inner < old(self).nodes@.len() ==> r == Ok::<usize, ConfigError>(old(self).nodes@.len() as usize)
                && final(self).nodes@ == old(self).nodes@.push(Node::Transform(t, inner)),
    {
        let id = self.nodes.len();
        if inner >= id {
            return Err(ConfigError::UnknownGenerator { id: inner });
        }
        let ghost prev = self.nodes@;
        self.nodes.push(Node::Transform(t, inner));
        assert forall|i: int| 0 <= i < self.nodes@.len() implies node_wf(self.nodes@, i) by {
            if i < prev.len() {
                assert(node_wf(prev, i));
            }
        }
        Ok(id)
    }

    /// Number of generators in the grammar.
    pub fn len(&self) -> (r: usize)
        ensures
            r == self.nodes@.len(),
    {
        self.nodes.len()
    }
}

} // verus!
