use faker_rand::grammar::{ConfigError, Grammar, Node, TemplateRule};
use faker_rand::random::RandomSource;
use faker_rand::text::Transform;

fn strings(v: &[&str]) -> Vec<String> {
    v.iter().map(|s| s.to_string()).collect()
}

fn pool(g: &mut Grammar, v: &[&str]) -> usize {
    g.add_pool(strings(v)).unwrap()
}

#[test]
fn pool_draws_are_close_to_uniform() {
    let mut g = Grammar::new();
    let values = ["w", "x", "y", "z"];
    let p = pool(&mut g, &values);
    let mut rng = RandomSource::seed_from_u64(7);
    let draws = 100_000;
    let mut counts = [0usize; 4];
    for _ in 0..draws {
        let s = g.sample(p, &mut rng);
        let i = values.iter().position(|v| *v == s).unwrap();
        counts[i] += 1;
    }
    for c in counts {
        let freq = c as f64 / draws as f64;
        assert!((freq - 0.25).abs() < 0.01, "frequency {}", freq);
    }
}

#[test]
fn same_seed_same_samples() {
    let mut g = Grammar::new();
    let a = pool(&mut g, &["a", "b", "c", "d", "e"]);
    let b = pool(&mut g, &["1", "2", "3"]);
    let up = g.add_transform(Transform::CapitalizeFirst, a).unwrap();
    let t = g
        .add_template(vec![TemplateRule::new("{}{}", vec![up, b]), TemplateRule::new("{} and {}", vec![a, a])])
        .unwrap();
    let mut r1 = RandomSource::seed_from_u64(2024);
    let mut r2 = RandomSource::seed_from_u64(2024);
    let s1: Vec<String> = (0..50).map(|_| g.sample(t, &mut r1)).collect();
    let s2: Vec<String> = (0..50).map(|_| g.sample(t, &mut r2)).collect();
    assert_eq!(s1, s2);
}

#[test]
fn repeated_rule_is_picked_twice_as_often() {
    let mut g = Grammar::new();
    let a = pool(&mut g, &["a"]);
    let b = pool(&mut g, &["b"]);
    let t = g
        .add_template(vec![
            TemplateRule::new("{}", vec![a]),
            TemplateRule::new("{}", vec![a]),
            TemplateRule::new("{}", vec![b]),
        ])
        .unwrap();
    let mut rng = RandomSource::seed_from_u64(1);
    let draws = 30_000;
    let hits = (0..draws).filter(|_| g.sample(t, &mut rng) == "a").count();
    let freq = hits as f64 / draws as f64;
    assert!((freq - 2.0 / 3.0).abs() < 0.02, "frequency {}", freq);
}

#[test]
fn dash_template_always_gives_x_y() {
    let mut g = Grammar::new();
    let a = pool(&mut g, &["x"]);
    let b = pool(&mut g, &["y"]);
    let t = g.add_template(vec![TemplateRule::new("{}-{}", vec![a, b])]).unwrap();
    for seed in 0..20 {
        let mut rng = RandomSource::seed_from_u64(seed);
        assert_eq!(g.sample(t, &mut rng), "x-y");
    }
}

#[test]
fn space_template_always_gives_a_b() {
    let mut g = Grammar::new();
    let a = pool(&mut g, &["A"]);
    let b = pool(&mut g, &["B"]);
    let t = g.add_template(vec![TemplateRule::new("{} {}", vec![a, b])]).unwrap();
    let mut rng = RandomSource::from_entropy();
    for _ in 0..20 {
        assert_eq!(g.sample(t, &mut rng), "A B");
    }
}

#[test]
fn nested_generators_compose() {
    let mut g = Grammar::new();
    let w = pool(&mut g, &["élan"]);
    let t = g.add_template(vec![TemplateRule::new("[{}]", vec![w])]).unwrap();
    let up = g.add_transform(Transform::CapitalizeFirst, t).unwrap();
    let outer = g.add_template(vec![TemplateRule::new("{}/{}", vec![up, w])]).unwrap();
    let ascii = g.add_transform(Transform::AsciiLowercase, outer).unwrap();
    let lower = g.add_transform(Transform::Lowercase, up).unwrap();
    let mut rng = RandomSource::seed_from_u64(3);
    assert_eq!(g.sample(outer, &mut rng), "[élan]/élan");
    assert_eq!(g.sample(ascii, &mut rng), "elanelan");
    assert_eq!(g.sample(lower, &mut rng), "[élan]");
    assert_eq!(g.len(), 6);
}

#[test]
fn empty_pool_is_refused() {
    let mut g = Grammar::new();
    assert_eq!(g.add_pool(Vec::new()), Err(ConfigError::EmptyPool));
    assert_eq!(g.add_pool_from_lines(""), Err(ConfigError::EmptyPool));
    assert_eq!(g.len(), 0);
}

#[test]
fn pool_from_lines_holds_each_line() {
    let mut g = Grammar::new();
    let p = g.add_pool_from_lines("one\r\ntwo\n").unwrap();
    match &g.nodes[p] {
        Node::Pool(v) => assert_eq!(v, &strings(&["one", "two"])),
        _ => panic!("not a pool"),
    }
}

#[test]
fn template_without_rules_is_refused() {
    let mut g = Grammar::new();
    assert_eq!(g.add_template(Vec::new()), Err(ConfigError::NoRules));
}

#[test]
fn placeholder_mismatch_is_refused() {
    let mut g = Grammar::new();
    let a = pool(&mut g, &["a"]);
    let r = g.add_template(vec![TemplateRule::new("{}", vec![a]), TemplateRule::new("{} {} {}", vec![a, a])]);
    assert_eq!(r, Err(ConfigError::PlaceholderMismatch { rule: 1, placeholders: 3, generators: 2 }));
    assert_eq!(g.len(), 1);
}

#[test]
fn unknown_generator_is_refused() {
    let mut g = Grammar::new();
    let a = pool(&mut g, &["a"]);
    let r = g.add_template(vec![TemplateRule::new("{}{}", vec![a, 5])]);
    assert_eq!(r, Err(ConfigError::UnknownGenerator { id: 5 }));
    assert_eq!(g.add_transform(Transform::Lowercase, 1), Err(ConfigError::UnknownGenerator { id: 1 }));
    assert_eq!(g.add_transform(Transform::Lowercase, a), Ok(1));
}

#[test]
fn draws_stay_below_the_bound() {
    let mut rng = RandomSource::seed_from_u64(11);
    for n in 1..50usize {
        assert!(rng.below(n) < n);
    }
    assert_eq!(rng.below(1), 0);
}
