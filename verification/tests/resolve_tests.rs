use rand::rngs::SmallRng;
use rand::SeedableRng;
use weekly_rulesets::legality::IsAllowed;
use weekly_rulesets::rules::{nmg_rules, TemplateState};
use weekly_rulesets::techniques::{apply_rule, RulesetTemplate, TECHNIQUE_COUNT};

const FAKE_FLIPPERS: usize = 1;
const OVERWORLD_CLIPPING: usize = 5;
const SAVE_AND_QUIT: usize = 0;

fn template_of(entries: &[(&str, TemplateState)]) -> RulesetTemplate {
    let listed: Vec<(String, TemplateState)> =
        entries.iter().map(|(k, ts)| (k.to_string(), *ts)).collect();
    RulesetTemplate::from_template_states(&listed)
}

#[test]
fn test_template_from_weights() {
    let rt = template_of(&[("OverworldClipping", TemplateState::STATIC(IsAllowed::ALLOWED))]);
    assert_eq!(TemplateState::STATIC(IsAllowed::ALLOWED), rt.get(OVERWORLD_CLIPPING));
    assert_eq!(TemplateState::USE_DEFAULT, rt.get(FAKE_FLIPPERS));
}

#[test]
fn test_apply_rule_with_rng() {
    let rt = template_of(&[
        ("FakeFlippers", TemplateState::CHANCE_PER_THOUSAND(50)),
        ("OverworldClipping", TemplateState::USE_DEFAULT),
    ]);

    // With a weight of 40 the technique is force-allowed on any roll above
    // 40; each of these seeds happens to roll above it.
    for seed in [1u64, 2, 3, 4, 500] {
        let mut rng = SmallRng::seed_from_u64(seed);
        assert_eq!(
            IsAllowed::ALLOWED,
            rt.apply_rule_with_rng(
                &IsAllowed::DISALLOWED,
                &TemplateState::CHANCE_PER_THOUSAND(40),
                &mut rng,
            )
        );
    }
}

#[test]
fn test_apply_with_rng() {
    let rt = template_of(&[
        ("FakeFlippers", TemplateState::CHANCE_PER_THOUSAND(50)),
        ("OverworldClipping", TemplateState::USE_DEFAULT),
    ]);

    let defaults = nmg_rules();
    assert_eq!(IsAllowed::ALLOWED, defaults.get(FAKE_FLIPPERS));
    assert_eq!(IsAllowed::DISALLOWED, defaults.get(OVERWORLD_CLIPPING));

    // A chance rule falls back to the base value, so with an allowed base
    // both branches of the roll agree.
    let mut rng = SmallRng::seed_from_u64(1);
    assert_eq!(
        IsAllowed::ALLOWED,
        rt.apply_with_rng(&defaults, "t".to_string(), &mut rng).get(FAKE_FLIPPERS)
    );
    let mut rng2 = SmallRng::seed_from_u64(500);
    assert_eq!(
        IsAllowed::ALLOWED,
        rt.apply_with_rng(&defaults, "t".to_string(), &mut rng2).get(FAKE_FLIPPERS)
    );
}

#[test]
fn test_resolution_is_deterministic_for_one_seed() {
    let rt = template_of(&[
        ("SaveAndQuit", TemplateState::CHANCE_PER_THOUSAND(500)),
        ("OverworldClipping", TemplateState::CHANCE_PER_THOUSAND(500)),
        ("HeraPot", TemplateState::CHANCE_PER_THOUSAND(10)),
    ]);
    let base = nmg_rules();

    let mut rng1 = SmallRng::seed_from_u64(12345);
    let r1 = rt.apply_with_rng(&base, "a".to_string(), &mut rng1);
    let mut rng2 = SmallRng::seed_from_u64(12345);
    let r2 = rt.apply_with_rng(&base, "b".to_string(), &mut rng2);
    assert_eq!(r1.values, r2.values);
}

#[test]
fn test_resolution_completeness() {
    let rt = template_of(&[]);
    let base = nmg_rules();
    let mut rng = SmallRng::seed_from_u64(9);
    let r = rt.apply_with_rng(&base, "full".to_string(), &mut rng);
    assert_eq!(TECHNIQUE_COUNT, r.values.len());
    // An all-deferring template reproduces the base ruleset exactly.
    assert_eq!(base.values, r.values);
}

#[test]
fn test_apply_with_rolls_exact() {
    let rt = template_of(&[
        ("SaveAndQuit", TemplateState::CHANCE_PER_THOUSAND(500)),
        ("OverworldClipping", TemplateState::CHANCE_PER_THOUSAND(500)),
    ]);
    let base = nmg_rules();

    // Rolls are consumed in catalogue order: SaveAndQuit first.
    let r = rt.apply_with_rolls(&base, "rolled".to_string(), &vec![999, 0]);
    assert_eq!(IsAllowed::ALLOWED, r.get(SAVE_AND_QUIT));
    assert_eq!(IsAllowed::DISALLOWED, r.get(OVERWORLD_CLIPPING));
    assert_eq!("rolled", r.name);

    let r2 = rt.apply_with_rolls(&base, "rolled".to_string(), &vec![0, 999]);
    assert_eq!(IsAllowed::DISALLOWED, r2.get(SAVE_AND_QUIT));
    assert_eq!(IsAllowed::ALLOWED, r2.get(OVERWORLD_CLIPPING));
}

#[test]
fn test_chance_boundaries() {
    // Full weight never force-allows: no roll in [0, 1000) exceeds 1000.
    for roll in [0u16, 1, 500, 999] {
        assert_eq!(
            IsAllowed::DISALLOWED,
            apply_rule(
                &IsAllowed::DISALLOWED,
                &TemplateState::CHANCE_PER_THOUSAND(1000),
                roll
            )
        );
    }
    // Zero weight force-allows on every nonzero roll and keeps the base
    // only on a roll of exactly zero.
    assert_eq!(
        IsAllowed::DISALLOWED,
        apply_rule(&IsAllowed::DISALLOWED, &TemplateState::CHANCE_PER_THOUSAND(0), 0)
    );
    assert_eq!(
        IsAllowed::ALLOWED,
        apply_rule(&IsAllowed::DISALLOWED, &TemplateState::CHANCE_PER_THOUSAND(0), 1)
    );
    // A weight of 999 also always keeps the base: rolls stop at 999.
    assert_eq!(
        IsAllowed::DISALLOWED,
        apply_rule(&IsAllowed::DISALLOWED, &TemplateState::CHANCE_PER_THOUSAND(999), 999)
    );
}

#[test]
fn test_fixed_and_default_ignore_rolls() {
    assert_eq!(
        IsAllowed::UNSPECIFIED,
        apply_rule(
            &IsAllowed::DISALLOWED,
            &TemplateState::STATIC(IsAllowed::UNSPECIFIED),
            999
        )
    );
    assert_eq!(
        IsAllowed::DISALLOWED,
        apply_rule(&IsAllowed::DISALLOWED, &TemplateState::USE_DEFAULT, 999)
    );
}

#[test]
fn test_end_to_end_scenario() {
    // Base NMG has FakeFlippers allowed and OverworldClipping disallowed;
    // a chance rule on an allowed base falls back to allowed either way,
    // and a deferring rule keeps the base, for every seed.
    let rt = template_of(&[
        ("FakeFlippers", TemplateState::CHANCE_PER_THOUSAND(950)),
        ("OverworldClipping", TemplateState::USE_DEFAULT),
    ]);
    let base = nmg_rules();
    let mut rng = SmallRng::seed_from_u64(1729);
    let r = rt.apply_with_rng(&base, "scenario".to_string(), &mut rng);
    assert_eq!(IsAllowed::ALLOWED, r.get(FAKE_FLIPPERS));
    assert_eq!(IsAllowed::DISALLOWED, r.get(OVERWORLD_CLIPPING));
}

#[test]
fn test_golden_resolution() {
    // Chance rules on disallowed-base techniques are roll-sensitive; this
    // pins one resolution so a change in draw order or roll arithmetic is
    // caught.
    let rt = template_of(&[
        ("SaveAndQuit", TemplateState::CHANCE_PER_THOUSAND(500)),
        ("OverworldClipping", TemplateState::CHANCE_PER_THOUSAND(500)),
        ("OverworldYBA", TemplateState::CHANCE_PER_THOUSAND(500)),
        ("HookShopping", TemplateState::CHANCE_PER_THOUSAND(500)),
        ("UnderworldYBA", TemplateState::CHANCE_PER_THOUSAND(500)),
    ]);
    let base = nmg_rules();
    let mut rng = SmallRng::seed_from_u64(42);
    let r = rt.apply_with_rng(&base, "golden".to_string(), &mut rng);
    assert_eq!(IsAllowed::DISALLOWED, r.get(SAVE_AND_QUIT));
    assert_eq!(IsAllowed::DISALLOWED, r.get(OVERWORLD_CLIPPING));
    assert_eq!(IsAllowed::DISALLOWED, r.get(6));
    assert_eq!(IsAllowed::ALLOWED, r.get(11));
    assert_eq!(IsAllowed::ALLOWED, r.get(25));
}
