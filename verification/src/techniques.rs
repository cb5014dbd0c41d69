//! The technique catalogue and the complete per-technique structures:
//! resolved rulesets and rule templates.

use vstd::prelude::*;
use crate::legality::IsAllowed;
use crate::rules::TemplateState;
use crate::strutil::str_eq;

verus! {

/// Number of techniques in the catalogue.
pub const TECHNIQUE_COUNT: usize = 26;

/// The fixed, ordered catalogue of technique names. Every complete
/// per-technique structure has exactly one entry per name, in this order.
pub open spec fn catalogue() -> Seq<Seq<char>> {
    seq![
        "SaveAndQuit"@,
        "FakeFlippers"@,
        "BombJump"@,
        "SilverlessGanon"@,
        "ItemDash"@,
        "OverworldClipping"@,
        "OverworldYBA"@,
        "SuperSpeed"@,
        "OverworldEG"@,
        "Misslotting"@,
        "HeraPot"@,
        "HookShopping"@,
        "LayerDisparity"@,
        "OverworldSwimmyG"@,
        "UnderworldClipping"@,
        "AncillaOverload"@,
        "DiverDown"@,
        "DoorJukes"@,
        "DoorStateExtension"@,
        "HammerJump"@,
        "Hover"@,
        "OverworldBunnyRevival"@,
        "OverworldMirrorGlitches"@,
        "SomariaTransitionCorruption"@,
        "UnderworldDeathHole"@,
        "UnderworldYBA"@,
    ]
}

/// The catalogue in its display order, as executable values.
pub fn technique_names() -> (r: Vec<&'static str>)
    ensures
        r@.len() == TECHNIQUE_COUNT,
        forall|i: int| 0 <= i < TECHNIQUE_COUNT ==> r@[i]@ == #[trigger] catalogue()[i],
{
    let r: Vec<&'static str> = vec![
        "SaveAndQuit",
        "FakeFlippers",
        "BombJump",
        "SilverlessGanon",
        "ItemDash",
        "OverworldClipping",
        "OverworldYBA",
        "SuperSpeed",
        "OverworldEG",
        "Misslotting",
        "HeraPot",
        "HookShopping",
        "LayerDisparity",
        "OverworldSwimmyG",
        "UnderworldClipping",
        "AncillaOverload",
        "DiverDown",
        "DoorJukes",
        "DoorStateExtension",
        "HammerJump",
        "Hover",
        "OverworldBunnyRevival",
        "OverworldMirrorGlitches",
        "SomariaTransitionCorruption",
        "UnderworldDeathHole",
        "UnderworldYBA",
    ];
    r
}

/// Whether `name` is a catalogue technique name.
pub fn is_technique_name(name: &str) -> (r: bool)
    ensures
        r == catalogue().contains(name@),
{
    let names = technique_names();
    let mut i: usize = 0;
    while i < names.len()
        invariant
            names@.len() == TECHNIQUE_COUNT,
            forall|j: int| 0 <= j < TECHNIQUE_COUNT ==> names@[j]@ == #[trigger] catalogue()[j],
            i <= TECHNIQUE_COUNT,
            forall|j: int| 0 <= j < i ==> #[trigger] catalogue()[j] != name@,
        decreases names@.len() - i,
    {
        if str_eq(names[i], name) {
            return true;
        }
        i = i + 1;
    }
    proof {
        assert(forall|j: int| 0 <= j < catalogue().len() ==> #[trigger] catalogue()[j] != name@);
    }
    false
}

/// A complete, resolved ruleset: a display name and one legality per
/// catalogue technique, in catalogue order.
#[derive(Clone, Debug)]
pub struct Ruleset {
    pub name: String,
    pub values: Vec<IsAllowed>,
}

impl Ruleset {
    /// One legality per catalogue technique: no technique missing, none
    /// duplicated, none from outside the catalogue.
    pub open spec fn wf(&self) -> bool {
        self.values@.len() == TECHNIQUE_COUNT
    }

    /// The legality of the technique at catalogue position `i`.
    pub fn get(&self, i: usize) -> (r: IsAllowed)
        requires
            self.wf(),
            i < TECHNIQUE_COUNT,
        ensures
            r == self.values@[i as int],
    {
        self.values[i]
    }
}

/// A complete rule template: one rule per catalogue technique, in catalogue
/// order.
#[derive(Clone, Debug)]
pub struct RulesetTemplate {
    pub states: Vec<TemplateState>,
}

/// The first value listed under key `k`, if any.
pub open spec fn assoc_lookup<V>(ws: Seq<(String, V)>, k: Seq<char>) -> Option<V>
    decreases ws.len(),
{
    if ws.len() == 0 {
        None
    } else if ws[0].0@ == k {
        Some(ws[0].1)
    } else {
        assoc_lookup(ws.drop_first(), k)
    }
}

/// The rule a sparse override listing assigns to catalogue position `i`:
/// the listed rule where one is listed, else deferral to the base ruleset.
pub open spec fn template_entry(ws: Seq<(String, TemplateState)>, i: int) -> TemplateState {
    match assoc_lookup(ws, catalogue()[i]) {
        Some(ts) => ts,
        None => TemplateState::USE_DEFAULT,
    }
}

fn lookup_state(ws: &Vec<(String, TemplateState)>, name: &str) -> (r: Option<TemplateState>)
    ensures
        r == assoc_lookup(ws@, name@),
{
    let mut i: usize = 0;
    proof {
        assert(ws@.skip(0) =~= ws@);
    }
    while i < ws.len()
        invariant
            i <= ws@.len(),
            assoc_lookup(ws@, name@) == assoc_lookup(ws@.skip(i as int), name@),
        decreases ws@.len() - i,
    {
        if str_eq(ws[i].0.as_str(), name) {
            proof {
                assert(ws@.skip(i as int)[0] == ws@[i as int]);
            }
            return Some(ws[i].1);
        }
        proof {
            assert(ws@.skip(i as int).drop_first() =~= ws@.skip(i as int + 1));
        }
        i = i + 1;
    }
    None
}

impl RulesetTemplate {
    /// One rule per catalogue technique.
    pub open spec fn wf(&self) -> bool {
        self.states@.len() == TECHNIQUE_COUNT
    }

    /// The rule for the technique at catalogue position `i`.
    pub fn get(&self, i: usize) -> (r: TemplateState)
        requires
            self.wf(),
            i < TECHNIQUE_COUNT,
        ensures
            r == self.states@[i as int],
    {
        self.states[i]
    }

    /// Builds the template that a sparse override listing describes: every
    /// catalogue technique not listed defers to the base ruleset.
    pub fn from_template_states(ws: &Vec<(String, TemplateState)>) -> (rt: RulesetTemplate)
        ensures
            rt.wf(),
            forall|i: int| 0 <= i < TECHNIQUE_COUNT ==> rt.states@[i] == #[trigger] template_entry(
                ws@,
                i,
            ),
    {
        let names = technique_names();
        let mut states: Vec<TemplateState> = Vec::new();
        let mut t: usize = 0;
        while t < TECHNIQUE_COUNT
            invariant
                names@.len() == TECHNIQUE_COUNT,
                forall|j: int| 0 <= j < TECHNIQUE_COUNT ==> names@[j]@ == #[trigger] catalogue()[j],
                t <= TECHNIQUE_COUNT,
                states@.len() == t,
                forall|j: int| 0 <= j < t ==> states@[j] == #[trigger] template_entry(ws@, j),
            decreases TECHNIQUE_COUNT - t,
        {
            match lookup_state(ws, names[t]) {
                Some(ts) => states.push(ts),
                None => states.push(TemplateState::USE_DEFAULT),
            }
            t = t + 1;
        }
        RulesetTemplate { states }
    }
}

/// The outcome of one probabilistic rule: a chance of `p` in a thousand of
/// keeping the base value. The technique is force-allowed exactly when the
/// roll exceeds `p`; otherwise the base ruleset's value stands.
pub open spec fn chance_outcome(p: u16, roll: u16, base: IsAllowed) -> IsAllowed {
    if p < roll {
        IsAllowed::ALLOWED
    } else {
        base
    }
}

/// The resolved legality of one technique: `roll` is read only by a
/// probabilistic rule.
pub open spec fn rule_outcome(state: TemplateState, base: IsAllowed, roll: u16) -> IsAllowed {
    match state {
        TemplateState::STATIC(v) => v,
        TemplateState::USE_DEFAULT => base,
        TemplateState::CHANCE_PER_THOUSAND(p) => chance_outcome(p, roll, base),
    }
}

/// How many rolls the first `upto` entries of a template consume: one per
/// probabilistic rule, none otherwise.
pub open spec fn chance_count(states: Seq<TemplateState>, upto: int) -> int
    decreases upto,
{
    if upto <= 0 {
        0
    } else {
        chance_count(states, upto - 1) + (if states[upto - 1] is CHANCE_PER_THOUSAND {
            1int
        } else {
            0int
        })
    }
}

/// The resolved legality at catalogue position `i`, with rolls consumed in
/// catalogue order, one per probabilistic rule.
pub open spec fn resolved_at(
    states: Seq<TemplateState>,
    base: Seq<IsAllowed>,
    rolls: Seq<u16>,
    i: int,
) -> IsAllowed {
    rule_outcome(
        states[i],
        base[i],
        if states[i] is CHANCE_PER_THOUSAND {
            rolls[chance_count(states, i)]
        } else {
            0u16
        },
    )
}

/// The complete resolved ruleset as a function of template, base and rolls.
pub open spec fn resolved_seq(
    states: Seq<TemplateState>,
    base: Seq<IsAllowed>,
    rolls: Seq<u16>,
) -> Seq<IsAllowed> {
    Seq::new(states.len(), |i: int| resolved_at(states, base, rolls, i))
}

/// Every roll is in `[0, 1000)`.
pub open spec fn valid_rolls(rolls: Seq<u16>) -> bool {
    forall|i: int| 0 <= i < rolls.len() ==> rolls[i] < 1000
}

proof fn lemma_chance_count_mono(states: Seq<TemplateState>, a: int, b: int)
    requires
        a <= b,
    ensures
        chance_count(states, a) <= chance_count(states, b),
    decreases b - a,
{
    if a < b {
        lemma_chance_count_mono(states, a, b - 1);
    }
}

proof fn lemma_chance_roll_index(states: Seq<TemplateState>, i: int, n: int)
    requires
        0 <= i < n,
        states[i] is CHANCE_PER_THOUSAND,
    ensures
        0 <= chance_count(states, i) < chance_count(states, n),
{
    lemma_chance_count_mono(states, 0, i);
    lemma_chance_count_mono(states, i + 1, n);
}

/// Determinism of resolution: the resolved ruleset is a pure function of
/// the template, the base ruleset and the roll sequence, so two resolutions
/// fed the same three inputs agree everywhere.
pub proof fn lemma_resolution_deterministic(
    states: Seq<TemplateState>,
    base: Seq<IsAllowed>,
    rolls: Seq<u16>,
    r1: Seq<IsAllowed>,
    r2: Seq<IsAllowed>,
)
    requires
        r1 == resolved_seq(states, base, rolls),
        r2 == resolved_seq(states, base, rolls),
    ensures
        r1 == r2,
{
}

/// Boundary of the probabilistic rule at full weight: a chance of 1000 in
/// a thousand never force-allows, because no roll in `[0, 1000)` exceeds
/// it, so the base value always stands.
pub proof fn lemma_chance_full_weight_keeps_base(roll: u16, base: IsAllowed)
    requires
        roll < 1000,
    ensures
        chance_outcome(1000, roll, base) == base,
{
}

/// Boundary of the probabilistic rule at zero weight: a chance of 0 in a
/// thousand force-allows on every nonzero roll and keeps the base value
/// only on a roll of exactly zero.
pub proof fn lemma_chance_zero_weight(roll: u16, base: IsAllowed)
    requires
        roll < 1000,
    ensures
        chance_outcome(0, roll, base) == (if roll == 0 {
            base
        } else {
            IsAllowed::ALLOWED
        }),
{
}

/// Resolves one rule against a base value, `roll` being the one random
/// sample a probabilistic rule consumes.
pub fn apply_rule(default: &IsAllowed, state: &TemplateState, roll: u16) -> (r: IsAllowed)
    ensures
        r == rule_outcome(*state, *default, roll),
{
    match state {
        TemplateState::STATIC(v) => *v,
        TemplateState::USE_DEFAULT => *default,
        TemplateState::CHANCE_PER_THOUSAND(p) => {
            if *p < roll {
                IsAllowed::ALLOWED
            } else {
                *default
            }
        },
    }
}

impl RulesetTemplate {
    /// Resolves one rule, drawing the roll from `rng` exactly when the rule
    /// is probabilistic.
    pub fn apply_rule_with_rng(
        &self,
        default: &IsAllowed,
        state: &TemplateState,
        rng: &mut rand::rngs::SmallRng,
    ) -> (r: IsAllowed)
        ensures
            (*state matches TemplateState::STATIC(v) ==> r == v),
            (*state is USE_DEFAULT ==> r == *default),
            (*state matches TemplateState::CHANCE_PER_THOUSAND(p) ==> exists|roll: u16|
                roll < 1000 && r == #[trigger] chance_outcome(p, roll, *default)),
    {
        match state {
            TemplateState::CHANCE_PER_THOUSAND(_) => {
                let roll = crate::rng::roll_per_thousand(rng);
                let r = apply_rule(default, state, roll);
                proof {
                    assert(*state matches TemplateState::CHANCE_PER_THOUSAND(p) ==> r
                        == chance_outcome(p, roll, *default));
                }
                r
            },
            _ => apply_rule(default, state, 0),
        }
    }

    /// Resolves the whole template against a base ruleset, reading the rolls
    /// from an explicit sequence: the resolved ruleset is pinned exactly by
    /// the template, the base and the rolls, and carries the caller's name.
    /// Every catalogue technique gets exactly one resolved legality.
    pub fn apply_with_rolls(&self, defaults: &Ruleset, name: String, rolls: &Vec<u16>) -> (r:
        Ruleset)
        requires
            self.wf(),
            defaults.wf(),
            rolls@.len() >= chance_count(self.states@, TECHNIQUE_COUNT as int),
        ensures
            r.wf(),
            r.name@ == name@,
            r.values@ == resolved_seq(self.states@, defaults.values@, rolls@),
            forall|i: int|
                0 <= i < TECHNIQUE_COUNT && self.states@[i] is USE_DEFAULT ==> r.values@[i]
                    == defaults.values@[i],
            forall|i: int|
                0 <= i < TECHNIQUE_COUNT ==> ((#[trigger] self.states@[i]) matches
                    TemplateState::STATIC(v) ==> r.values@[i] == v),
    {
        let n_rolls = rolls.len();
        let mut values: Vec<IsAllowed> = Vec::new();
        let mut k: usize = 0;
        let mut t: usize = 0;
        while t < TECHNIQUE_COUNT
            invariant
                self.wf(),
                defaults.wf(),
                n_rolls == rolls@.len(),
                rolls@.len() >= chance_count(self.states@, TECHNIQUE_COUNT as int),
                t <= TECHNIQUE_COUNT,
                k <= n_rolls,
                k == chance_count(self.states@, t as int),
                values@.len() == t,
                forall|j: int|
                    0 <= j < t ==> values@[j] == #[trigger] resolved_at(
                        self.states@,
                        defaults.values@,
                        rolls@,
                        j,
                    ),
            decreases TECHNIQUE_COUNT - t,
        {
            let st = self.states[t];
            let base = defaults.values[t];
            let v = match st {
                TemplateState::CHANCE_PER_THOUSAND(_) => {
                    proof {
                        lemma_chance_roll_index(self.states@, t as int, TECHNIQUE_COUNT as int);
                    }
                    let roll = rolls[k];
                    k = k + 1;
                    apply_rule(&base, &st, roll)
                },
                _ => apply_rule(&base, &st, 0),
            };
            values.push(v);
            t = t + 1;
        }
        let r = Ruleset { name, values };
        proof {
            assert(r.values@ =~= resolved_seq(self.states@, defaults.values@, rolls@));
        }
        r
    }

    /// Resolves the whole template against a base ruleset, drawing one roll
    /// per probabilistic rule from `rng`, in catalogue order. The result is
    /// the pure resolution of some sequence of in-range rolls; rules that
    /// consume no roll are pinned outright.
    pub fn apply_with_rng(
        &self,
        defaults: &Ruleset,
        name: String,
        rng: &mut rand::rngs::SmallRng,
    ) -> (r: Ruleset)
        requires
            self.wf(),
            defaults.wf(),
        ensures
            r.wf(),
            r.name@ == name@,
            exists|rolls: Seq<u16>|
                #[trigger] valid_rolls(rolls) && r.values@ == resolved_seq(
                    self.states@,
                    defaults.values@,
                    rolls,
                ),
            forall|i: int|
                0 <= i < TECHNIQUE_COUNT && self.states@[i] is USE_DEFAULT ==> r.values@[i]
                    == defaults.values@[i],
            forall|i: int|
                0 <= i < TECHNIQUE_COUNT ==> ((#[trigger] self.states@[i]) matches
                    TemplateState::STATIC(v) ==> r.values@[i] == v),
            forall|i: int|
                0 <= i < TECHNIQUE_COUNT ==> ((#[trigger] self.states@[i]) matches
                    TemplateState::CHANCE_PER_THOUSAND(p) ==> ((r.values@[i] == IsAllowed::ALLOWED
                    || r.values@[i] == defaults.values@[i]) && (p >= 999 ==> r.values@[i]
                    == defaults.values@[i]))),
    {
        let mut rolls: Vec<u16> = Vec::new();
        let mut t: usize = 0;
        while t < TECHNIQUE_COUNT
            invariant
                self.wf(),
                t <= TECHNIQUE_COUNT,
                rolls@.len() == chance_count(self.states@, t as int),
                valid_rolls(rolls@),
            decreases TECHNIQUE_COUNT - t,
        {
            match self.states[t] {
                TemplateState::CHANCE_PER_THOUSAND(_) => {
                    let roll = crate::rng::roll_per_thousand(rng);
                    rolls.push(roll);
                },
                _ => {},
            }
            t = t + 1;
        }
        let r = self.apply_with_rolls(defaults, name, &rolls);
        proof {
            assert(valid_rolls(rolls@) && r.values@ == resolved_seq(
                self.states@,
                defaults.values@,
                rolls@,
            ));
            assert(forall|i: int|
                0 <= i < TECHNIQUE_COUNT && self.states@[i] is CHANCE_PER_THOUSAND
                    ==> #[trigger] resolved_at(self.states@, defaults.values@, rolls@, i)
                    == chance_outcome(
                    self.states@[i]->CHANCE_PER_THOUSAND_0,
                    rolls@[chance_count(self.states@, i)],
                    defaults.values@[i],
                )) by {
                assert forall|i: int|
                    0 <= i < TECHNIQUE_COUNT && self.states@[i] is CHANCE_PER_THOUSAND
                        implies #[trigger] resolved_at(self.states@, defaults.values@, rolls@, i)
                    == chance_outcome(
                    self.states@[i]->CHANCE_PER_THOUSAND_0,
                    rolls@[chance_count(self.states@, i)],
                    defaults.values@[i],
                ) by {
                    lemma_chance_roll_index(self.states@, i, TECHNIQUE_COUNT as int);
                }
            }
            assert forall|i: int|
                0 <= i < TECHNIQUE_COUNT && self.states@[i] is CHANCE_PER_THOUSAND implies ((
                r.values@[i] == IsAllowed::ALLOWED || r.values@[i] == defaults.values@[i]) && (
                self.states@[i]->CHANCE_PER_THOUSAND_0 >= 999 ==> r.values@[i]
                    == defaults.values@[i])) by {
                lemma_chance_roll_index(self.states@, i, TECHNIQUE_COUNT as int);
                assert(rolls@[chance_count(self.states@, i)] < 1000);
            }
        }
        r
    }
}

} // verus!
