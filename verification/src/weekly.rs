//! Weekly selection logic: the calendar week boundary, the seed it
//! determines, and the hand-authored weekly template.
//!
//! A day is modelled as its count of days since the proleptic Gregorian
//! epoch, as chrono counts them: day 1 is January 1 of year 1, a Monday.
//! Day 0 is therefore a Sunday, and so is every day whose number is a
//! multiple of seven.

use vstd::prelude::*;
use vstd::string::StringExecFns;
use chrono::Datelike;
use crate::legality::IsAllowed;
use crate::rules::TemplateState;
use crate::rules::nmg_legalities;
use crate::rules::nmg_rules;
use crate::strutil::append_decimal;
use crate::strutil::dec_spec;
use crate::techniques::Ruleset;
use crate::techniques::RulesetTemplate;
use crate::techniques::TECHNIQUE_COUNT;
use crate::techniques::resolved_seq;
use crate::techniques::valid_rolls;

verus! {

/// The latest day number this module works with (around the year 8200):
/// far beyond any date the weekly schedule will meet, and far inside the
/// calendar library's own range.
pub const DAY_LIMIT: u32 = 3000000;

/// Added to a boundary day's number to form the seed, so that no boundary
/// seeds the generator with zero.
pub const WEEK_SEED_OFFSET: u64 = 24301;

/// A calendar date, as a count of days since the proleptic Gregorian
/// epoch: day 1 is January 1 of year 1.
#[derive(Copy, Clone, PartialEq, Eq, Structural, Debug)]
pub struct Day {
    pub num: u32,
}

impl Day {
    pub open spec fn wf(&self) -> bool {
        self.num <= DAY_LIMIT
    }
}

/// Day 0 is a Sunday, so the Sundays are exactly the multiples of seven.
pub open spec fn is_sunday(d: Day) -> bool {
    d.num % 7 == 0
}

/// The most recent Sunday on or before `today`: walks backward one day at
/// a time, at most six steps, until the weekday is Sunday.
pub fn most_recent_sunday(today: Day) -> (r: Day)
    ensures
        r.num == today.num - today.num % 7,
        is_sunday(r),
        r.num <= today.num < r.num + 7,
        today.wf() ==> r.wf(),
{
    let mut n = today.num;
    while n % 7 != 0
        invariant
            n <= today.num,
            n % 7 <= today.num % 7,
            today.num - n == today.num % 7 - n % 7,
        decreases n,
    {
        proof {
            assert((n - 1) % 7 == n % 7 - 1) by (nonlinear_arith)
                requires
                    n % 7 != 0,
                    n >= 1,
                    n <= u32::MAX,
            ;
        }
        n = n - 1;
    }
    Day { num: n }
}

/// The seed a boundary day determines.
pub open spec fn seed_spec(d: Day) -> u64 {
    ((d.num as u64) + WEEK_SEED_OFFSET) as u64
}

/// The seed for a week boundary: a pure function of the day number, so the
/// same boundary always reproduces the same resolved ruleset.
pub fn seed_for(d: Day) -> (s: u64)
    ensures
        s == seed_spec(d),
{
    (d.num as u64) + WEEK_SEED_OFFSET
}

/// Week stability: every day in the window from a week boundary through
/// the six days after it walks back to that same boundary.
pub proof fn lemma_week_stability(d1: Day, d2: Day)
    requires
        d1.num - d1.num % 7 <= d2.num <= d1.num - d1.num % 7 + 6,
    ensures
        d2.num - d2.num % 7 == d1.num - d1.num % 7,
{
    let b = d1.num - d1.num % 7;
    assert(b % 7 == 0) by (nonlinear_arith)
        requires
            b == d1.num - d1.num % 7,
            d1.num <= u32::MAX,
    ;
    let k = d2.num - b;
    assert(d2.num % 7 == k) by (nonlinear_arith)
        requires
            b % 7 == 0,
            0 <= k <= 6,
            d2.num == b + k,
    ;
}

/// One week, one seed: two days that share a week boundary determine the
/// same seed, so the ruleset published within a week is reproducible.
pub proof fn lemma_weekly_seed_stable(d1: Day, d2: Day)
    requires
        d1.num - d1.num % 7 <= d2.num <= d1.num - d1.num % 7 + 6,
    ensures
        seed_spec((Day { num: (d2.num - d2.num % 7) as u32 })) == seed_spec(
            (Day { num: (d1.num - d1.num % 7) as u32 }),
        ),
{
    lemma_week_stability(d1, d2);
}

/// Distinct week boundaries determine distinct seeds.
pub proof fn lemma_seed_injective(b1: Day, b2: Day)
    requires
        b1.num != b2.num,
    ensures
        seed_spec(b1) != seed_spec(b2),
{
}

/// The names of the twelve months.
pub open spec fn month_name_spec(m: int) -> Seq<char> {
    if m == 1 {
        "January"@
    } else if m == 2 {
        "February"@
    } else if m == 3 {
        "March"@
    } else if m == 4 {
        "April"@
    } else if m == 5 {
        "May"@
    } else if m == 6 {
        "June"@
    } else if m == 7 {
        "July"@
    } else if m == 8 {
        "August"@
    } else if m == 9 {
        "September"@
    } else if m == 10 {
        "October"@
    } else if m == 11 {
        "November"@
    } else {
        "December"@
    }
}

/// The English name of month `m`.
pub fn month_name(m: u32) -> (r: &'static str)
    requires
        1 <= m <= 12,
    ensures
        r@ == month_name_spec(m as int),
{
    match m {
        1 => "January",
        2 => "February",
        3 => "March",
        4 => "April",
        5 => "May",
        6 => "June",
        7 => "July",
        8 => "August",
        9 => "September",
        10 => "October",
        11 => "November",
        _ => "December",
    }
}

/// The display text of a civil date, e.g. a first of January as
/// `January 1, 2021`.
pub open spec fn civil_text_spec(y: nat, m: int, d: nat) -> Seq<char> {
    month_name_spec(m) + " "@ + dec_spec(d) + ", "@ + dec_spec(y)
}

/// Renders a civil date as its display text.
pub fn format_civil_date(year: u32, month: u32, day: u32) -> (r: String)
    requires
        1 <= month <= 12,
    ensures
        r@ == civil_text_spec(year as nat, month as int, day as nat),
{
    let mut s = String::from_str(month_name(month));
    s.append(" ");
    append_decimal(&mut s, day);
    s.append(", ");
    append_decimal(&mut s, year);
    proof {
        assert(s@ =~= civil_text_spec(year as nat, month as int, day as nat));
    }
    s
}

/// The civil date (year, month, day) of a day number, in the proleptic
/// Gregorian calendar.
pub uninterp spec fn civil_of_day(num: u32) -> (int, int, int);

/// Relies on chrono's `NaiveDate::from_num_days_from_ce_opt` (day 1 is
/// January 1 of year 1; in range for every day number up to `DAY_LIMIT`)
/// and on `Datelike::year`/`month`/`day` (month in 1..=12, day in 1..=31,
/// and a positive year for any day number at least 1).
#[verifier::external_body]
fn civil_from_day(num: u32) -> (r: (u32, u32, u32))
    requires
        1 <= num <= DAY_LIMIT,
    ensures
        (r.0 as int, r.1 as int, r.2 as int) == civil_of_day(num),
        1 <= r.0,
        1 <= r.1 <= 12,
        1 <= r.2 <= 31,
{
    let date = chrono::NaiveDate::from_num_days_from_ce_opt(num as i32).unwrap();
    (date.year() as u32, date.month(), date.day())
}

/// The display text of a day number's civil date.
pub open spec fn nice_day_text(num: u32) -> Seq<char> {
    civil_text_spec(
        civil_of_day(num).0 as nat,
        civil_of_day(num).1,
        civil_of_day(num).2 as nat,
    )
}

/// Renders a day as its civil date's display text.
pub fn day_to_nice_string(day: &Day) -> (r: String)
    requires
        1 <= day.num,
        day.wf(),
    ensures
        r@ == nice_day_text(day.num),
{
    let (y, m, d) = civil_from_day(day.num);
    format_civil_date(y, m, d)
}

/// The directory that holds saved weekly rulesets, under the given root.
pub fn saved_weeklies_dir(root: &str) -> (p: String)
    ensures
        p@ == root@ + "/weeklies"@,
{
    let mut p = String::from_str(root);
    p.append("/weeklies");
    p
}

/// The file a weekly ruleset for the given boundary day is saved under, in
/// the given directory.
pub fn weekly_file_path(dir: &str, day: Day) -> (p: String)
    ensures
        p@ == dir@ + "/"@ + dec_spec(day.num as nat) + ".json"@,
{
    let mut p = String::from_str(dir);
    p.append("/");
    append_decimal(&mut p, day.num);
    p.append(".json");
    proof {
        assert(p@ =~= dir@ + "/"@ + dec_spec(day.num as nat) + ".json"@);
    }
    p
}

/// The hand-authored weekly template, in catalogue order: the knob that
/// shapes each week's rulesets, changed only by editing this literal.
pub open spec fn weekly_template_states() -> Seq<TemplateState> {
    seq![
        TemplateState::CHANCE_PER_THOUSAND(900),
        TemplateState::STATIC(IsAllowed::ALLOWED),
        TemplateState::STATIC(IsAllowed::ALLOWED),
        TemplateState::STATIC(IsAllowed::ALLOWED),
        TemplateState::STATIC(IsAllowed::ALLOWED),
        TemplateState::CHANCE_PER_THOUSAND(950),
        TemplateState::CHANCE_PER_THOUSAND(950),
        TemplateState::STATIC(IsAllowed::ALLOWED),
        TemplateState::CHANCE_PER_THOUSAND(975),
        TemplateState::CHANCE_PER_THOUSAND(950),
        TemplateState::CHANCE_PER_THOUSAND(900),
        TemplateState::CHANCE_PER_THOUSAND(950),
        TemplateState::CHANCE_PER_THOUSAND(975),
        TemplateState::CHANCE_PER_THOUSAND(950),
        TemplateState::CHANCE_PER_THOUSAND(950),
        TemplateState::STATIC(IsAllowed::ALLOWED),
        TemplateState::CHANCE_PER_THOUSAND(950),
        TemplateState::CHANCE_PER_THOUSAND(950),
        TemplateState::CHANCE_PER_THOUSAND(950),
        TemplateState::STATIC(IsAllowed::ALLOWED),
        TemplateState::STATIC(IsAllowed::ALLOWED),
        TemplateState::CHANCE_PER_THOUSAND(900),
        TemplateState::CHANCE_PER_THOUSAND(950),
        TemplateState::CHANCE_PER_THOUSAND(975),
        TemplateState::CHANCE_PER_THOUSAND(975),
        TemplateState::CHANCE_PER_THOUSAND(950),
    ]
}

/// The hand-authored weekly template.
pub fn weekly_template() -> (rt: RulesetTemplate)
    ensures
        rt.wf(),
        rt.states@ == weekly_template_states(),
{
    let states: Vec<TemplateState> = vec![
        TemplateState::CHANCE_PER_THOUSAND(900),
        TemplateState::STATIC(IsAllowed::ALLOWED),
        TemplateState::STATIC(IsAllowed::ALLOWED),
        TemplateState::STATIC(IsAllowed::ALLOWED),
        TemplateState::STATIC(IsAllowed::ALLOWED),
        TemplateState::CHANCE_PER_THOUSAND(950),
        TemplateState::CHANCE_PER_THOUSAND(950),
        TemplateState::STATIC(IsAllowed::ALLOWED),
        TemplateState::CHANCE_PER_THOUSAND(975),
        TemplateState::CHANCE_PER_THOUSAND(950),
        TemplateState::CHANCE_PER_THOUSAND(900),
        TemplateState::CHANCE_PER_THOUSAND(950),
        TemplateState::CHANCE_PER_THOUSAND(975),
        TemplateState::CHANCE_PER_THOUSAND(950),
        TemplateState::CHANCE_PER_THOUSAND(950),
        TemplateState::STATIC(IsAllowed::ALLOWED),
        TemplateState::CHANCE_PER_THOUSAND(950),
        TemplateState::CHANCE_PER_THOUSAND(950),
        TemplateState::CHANCE_PER_THOUSAND(950),
        TemplateState::STATIC(IsAllowed::ALLOWED),
        TemplateState::STATIC(IsAllowed::ALLOWED),
        TemplateState::CHANCE_PER_THOUSAND(900),
        TemplateState::CHANCE_PER_THOUSAND(950),
        TemplateState::CHANCE_PER_THOUSAND(975),
        TemplateState::CHANCE_PER_THOUSAND(975),
        TemplateState::CHANCE_PER_THOUSAND(950),
    ];
    proof {
        assert(states@ =~= weekly_template_states());
    }
    RulesetTemplate { states }
}

/// This week's ruleset: the weekly template resolved against the NMG base
/// ruleset with a generator seeded from `today`'s week boundary, named
/// `Weekly`. Within one week the boundary, and so the seed, never changes.
pub fn get_weekly_ruleset(today: Day) -> (r: Ruleset)
    requires
        today.wf(),
    ensures
        r.wf(),
        r.name@ == "Weekly"@,
        exists|rolls: Seq<u16>|
            #[trigger] valid_rolls(rolls) && r.values@ == resolved_seq(
                weekly_template_states(),
                nmg_legalities(),
                rolls,
            ),
        forall|i: int|
            0 <= i < TECHNIQUE_COUNT ==> ((#[trigger] weekly_template_states()[i]) matches
                TemplateState::STATIC(v) ==> r.values@[i] == v),
{
    let template = weekly_template();
    let base = nmg_rules();
    let boundary = most_recent_sunday(today);
    let seed = seed_for(boundary);
    let mut rng = crate::rng::seed_rng(seed);
    template.apply_with_rng(&base, String::from_str("Weekly"), &mut rng)
}

} // verus!
