use chrono::Datelike;
use weekly_rulesets::weekly::{
    day_to_nice_string, format_civil_date, get_weekly_ruleset, month_name, most_recent_sunday,
    saved_weeklies_dir, seed_for, weekly_file_path, weekly_template, Day, WEEK_SEED_OFFSET,
};
use weekly_rulesets::techniques::TECHNIQUE_COUNT;

fn day_of_ymd(y: i32, m: u32, d: u32) -> Day {
    let date = chrono::NaiveDate::from_ymd_opt(y, m, d).unwrap();
    Day { num: date.num_days_from_ce() as u32 }
}

#[test]
fn test_day_model_matches_calendar_weekdays() {
    // 2023-01-01 was a Sunday; the model holds Sundays at multiples of 7.
    let sunday = day_of_ymd(2023, 1, 1);
    assert_eq!(chrono::Weekday::Sun, chrono::NaiveDate::from_ymd_opt(2023, 1, 1).unwrap().weekday());
    assert_eq!(0, sunday.num % 7);
}

#[test]
fn test_most_recent_sunday_walks_back() {
    let sunday = day_of_ymd(2023, 1, 1);
    for offset in 0..7u32 {
        let day = Day { num: sunday.num + offset };
        assert_eq!(sunday, most_recent_sunday(day));
    }
    let next_sunday = Day { num: sunday.num + 7 };
    assert_eq!(next_sunday, most_recent_sunday(next_sunday));
}

#[test]
fn test_seed_for_is_offset_day_number() {
    let d = Day { num: 738155 };
    assert_eq!(738155 + WEEK_SEED_OFFSET, seed_for(d));
    assert_ne!(seed_for(Day { num: 738155 }), seed_for(Day { num: 738162 }));
}

#[test]
fn test_month_name_all_months() {
    let names = [
        "January", "February", "March", "April", "May", "June", "July", "August", "September",
        "October", "November", "December",
    ];
    for m in 1..=12u32 {
        assert_eq!(names[(m - 1) as usize], month_name(m));
    }
}

#[test]
fn test_format_civil_date() {
    assert_eq!("January 1, 2021", format_civil_date(2021, 1, 1));
    assert_eq!("December 31, 1999", format_civil_date(1999, 12, 31));
}

#[test]
fn test_day_to_nice_string_matches_calendar() {
    assert_eq!("January 1, 2021", day_to_nice_string(&day_of_ymd(2021, 1, 1)));
    assert_eq!("September 3, 1999", day_to_nice_string(&day_of_ymd(1999, 9, 3)));
    assert_eq!("February 29, 2024", day_to_nice_string(&day_of_ymd(2024, 2, 29)));
}

#[test]
fn test_saved_weeklies_dir_and_file_path() {
    assert_eq!("rulesets/weeklies", saved_weeklies_dir("rulesets"));
    assert_eq!(
        "rulesets/weeklies/738155.json",
        weekly_file_path("rulesets/weeklies", Day { num: 738155 })
    );
}

#[test]
fn test_weekly_template_is_complete() {
    assert_eq!(TECHNIQUE_COUNT, weekly_template().states.len());
}

#[test]
fn test_weekly_ruleset_is_stable_within_a_week() {
    let sunday = day_of_ymd(2023, 1, 1);
    let first = get_weekly_ruleset(sunday);
    assert_eq!("Weekly", first.name);
    assert_eq!(TECHNIQUE_COUNT, first.values.len());
    for offset in 0..7u32 {
        let again = get_weekly_ruleset(Day { num: sunday.num + offset });
        assert_eq!(first.values, again.values);
    }
}

#[test]
fn test_weekly_golden() {
    let r = get_weekly_ruleset(day_of_ymd(2023, 1, 4));
    let texts: Vec<&str> = r.values.iter().map(|v| v.as_text()).collect();
    // Pinned once from a run of this suite: for this week's seed every
    // chance rule fell back to the NMG base value.
    let expected = vec![
        "DISALLOWED", "ALLOWED", "ALLOWED", "ALLOWED", "ALLOWED", "DISALLOWED", "DISALLOWED",
        "ALLOWED", "DISALLOWED", "DISALLOWED", "UNSPECIFIED", "DISALLOWED", "DISALLOWED",
        "DISALLOWED", "DISALLOWED", "ALLOWED", "DISALLOWED", "DISALLOWED", "DISALLOWED",
        "ALLOWED", "ALLOWED", "UNSPECIFIED", "DISALLOWED", "DISALLOWED", "DISALLOWED",
        "DISALLOWED",
    ];
    assert_eq!(expected, texts);
}
