use weekly_rulesets::legality::IsAllowed;
use weekly_rulesets::rules::{
    find_default, munge_user_input, parse_weights, InputWeights, TemplateState, UserInputError,
};

fn weights(entries: &[(&str, &str)]) -> Vec<(String, String)> {
    entries.iter().map(|(k, v)| (k.to_string(), v.to_string())).collect()
}

#[test]
fn test_parsing_template_state() {
    assert_eq!(None, TemplateState::_maybe_from_user_input("asdf".to_string()));
    assert_eq!(
        Some(TemplateState::CHANCE_PER_THOUSAND(123)),
        TemplateState::_maybe_from_user_input("123".to_string())
    );
    assert_eq!(None, TemplateState::_maybe_from_user_input("-123".to_string()));
    assert_eq!(None, TemplateState::_maybe_from_user_input("x123x".to_string()));

    assert_eq!(
        Some(TemplateState::STATIC(IsAllowed::ALLOWED)),
        TemplateState::_maybe_from_user_input("true".to_string())
    );
    assert_eq!(
        Some(TemplateState::STATIC(IsAllowed::ALLOWED)),
        TemplateState::_maybe_from_user_input("TRUE".to_string())
    );
    assert_eq!(
        Some(TemplateState::STATIC(IsAllowed::ALLOWED)),
        TemplateState::_maybe_from_user_input("tRuE".to_string())
    );

    assert_eq!(
        Some(TemplateState::STATIC(IsAllowed::DISALLOWED)),
        TemplateState::_maybe_from_user_input("FALSE".to_string())
    );
    assert_eq!(
        Some(TemplateState::STATIC(IsAllowed::DISALLOWED)),
        TemplateState::_maybe_from_user_input("false".to_string())
    );
    assert_eq!(
        Some(TemplateState::STATIC(IsAllowed::DISALLOWED)),
        TemplateState::_maybe_from_user_input("fALse".to_string())
    );

    assert_eq!(
        Some(TemplateState::CHANCE_PER_THOUSAND(69)),
        TemplateState::_maybe_from_user_input("69".to_lowercase())
    );
    assert_eq!(
        Some(TemplateState::CHANCE_PER_THOUSAND(69)),
        TemplateState::_maybe_from_user_input("69%".to_lowercase())
    );
}

#[test]
fn test_parsing_rejects_out_of_range_and_garbage() {
    assert_eq!(None, TemplateState::_maybe_from_user_input("1001".to_string()));
    assert_eq!(None, TemplateState::_maybe_from_user_input("99999999999999999999".to_string()));
    assert_eq!(None, TemplateState::_maybe_from_user_input("".to_string()));
    assert_eq!(None, TemplateState::_maybe_from_user_input("%".to_string()));
    assert_eq!(None, TemplateState::_maybe_from_user_input("69%%".to_string()));
    assert_eq!(None, TemplateState::_maybe_from_user_input("-5".to_string()));
    assert_eq!(
        Some(TemplateState::CHANCE_PER_THOUSAND(1000)),
        TemplateState::_maybe_from_user_input("1000".to_string())
    );
    assert_eq!(
        Some(TemplateState::CHANCE_PER_THOUSAND(0)),
        TemplateState::_maybe_from_user_input("0".to_string())
    );
}

#[test]
fn test_from_user_input_error_message() {
    let err = TemplateState::from_user_input("garbage".to_string()).unwrap_err();
    assert_eq!("Expected \"true\", \"false\", or a number.", err.err);
}

#[test]
fn test_find_defaults() {
    let failed = find_default("blargh".to_string());
    assert!(failed.is_err());

    assert!(find_default("NMGRules".to_string()).is_ok());
}

#[test]
fn test_find_defaults_all_known_names() {
    assert_eq!("NMG", find_default("NMGRules".to_string()).unwrap().name);
    assert_eq!("RMG", find_default("RMGRules".to_string()).unwrap().name);
    assert_eq!("No EG", find_default("NoEGRules".to_string()).unwrap().name);
    assert_eq!("MG", find_default("MGRules".to_string()).unwrap().name);
    let err = find_default("nmgrules".to_string()).unwrap_err();
    assert_eq!("Unknown value for `defaults` field: nmgrules", err.err);
}

#[test]
fn test_parse_weights_bad() {
    let ui = weights(&[("FakeFlippers", "blahhhh")]);
    assert_eq!(
        UserInputError {
            err: "Error parsing user input for FakeFlippers: Expected \"true\", \"false\", or a number."
                .to_string()
        },
        parse_weights(ui).unwrap_err()
    )
}

#[test]
fn test_parse_weights_clean() {
    let ui = weights(&[("FakeFlippers", "69%")]);
    let (parsed, extras) = parse_weights(ui).unwrap();
    assert!(extras.is_none());
    assert_eq!(1, parsed.len());
    assert_eq!("FakeFlippers", parsed[0].0);
    assert_eq!(TemplateState::CHANCE_PER_THOUSAND(69), parsed[0].1);
}

#[test]
fn test_parse_weights_extras() {
    let ui = weights(&[("FakeFlippers", "69%"), ("unused", "who cares")]);
    let (parsed, extras) = parse_weights(ui).unwrap();
    assert_eq!(vec!["unused".to_string()], extras.unwrap());
    assert_eq!(1, parsed.len());
    assert_eq!("FakeFlippers", parsed[0].0);
    assert_eq!(TemplateState::CHANCE_PER_THOUSAND(69), parsed[0].1);
}

#[test]
fn test_parse_weights_unknown_keys_keep_listing_order() {
    let ui = weights(&[("zzz", "1"), ("FakeFlippers", "true"), ("aaa", "2")]);
    let (parsed, extras) = parse_weights(ui).unwrap();
    assert_eq!(vec!["zzz".to_string(), "aaa".to_string()], extras.unwrap());
    assert_eq!(1, parsed.len());
    assert_eq!(TemplateState::STATIC(IsAllowed::ALLOWED), parsed[0].1);
}

#[test]
fn test_munge() {
    let iw = InputWeights {
        name: "a_name".to_string(),
        defaults: "NMGRules".to_string(),
        weights: weights(&[("FakeFlippers", "true")]),
    };

    let (munged, _unknown) = munge_user_input(iw).unwrap();
    assert_eq!("a_name".to_string(), munged.name);
}

#[test]
fn test_munge_unknown_defaults() {
    let iw = InputWeights {
        name: "a_name".to_string(),
        defaults: "blargh".to_string(),
        weights: weights(&[]),
    };
    let err = munge_user_input(iw).unwrap_err();
    assert_eq!("Unknown value for `defaults` field: blargh", err.err);
}

#[test]
fn test_legality_text_round_trip() {
    assert_eq!("ALLOWED", IsAllowed::ALLOWED.as_text());
    assert_eq!("DISALLOWED", IsAllowed::DISALLOWED.as_text());
    assert_eq!("UNSPECIFIED", IsAllowed::UNSPECIFIED.as_text());
}
