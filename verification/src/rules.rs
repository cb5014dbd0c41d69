//! Per-technique template rules and the user override parser.

use vstd::prelude::*;
use vstd::string::StrSliceExecFns;
use vstd::string::StringExecFns;
use crate::legality::IsAllowed;
use crate::techniques::Ruleset;
use crate::techniques::TECHNIQUE_COUNT;
use crate::techniques::technique_names;
use crate::techniques::is_technique_name;
use crate::strutil::seq_eq_ignore_ascii_case;
use crate::strutil::str_eq_ignore_ascii_case;

verus! {

/// The template's instruction for one technique: force a value, re-roll it
/// with a chance given in parts per thousand, or keep the base ruleset's
/// value.
#[allow(non_camel_case_types)]
#[derive(Copy, Clone, PartialEq, Eq, Structural, Debug)]
pub enum TemplateState {
    STATIC(crate::legality::IsAllowed),
    CHANCE_PER_THOUSAND(u16),
    USE_DEFAULT,
}

/// Error for one override value whose text matches neither a boolean word
/// nor a number in range.
#[derive(PartialEq, Eq, Debug)]
pub struct TemplateStateParseError {
    pub err: String,
}

/// Error for a whole override submission: a bad value for a recognized
/// technique, or an unknown base ruleset name.
#[derive(PartialEq, Eq, Debug)]
pub struct UserInputError {
    pub err: String,
}

/// A decimal digit character.
pub open spec fn is_digit_char(c: char) -> bool {
    48 <= c as u32 <= 57
}

/// The numeric value of a decimal digit character.
pub open spec fn digit_of(c: char) -> int {
    c as u32 - 48
}

/// The value of a run of decimal digit characters, most significant first.
pub open spec fn digits_value(s: Seq<char>) -> int
    decreases s.len(),
{
    if s.len() == 0 {
        0
    } else {
        digits_value(s.drop_last()) * 10 + digit_of(s.last())
    }
}

pub open spec fn all_digits(s: Seq<char>) -> bool {
    forall|i: int| 0 <= i < s.len() ==> is_digit_char(#[trigger] s[i])
}

/// The digits of a numeric override text: everything up to an optional
/// trailing percent sign.
pub open spec fn numeric_body(s: Seq<char>) -> Seq<char> {
    if s.len() > 0 && s.last() == '%' {
        s.drop_last()
    } else {
        s
    }
}

/// A nonempty run of digits, optionally followed by one percent sign and
/// nothing else.
pub open spec fn is_numeric_text(s: Seq<char>) -> bool {
    numeric_body(s).len() > 0 && all_digits(numeric_body(s))
}

/// The weight a numeric override text denotes: its digits' value, valid
/// only in `[0, 1000]`.
pub open spec fn numeric_rule_value(s: Seq<char>) -> Option<u16> {
    if is_numeric_text(s) && digits_value(numeric_body(s)) <= 1000 {
        Some(digits_value(numeric_body(s)) as u16)
    } else {
        None
    }
}

/// The rule an override text denotes: a case-insensitive boolean word
/// forces a value, a number in `[0, 1000]` (with optional percent sign)
/// becomes a probabilistic rule, and everything else is rejected.
pub open spec fn parse_rule_spec(s: Seq<char>) -> Option<TemplateState> {
    if seq_eq_ignore_ascii_case(s, "true"@) {
        Some(TemplateState::STATIC(IsAllowed::ALLOWED))
    } else if seq_eq_ignore_ascii_case(s, "false"@) {
        Some(TemplateState::STATIC(IsAllowed::DISALLOWED))
    } else {
        match numeric_rule_value(s) {
            Some(w) => Some(TemplateState::CHANCE_PER_THOUSAND(w)),
            None => None,
        }
    }
}

/// The fixed message reported for an override text that parses to no rule.
pub open spec fn parse_err_spec() -> Seq<char> {
    "Expected \"true\", \"false\", or a number."@
}

/// The fixed message reported for an override text that parses to no rule.
pub fn parse_error_text() -> (r: &'static str)
    ensures
        r@ == parse_err_spec(),
{
    "Expected \"true\", \"false\", or a number."
}

fn parse_numeric(s: &str) -> (r: Option<u16>)
    ensures
        r == numeric_rule_value(s@),
{
    let n = s.unicode_len();
    if n == 0 {
        return None;
    }
    let body_len: usize = if s.get_char(n - 1) == '%' {
        n - 1
    } else {
        n
    };
    proof {
        assert(numeric_body(s@) =~= s@.subrange(0, body_len as int));
    }
    if body_len == 0 {
        return None;
    }
    let mut val: u32 = 0;
    let mut i: usize = 0;
    proof {
        assert(s@.subrange(0, 0) =~= Seq::<char>::empty());
    }
    while i < body_len
        invariant
            body_len <= n,
            n == s@.len(),
            i <= body_len,
            numeric_body(s@) == s@.subrange(0, body_len as int),
            forall|j: int| 0 <= j < i ==> is_digit_char(#[trigger] s@[j]),
            val == (if digits_value(s@.subrange(0, i as int)) > 1000 {
                1001int
            } else {
                digits_value(s@.subrange(0, i as int))
            }),
        decreases body_len - i,
    {
        let c = s.get_char(i);
        let x = c as u32;
        if x < 48 || x > 57 {
            proof {
                assert(numeric_body(s@)[i as int] == s@[i as int]);
                assert(!is_digit_char(s@[i as int]));
            }
            return None;
        }
        let d = x - 48;
        let grown = val * 10 + d;
        let next = if grown > 1000 {
            1001
        } else {
            grown
        };
        proof {
            let pref = s@.subrange(0, i as int);
            let ext = s@.subrange(0, i as int + 1);
            assert(ext.drop_last() =~= pref);
            assert(ext.last() == s@[i as int]);
            assert(digits_value(ext) == digits_value(pref) * 10 + d);
        }
        val = next;
        i = i + 1;
    }
    proof {
        assert(all_digits(numeric_body(s@)));
        assert(is_numeric_text(s@));
    }
    if val > 1000 {
        None
    } else {
        Some(val as u16)
    }
}

/// The NMG ("No Major Glitches") base ruleset's legalities, in catalogue
/// order.
pub open spec fn nmg_legalities() -> Seq<IsAllowed> {
    seq![
        IsAllowed::DISALLOWED,
        IsAllowed::ALLOWED,
        IsAllowed::ALLOWED,
        IsAllowed::ALLOWED,
        IsAllowed::ALLOWED,
        IsAllowed::DISALLOWED,
        IsAllowed::DISALLOWED,
        IsAllowed::ALLOWED,
        IsAllowed::DISALLOWED,
        IsAllowed::DISALLOWED,
        IsAllowed::UNSPECIFIED,
        IsAllowed::DISALLOWED,
        IsAllowed::DISALLOWED,
        IsAllowed::DISALLOWED,
        IsAllowed::DISALLOWED,
        IsAllowed::ALLOWED,
        IsAllowed::DISALLOWED,
        IsAllowed::DISALLOWED,
        IsAllowed::DISALLOWED,
        IsAllowed::ALLOWED,
        IsAllowed::ALLOWED,
        IsAllowed::UNSPECIFIED,
        IsAllowed::DISALLOWED,
        IsAllowed::DISALLOWED,
        IsAllowed::DISALLOWED,
        IsAllowed::DISALLOWED,
    ]
}

/// The RMG ("Restricted Major Glitches") base ruleset's legalities, in
/// catalogue order.
pub open spec fn rmg_legalities() -> Seq<IsAllowed> {
    seq![
        IsAllowed::ALLOWED,
        IsAllowed::ALLOWED,
        IsAllowed::ALLOWED,
        IsAllowed::ALLOWED,
        IsAllowed::ALLOWED,
        IsAllowed::ALLOWED,
        IsAllowed::ALLOWED,
        IsAllowed::ALLOWED,
        IsAllowed::ALLOWED,
        IsAllowed::DISALLOWED,
        IsAllowed::ALLOWED,
        IsAllowed::UNSPECIFIED,
        IsAllowed::DISALLOWED,
        IsAllowed::UNSPECIFIED,
        IsAllowed::ALLOWED,
        IsAllowed::ALLOWED,
        IsAllowed::ALLOWED,
        IsAllowed::DISALLOWED,
        IsAllowed::ALLOWED,
        IsAllowed::ALLOWED,
        IsAllowed::ALLOWED,
        IsAllowed::ALLOWED,
        IsAllowed::ALLOWED,
        IsAllowed::DISALLOWED,
        IsAllowed::DISALLOWED,
        IsAllowed::DISALLOWED,
    ]
}

/// The No EG base ruleset's legalities, in catalogue order.
pub open spec fn noeg_legalities() -> Seq<IsAllowed> {
    seq![
        IsAllowed::ALLOWED,
        IsAllowed::ALLOWED,
        IsAllowed::ALLOWED,
        IsAllowed::ALLOWED,
        IsAllowed::ALLOWED,
        IsAllowed::ALLOWED,
        IsAllowed::ALLOWED,
        IsAllowed::ALLOWED,
        IsAllowed::ALLOWED,
        IsAllowed::ALLOWED,
        IsAllowed::ALLOWED,
        IsAllowed::ALLOWED,
        IsAllowed::DISALLOWED,
        IsAllowed::UNSPECIFIED,
        IsAllowed::ALLOWED,
        IsAllowed::ALLOWED,
        IsAllowed::ALLOWED,
        IsAllowed::ALLOWED,
        IsAllowed::ALLOWED,
        IsAllowed::ALLOWED,
        IsAllowed::ALLOWED,
        IsAllowed::ALLOWED,
        IsAllowed::ALLOWED,
        IsAllowed::ALLOWED,
        IsAllowed::ALLOWED,
        IsAllowed::ALLOWED,
    ]
}

/// The MG ("Major Glitches") base ruleset's legalities, in catalogue order.
pub open spec fn mg_legalities() -> Seq<IsAllowed> {
    seq![
        IsAllowed::ALLOWED,
        IsAllowed::ALLOWED,
        IsAllowed::ALLOWED,
        IsAllowed::ALLOWED,
        IsAllowed::ALLOWED,
        IsAllowed::ALLOWED,
        IsAllowed::ALLOWED,
        IsAllowed::ALLOWED,
        IsAllowed::ALLOWED,
        IsAllowed::ALLOWED,
        IsAllowed::ALLOWED,
        IsAllowed::ALLOWED,
        IsAllowed::ALLOWED,
        IsAllowed::ALLOWED,
        IsAllowed::ALLOWED,
        IsAllowed::ALLOWED,
        IsAllowed::ALLOWED,
        IsAllowed::ALLOWED,
        IsAllowed::ALLOWED,
        IsAllowed::ALLOWED,
        IsAllowed::ALLOWED,
        IsAllowed::ALLOWED,
        IsAllowed::ALLOWED,
        IsAllowed::ALLOWED,
        IsAllowed::ALLOWED,
        IsAllowed::ALLOWED,
    ]
}

/// The NMG base ruleset.
pub fn nmg_rules() -> (r: Ruleset)
    ensures
        r.wf(),
        r.name@ == "NMG"@,
        r.values@ == nmg_legalities(),
{
    let values: Vec<IsAllowed> = vec![
        IsAllowed::DISALLOWED,
        IsAllowed::ALLOWED,
        IsAllowed::ALLOWED,
        IsAllowed::ALLOWED,
        IsAllowed::ALLOWED,
        IsAllowed::DISALLOWED,
        IsAllowed::DISALLOWED,
        IsAllowed::ALLOWED,
        IsAllowed::DISALLOWED,
        IsAllowed::DISALLOWED,
        IsAllowed::UNSPECIFIED,
        IsAllowed::DISALLOWED,
        IsAllowed::DISALLOWED,
        IsAllowed::DISALLOWED,
        IsAllowed::DISALLOWED,
        IsAllowed::ALLOWED,
        IsAllowed::DISALLOWED,
        IsAllowed::DISALLOWED,
        IsAllowed::DISALLOWED,
        IsAllowed::ALLOWED,
        IsAllowed::ALLOWED,
        IsAllowed::UNSPECIFIED,
        IsAllowed::DISALLOWED,
        IsAllowed::DISALLOWED,
        IsAllowed::DISALLOWED,
        IsAllowed::DISALLOWED,
    ];
    proof {
        assert(values@ =~= nmg_legalities());
    }
    Ruleset { name: String::from_str("NMG"), values }
}

/// The RMG base ruleset.
pub fn rmg_rules() -> (r: Ruleset)
    ensures
        r.wf(),
        r.name@ == "RMG"@,
        r.values@ == rmg_legalities(),
{
    let values: Vec<IsAllowed> = vec![
        IsAllowed::ALLOWED,
        IsAllowed::ALLOWED,
        IsAllowed::ALLOWED,
        IsAllowed::ALLOWED,
        IsAllowed::ALLOWED,
        IsAllowed::ALLOWED,
        IsAllowed::ALLOWED,
        IsAllowed::ALLOWED,
        IsAllowed::ALLOWED,
        IsAllowed::DISALLOWED,
        IsAllowed::ALLOWED,
        IsAllowed::UNSPECIFIED,
        IsAllowed::DISALLOWED,
        IsAllowed::UNSPECIFIED,
        IsAllowed::ALLOWED,
        IsAllowed::ALLOWED,
        IsAllowed::ALLOWED,
        IsAllowed::DISALLOWED,
        IsAllowed::ALLOWED,
        IsAllowed::ALLOWED,
        IsAllowed::ALLOWED,
        IsAllowed::ALLOWED,
        IsAllowed::ALLOWED,
        IsAllowed::DISALLOWED,
        IsAllowed::DISALLOWED,
        IsAllowed::DISALLOWED,
    ];
    proof {
        assert(values@ =~= rmg_legalities());
    }
    Ruleset { name: String::from_str("RMG"), values }
}

/// The No EG base ruleset.
pub fn noeg_rules() -> (r: Ruleset)
    ensures
        r.wf(),
        r.name@ == "No EG"@,
        r.values@ == noeg_legalities(),
{
    let values: Vec<IsAllowed> = vec![
        IsAllowed::ALLOWED,
        IsAllowed::ALLOWED,
        IsAllowed::ALLOWED,
        IsAllowed::ALLOWED,
        IsAllowed::ALLOWED,
        IsAllowed::ALLOWED,
        IsAllowed::ALLOWED,
        IsAllowed::ALLOWED,
        IsAllowed::ALLOWED,
        IsAllowed::ALLOWED,
        IsAllowed::ALLOWED,
        IsAllowed::ALLOWED,
        IsAllowed::DISALLOWED,
        IsAllowed::UNSPECIFIED,
        IsAllowed::ALLOWED,
        IsAllowed::ALLOWED,
        IsAllowed::ALLOWED,
        IsAllowed::ALLOWED,
        IsAllowed::ALLOWED,
        IsAllowed::ALLOWED,
        IsAllowed::ALLOWED,
        IsAllowed::ALLOWED,
        IsAllowed::ALLOWED,
        IsAllowed::ALLOWED,
        IsAllowed::ALLOWED,
        IsAllowed::ALLOWED,
    ];
    proof {
        assert(values@ =~= noeg_legalities());
    }
    Ruleset { name: String::from_str("No EG"), values }
}

/// The MG base ruleset.
pub fn mg_rules() -> (r: Ruleset)
    ensures
        r.wf(),
        r.name@ == "MG"@,
        r.values@ == mg_legalities(),
{
    let mut values: Vec<IsAllowed> = Vec::new();
    let mut i: usize = 0;
    while i < crate::techniques::TECHNIQUE_COUNT
        invariant
            i <= crate::techniques::TECHNIQUE_COUNT,
            values@.len() == i,
            forall|j: int| 0 <= j < i ==> values@[j] == IsAllowed::ALLOWED,
        decreases crate::techniques::TECHNIQUE_COUNT - i,
    {
        values.push(IsAllowed::ALLOWED);
        i = i + 1;
    }
    proof {
        assert(values@ =~= mg_legalities());
    }
    Ruleset { name: String::from_str("MG"), values }
}

/// The base ruleset a `defaults` name denotes, if it is a known name.
pub open spec fn base_values_for(name: Seq<char>) -> Option<Seq<IsAllowed>> {
    if name == "NMGRules"@ {
        Some(nmg_legalities())
    } else if name == "RMGRules"@ {
        Some(rmg_legalities())
    } else if name == "NoEGRules"@ {
        Some(noeg_legalities())
    } else if name == "MGRules"@ {
        Some(mg_legalities())
    } else {
        None
    }
}

/// The display name of the base ruleset a `defaults` name denotes.
pub open spec fn base_display_name_for(name: Seq<char>) -> Seq<char> {
    if name == "NMGRules"@ {
        "NMG"@
    } else if name == "RMGRules"@ {
        "RMG"@
    } else if name == "NoEGRules"@ {
        "No EG"@
    } else {
        "MG"@
    }
}

/// The message reported for an unknown `defaults` name.
pub open spec fn unknown_defaults_msg(name: Seq<char>) -> Seq<char> {
    "Unknown value for `defaults` field: "@ + name
}

/// Looks a base ruleset up by its canonical name; an unknown name is an
/// error carrying that name.
pub fn find_default(defaults_name: String) -> (r: Result<Ruleset, UserInputError>)
    ensures
        (base_values_for(defaults_name@) matches Some(vals) ==> (r matches Ok(rs) && rs.wf()
            && rs.values@ == vals && rs.name@ == base_display_name_for(defaults_name@))),
        (base_values_for(defaults_name@) is None ==> (r matches Err(e) && e.err@
            == unknown_defaults_msg(defaults_name@))),
{
    let s = defaults_name.as_str();
    if crate::strutil::str_eq(s, "NMGRules") {
        Ok(nmg_rules())
    } else if crate::strutil::str_eq(s, "RMGRules") {
        Ok(rmg_rules())
    } else if crate::strutil::str_eq(s, "NoEGRules") {
        Ok(noeg_rules())
    } else if crate::strutil::str_eq(s, "MGRules") {
        Ok(mg_rules())
    } else {
        let mut msg = String::from_str("Unknown value for `defaults` field: ");
        msg.append(defaults_name.as_str());
        Err(UserInputError { err: msg })
    }
}

impl TemplateState {
    /// The rule `user_input` denotes, if it denotes one.
    #[allow(non_snake_case)]
    pub fn _maybe_from_user_input(user_input: String) -> (r: Option<TemplateState>)
        ensures
            r == parse_rule_spec(user_input@),
    {
        let s = user_input.as_str();
        if str_eq_ignore_ascii_case(s, "true") {
            Some(TemplateState::STATIC(IsAllowed::ALLOWED))
        } else if str_eq_ignore_ascii_case(s, "false") {
            Some(TemplateState::STATIC(IsAllowed::DISALLOWED))
        } else {
            match parse_numeric(s) {
                Some(w) => Some(TemplateState::CHANCE_PER_THOUSAND(w)),
                None => None,
            }
        }
    }

    /// Parses one override text, reporting the fixed message on texts that
    /// denote no rule.
    pub fn from_user_input(user_input: String) -> (r: Result<
        TemplateState,
        TemplateStateParseError,
    >)
        ensures
            (parse_rule_spec(user_input@) matches Some(ts) ==> r == Ok::<
                TemplateState,
                TemplateStateParseError,
            >(ts)),
            (parse_rule_spec(user_input@) is None ==> (r matches Err(e) && e.err@
                == parse_err_spec())),
    {
        match Self::_maybe_from_user_input(user_input) {
            Some(s) => Ok(s),
            None => Err(
                TemplateStateParseError {
                    err: String::from_str(parse_error_text()),
                },
            ),
        }
    }
}

/// Whether the override listing's value for catalogue technique `j` fails
/// to parse. A technique with no listed value is not bad.
pub open spec fn bad_at(ws: Seq<(String, String)>, j: int) -> bool {
    match crate::techniques::assoc_lookup(ws, crate::techniques::catalogue()[j]) {
        Some(v) => parse_rule_spec(v@) is None,
        None => false,
    }
}

/// Every catalogue technique's listed value, if any, parses to a rule.
pub open spec fn catalogue_parse_ok(ws: Seq<(String, String)>) -> bool {
    forall|j: int|
        0 <= j < crate::techniques::TECHNIQUE_COUNT ==> !(#[trigger] bad_at(ws, j))
}

/// The parsed (technique name, rule) pairs for the first `j` catalogue
/// techniques, in catalogue order, one pair per technique with a listed
/// value.
pub open spec fn parsed_upto(ws: Seq<(String, String)>, j: int) -> Seq<(Seq<char>, TemplateState)>
    decreases j,
{
    if j <= 0 {
        Seq::empty()
    } else {
        parsed_upto(ws, j - 1) + (match crate::techniques::assoc_lookup(
            ws,
            crate::techniques::catalogue()[j - 1],
        ) {
            Some(v) => match parse_rule_spec(v@) {
                Some(ts) => seq![(crate::techniques::catalogue()[j - 1], ts)],
                None => Seq::empty(),
            },
            None => Seq::empty(),
        })
    }
}

/// The keys of an override listing, in listing order.
pub open spec fn weight_keys(ws: Seq<(String, String)>) -> Seq<Seq<char>> {
    ws.map_values(|p: (String, String)| p.0@)
}

/// The listed keys that name no catalogue technique, in listing order.
pub open spec fn unknown_keys_spec(ws: Seq<(String, String)>) -> Seq<Seq<char>> {
    weight_keys(ws).filter(|k: Seq<char>| !crate::techniques::catalogue().contains(k))
}

/// The message reported when technique `j`'s listed value parses to no
/// rule.
pub open spec fn weight_err_msg(j: int) -> Seq<char> {
    "Error parsing user input for "@ + crate::techniques::catalogue()[j] + ": "@ + parse_err_spec()
}

/// The views of parsed override entries.
pub open spec fn entry_views(ws: Seq<(String, TemplateState)>) -> Seq<(Seq<char>, TemplateState)> {
    ws.map_values(|p: (String, TemplateState)| (p.0@, p.1))
}

/// The views of a key listing.
pub open spec fn key_views(ks: Seq<String>) -> Seq<Seq<char>> {
    ks.map_values(|k: String| k@)
}

fn lookup_value(ws: &Vec<(String, String)>, name: &str) -> (r: Option<String>)
    ensures
        r == crate::techniques::assoc_lookup(ws@, name@),
{
    let mut i: usize = 0;
    proof {
        assert(ws@.skip(0) =~= ws@);
    }
    while i < ws.len()
        invariant
            i <= ws@.len(),
            crate::techniques::assoc_lookup(ws@, name@) == crate::techniques::assoc_lookup(
                ws@.skip(i as int),
                name@,
            ),
        decreases ws@.len() - i,
    {
        if crate::strutil::str_eq(ws[i].0.as_str(), name) {
            proof {
                assert(ws@.skip(i as int)[0] == ws@[i as int]);
            }
            return Some(ws[i].1.clone());
        }
        proof {
            assert(ws@.skip(i as int).drop_first() =~= ws@.skip(i as int + 1));
        }
        i = i + 1;
    }
    None
}

/// Parses an override listing. Each catalogue technique with a listed value
/// gets the rule its text denotes; the first catalogue technique whose text
/// denotes no rule aborts the whole parse with a message naming it. Keys
/// that name no catalogue technique are collected and returned, never an
/// error.
pub fn parse_weights(input_weights: Vec<(String, String)>) -> (r: Result<
    (Vec<(String, TemplateState)>, Option<Vec<String>>),
    UserInputError,
>)
    ensures
        (r is Ok <==> catalogue_parse_ok(input_weights@)),
        (r matches Ok(pair) ==> entry_views(pair.0@) == parsed_upto(
            input_weights@,
            crate::techniques::TECHNIQUE_COUNT as int,
        )),
        (r matches Ok(pair) ==> (match pair.1 {
            Option::None => unknown_keys_spec(input_weights@).len() == 0,
            Option::Some(u) => key_views(u@) == unknown_keys_spec(input_weights@),
        })),
        (r matches Err(e) ==> exists|j: int|
            0 <= j < crate::techniques::TECHNIQUE_COUNT && #[trigger] bad_at(input_weights@, j)
                && (forall|j2: int| 0 <= j2 < j ==> !(#[trigger] bad_at(input_weights@, j2)))
                && e.err@ == weight_err_msg(j)),
{
    let names = technique_names();
    let mut parsed: Vec<(String, TemplateState)> = Vec::new();
    let mut t: usize = 0;
    proof {
        assert(entry_views(parsed@) =~= parsed_upto(input_weights@, 0));
    }
    while t < TECHNIQUE_COUNT
        invariant
            names@.len() == TECHNIQUE_COUNT,
            forall|j: int|
                0 <= j < TECHNIQUE_COUNT ==> names@[j]@ == #[trigger] crate::techniques::catalogue()[j],
            t <= TECHNIQUE_COUNT,
            forall|j: int| 0 <= j < t ==> !(#[trigger] bad_at(input_weights@, j)),
            entry_views(parsed@) == parsed_upto(input_weights@, t as int),
        decreases TECHNIQUE_COUNT - t,
    {
        let name = names[t];
        match lookup_value(&input_weights, name) {
            Some(ts_input) => {
                match TemplateState::from_user_input(ts_input) {
                    Ok(ts) => {
                        parsed.push((String::from_str(name), ts));
                        proof {
                            assert(entry_views(parsed@) =~= parsed_upto(
                                input_weights@,
                                t as int + 1,
                            ));
                        }
                    },
                    Err(e) => {
                        let mut msg = String::from_str("Error parsing user input for ");
                        msg.append(name);
                        msg.append(": ");
                        msg.append(e.err.as_str());
                        proof {
                            assert(bad_at(input_weights@, t as int));
                            assert(msg@ =~= weight_err_msg(t as int));
                        }
                        return Err(UserInputError { err: msg });
                    },
                }
            },
            None => {
                proof {
                    assert(entry_views(parsed@) =~= parsed_upto(input_weights@, t as int + 1));
                }
            },
        }
        t = t + 1;
    }
    let mut unknown: Vec<String> = Vec::new();
    let mut i: usize = 0;
    proof {
        reveal(Seq::filter);
        assert(weight_keys(input_weights@).take(0) =~= Seq::<Seq<char>>::empty());
        assert(key_views(unknown@) =~= weight_keys(input_weights@).take(0).filter(
            |k: Seq<char>| !crate::techniques::catalogue().contains(k),
        ));
    }
    while i < input_weights.len()
        invariant
            i <= input_weights@.len(),
            key_views(unknown@) == weight_keys(input_weights@).take(i as int).filter(
                |k: Seq<char>| !crate::techniques::catalogue().contains(k),
            ),
        decreases input_weights@.len() - i,
    {
        let ghost keys = weight_keys(input_weights@);
        let ghost pred = |k: Seq<char>| !crate::techniques::catalogue().contains(k);
        let known = is_technique_name(input_weights[i].0.as_str());
        if !known {
            unknown.push(input_weights[i].0.clone());
        }
        proof {
            assert(keys[i as int] == input_weights@[i as int].0@);
            assert(keys.take(i as int).push(keys[i as int]) =~= keys.take(i as int + 1));
            keys.take(i as int).lemma_filter_push(keys[i as int], pred);
            if !known {
                assert(key_views(unknown@) =~= keys.take(i as int).filter(pred).push(
                    keys[i as int],
                ));
            }
        }
        i = i + 1;
    }
    proof {
        assert(weight_keys(input_weights@).take(input_weights@.len() as int) =~= weight_keys(
            input_weights@,
        ));
    }
    if unknown.len() == 0 {
        Ok((parsed, None))
    } else {
        Ok((parsed, Some(unknown)))
    }
}

/// A raw override submission: a display name, the name of a base ruleset
/// to defer to, and free-text per-technique override values.
#[derive(Debug)]
pub struct InputWeights {
    pub name: String,
    pub defaults: String,
    pub weights: Vec<(String, String)>,
}

/// A validated override submission: the base ruleset looked up, every
/// recognized override parsed.
#[derive(Debug)]
pub struct MungedInputWeights {
    pub name: String,
    pub defaults: Ruleset,
    pub weights: Vec<(String, TemplateState)>,
}

/// Validates a raw submission: parses every recognized override value and
/// looks the base ruleset up, reporting the first failure. Keys naming no
/// catalogue technique are handed back for the caller to surface as a
/// warning; they never fail the submission.
pub fn munge_user_input(user_input: InputWeights) -> (r: Result<
    (MungedInputWeights, Option<Vec<String>>),
    UserInputError,
>)
    ensures
        (!catalogue_parse_ok(user_input.weights@) ==> (r matches Err(e) && exists|j: int|
            0 <= j < crate::techniques::TECHNIQUE_COUNT && #[trigger] bad_at(
                user_input.weights@,
                j,
            ) && (forall|j2: int| 0 <= j2 < j ==> !(#[trigger] bad_at(user_input.weights@, j2)))
                && e.err@ == weight_err_msg(j))),
        (catalogue_parse_ok(user_input.weights@) && base_values_for(user_input.defaults@) is None
            ==> (r matches Err(e) && e.err@ == unknown_defaults_msg(user_input.defaults@))),
        (catalogue_parse_ok(user_input.weights@) && base_values_for(user_input.defaults@) is Some
            ==> (r matches Ok(pair) && pair.0.name@ == user_input.name@
            && pair.0.defaults.wf() && pair.0.defaults.values@ == base_values_for(
            user_input.defaults@,
        ).unwrap() && pair.0.defaults.name@
            == base_display_name_for(user_input.defaults@) && entry_views(pair.0.weights@)
            == parsed_upto(user_input.weights@, crate::techniques::TECHNIQUE_COUNT as int) && (
        match pair.1 {
            Option::None => unknown_keys_spec(user_input.weights@).len() == 0,
            Option::Some(u) => key_views(u@) == unknown_keys_spec(user_input.weights@),
        }))),
{
    let (parsed, unknown_keys) = match parse_weights(user_input.weights) {
        Ok(pair) => pair,
        Err(e) => { return Err(e) },
    };
    let defaults = match find_default(user_input.defaults) {
        Ok(rs) => rs,
        Err(e) => { return Err(e) },
    };
    Ok((MungedInputWeights { name: user_input.name, defaults, weights: parsed }, unknown_keys))
}

} // verus!
