use racetime::form::{empty_form, put};
use racetime::text::{decimal_string, digit_str, form_bool};
use racetime::StartRace;

fn config() -> StartRace {
    StartRace {
        goal: "Beat the game".to_string(),
        goal_is_custom: false,
        team_race: false,
        invitational: true,
        unlisted: false,
        info_user: "hello".to_string(),
        info_bot: "seed 42".to_string(),
        require_even_teams: false,
        start_delay: 15,
        time_limit: 24,
        time_limit_auto_complete: true,
        streaming_required: None,
        auto_start: true,
        allow_comments: true,
        hide_comments: false,
        allow_prerace_chat: true,
        allow_midrace_chat: false,
        allow_non_entrant_chat: true,
        chat_message_delay: 0,
    }
}

fn value_of<'a>(form: &'a [(String, String)], key: &str) -> Option<&'a str> {
    let mut found = form.iter().filter(|(k, _)| k == key);
    let first = found.next().map(|(_, v)| v.as_str());
    assert!(found.next().is_none());
    first
}

const FLAG_KEYS: [&str; 12] = [
    "allow_comments",
    "allow_midrace_chat",
    "allow_non_entrant_chat",
    "allow_prerace_chat",
    "auto_start",
    "hide_comments",
    "invitational",
    "require_even_teams",
    "streaming_required",
    "team_race",
    "time_limit_auto_complete",
    "unlisted",
];

#[test]
fn form_bool_is_one_or_zero() {
    assert_eq!(form_bool(true), "1");
    assert_eq!(form_bool(false), "0");
}

#[test]
fn digits_are_single_characters() {
    let all: Vec<&str> = (0u8..10).map(digit_str).collect();
    assert_eq!(all, vec!["0", "1", "2", "3", "4", "5", "6", "7", "8", "9"]);
}

#[test]
fn decimal_string_matches_to_string() {
    for n in 0u16..=u16::MAX {
        assert_eq!(decimal_string(n), n.to_string());
    }
}

#[test]
fn decimal_string_edges() {
    assert_eq!(decimal_string(0), "0");
    assert_eq!(decimal_string(9), "9");
    assert_eq!(decimal_string(10), "10");
    assert_eq!(decimal_string(99), "99");
    assert_eq!(decimal_string(100), "100");
    assert_eq!(decimal_string(105), "105");
    assert_eq!(decimal_string(255), "255");
    assert_eq!(decimal_string(1000), "1000");
    assert_eq!(decimal_string(10203), "10203");
    assert_eq!(decimal_string(65535), "65535");
}

#[test]
fn put_appends_one_entry() {
    let mut form = empty_form();
    assert!(form.is_empty());
    put(&mut form, "a", "1");
    put(&mut form, "b", "2");
    assert_eq!(form, vec![("a".to_string(), "1".to_string()), ("b".to_string(), "2".to_string())]);
}

#[test]
fn form_without_streaming_is_exact() {
    let form = config().form();
    let expected: Vec<(String, String)> = [
        ("allow_comments", "1"),
        ("allow_midrace_chat", "0"),
        ("allow_non_entrant_chat", "1"),
        ("allow_prerace_chat", "1"),
        ("auto_start", "1"),
        ("chat_message_delay", "0"),
        ("goal", "Beat the game"),
        ("hide_comments", "0"),
        ("info_bot", "seed 42"),
        ("info_user", "hello"),
        ("invitational", "1"),
        ("require_even_teams", "0"),
        ("start_delay", "15"),
        ("team_race", "0"),
        ("time_limit", "24"),
        ("time_limit_auto_complete", "1"),
        ("unlisted", "0"),
    ]
    .iter()
    .map(|(k, v)| (k.to_string(), v.to_string()))
    .collect();
    assert_eq!(form, expected);
}

#[test]
fn form_keys_are_sorted_and_distinct() {
    for streaming in [None, Some(true), Some(false)] {
        for custom in [false, true] {
            let mut c = config();
            c.streaming_required = streaming;
            c.goal_is_custom = custom;
            let form = c.form();
            for pair in form.windows(2) {
                assert!(pair[0].0 < pair[1].0);
            }
        }
    }
}

#[test]
fn every_flag_is_one_or_zero() {
    for bits in 0u32..(1 << 11) {
        let bit = |i: u32| bits & (1 << i) != 0;
        let c = StartRace {
            team_race: bit(0),
            invitational: bit(1),
            unlisted: bit(2),
            require_even_teams: bit(3),
            time_limit_auto_complete: bit(4),
            auto_start: bit(5),
            allow_comments: bit(6),
            hide_comments: bit(7),
            allow_prerace_chat: bit(8),
            allow_midrace_chat: bit(9),
            allow_non_entrant_chat: bit(10),
            streaming_required: Some(bit(0) != bit(10)),
            ..config()
        };
        let form = c.form();
        for key in FLAG_KEYS {
            let value = value_of(&form, key).unwrap();
            assert!(value == "1" || value == "0");
        }
        assert_eq!(value_of(&form, "team_race"), Some(form_bool(bit(0))));
        assert_eq!(value_of(&form, "invitational"), Some(form_bool(bit(1))));
        assert_eq!(value_of(&form, "unlisted"), Some(form_bool(bit(2))));
        assert_eq!(value_of(&form, "require_even_teams"), Some(form_bool(bit(3))));
        assert_eq!(value_of(&form, "time_limit_auto_complete"), Some(form_bool(bit(4))));
        assert_eq!(value_of(&form, "auto_start"), Some(form_bool(bit(5))));
        assert_eq!(value_of(&form, "allow_comments"), Some(form_bool(bit(6))));
        assert_eq!(value_of(&form, "hide_comments"), Some(form_bool(bit(7))));
        assert_eq!(value_of(&form, "allow_prerace_chat"), Some(form_bool(bit(8))));
        assert_eq!(value_of(&form, "allow_midrace_chat"), Some(form_bool(bit(9))));
        assert_eq!(value_of(&form, "allow_non_entrant_chat"), Some(form_bool(bit(10))));
    }
}

#[test]
fn streaming_required_is_sent_only_when_supplied() {
    let mut c = config();
    c.streaming_required = None;
    let form = c.form();
    assert_eq!(form.len(), 17);
    assert_eq!(value_of(&form, "streaming_required"), None);

    c.streaming_required = Some(true);
    let form = c.form();
    assert_eq!(form.len(), 18);
    assert_eq!(value_of(&form, "streaming_required"), Some("1"));
    assert_eq!(form[13].0, "streaming_required");

    c.streaming_required = Some(false);
    let form = c.form();
    assert_eq!(form.len(), 18);
    assert_eq!(value_of(&form, "streaming_required"), Some("0"));
}

#[test]
fn custom_goal_replaces_goal() {
    let mut c = config();
    c.goal_is_custom = true;
    let form = c.form();
    assert_eq!(value_of(&form, "custom_goal"), Some("Beat the game"));
    assert_eq!(value_of(&form, "goal"), None);

    c.goal_is_custom = false;
    let form = c.form();
    assert_eq!(value_of(&form, "goal"), Some("Beat the game"));
    assert_eq!(value_of(&form, "custom_goal"), None);
}

#[test]
fn numbers_are_sent_in_base_ten() {
    let c = StartRace { start_delay: 255, time_limit: 72, chat_message_delay: 90, ..config() };
    let form = c.form();
    assert_eq!(value_of(&form, "start_delay"), Some("255"));
    assert_eq!(value_of(&form, "time_limit"), Some("72"));
    assert_eq!(value_of(&form, "chat_message_delay"), Some("90"));
}

#[test]
fn texts_are_sent_as_given() {
    let c = StartRace {
        info_user: "a&b=c d".to_string(),
        info_bot: String::new(),
        goal: "16 \u{2605}".to_string(),
        ..config()
    };
    let form = c.form();
    assert_eq!(value_of(&form, "info_user"), Some("a&b=c d"));
    assert_eq!(value_of(&form, "info_bot"), Some(""));
    assert_eq!(value_of(&form, "goal"), Some("16 \u{2605}"));
}
