//! The configuration of a race room and the form that carries it to the service.

use crate::text::{decimal, decimal_string, flag_text, form_bool};
use vstd::prelude::*;

verus! {

/// Everything the service accepts when a room is opened.
pub struct StartRace {
    /// The goal: the name of a preset, or free text where `goal_is_custom` is set.
    pub goal: String,
    pub goal_is_custom: bool,
    pub team_race: bool,
    pub invitational: bool,
    pub unlisted: bool,
    pub info_user: String,
    pub info_bot: String,
    pub require_even_teams: bool,
    pub start_delay: u8,
    pub time_limit: u8,
    pub time_limit_auto_complete: bool,
    /// `None` leaves the choice to the service: nothing is sent.
    pub streaming_required: Option<bool>,
    pub auto_start: bool,
    pub allow_comments: bool,
    pub hide_comments: bool,
    pub allow_prerace_chat: bool,
    pub allow_midrace_chat: bool,
    pub allow_non_entrant_chat: bool,
    pub chat_message_delay: u8,
}

/// A form as a sequence of keys with their values.
pub type Fields = Seq<(Seq<char>, Seq<char>)>;

/// What a form built in memory holds.
#[verifier::opaque]
pub open spec fn fields_of(form: Seq<(String, String)>) -> Fields {
    form.map_values(|entry: (String, String)| (entry.0@, entry.1@))
}

/// Whether `key` occurs in `fields`.
pub open spec fn has_key(fields: Fields, key: Seq<char>) -> bool {
    exists|i: int| 0 <= i < fields.len() && (#[trigger] fields[i]).0 == key
}

/// Whether `key` is one of the keys that carry a flag.
pub open spec fn is_flag_key(key: Seq<char>) -> bool {
    ||| key == "allow_comments"@
    ||| key == "allow_midrace_chat"@
    ||| key == "allow_non_entrant_chat"@
    ||| key == "allow_prerace_chat"@
    ||| key == "auto_start"@
    ||| key == "hide_comments"@
    ||| key == "invitational"@
    ||| key == "require_even_teams"@
    ||| key == "streaming_required"@
    ||| key == "team_race"@
    ||| key == "time_limit_auto_complete"@
    ||| key == "unlisted"@
}

/// Whether `value` is one of the two texts a flag is written as.
pub open spec fn is_flag_value(value: Seq<char>) -> bool {
    value == seq!['1'] || value == seq!['0']
}

impl StartRace {
    /// The key under which the goal is sent.
    pub open spec fn goal_key(&self) -> Seq<char> {
        if self.goal_is_custom {
            "custom_goal"@
        } else {
            "goal"@
        }
    }

    /// The entries whose keys come before `streaming_required`.
    pub open spec fn leading_fields(&self) -> Fields {
        seq![
            ("allow_comments"@, flag_text(self.allow_comments)),
            ("allow_midrace_chat"@, flag_text(self.allow_midrace_chat)),
            ("allow_non_entrant_chat"@, flag_text(self.allow_non_entrant_chat)),
            ("allow_prerace_chat"@, flag_text(self.allow_prerace_chat)),
            ("auto_start"@, flag_text(self.auto_start)),
            ("chat_message_delay"@, decimal(self.chat_message_delay as nat)),
            (self.goal_key(), self.goal@),
            ("hide_comments"@, flag_text(self.hide_comments)),
            ("info_bot"@, self.info_bot@),
            ("info_user"@, self.info_user@),
            ("invitational"@, flag_text(self.invitational)),
            ("require_even_teams"@, flag_text(self.require_even_teams)),
            ("start_delay"@, decimal(self.start_delay as nat)),
        ]
    }

    /// The leading entries and, only if a value was supplied, the entry for
    /// `streaming_required`.
    pub open spec fn fields_through_streaming(&self) -> Fields {
        match self.streaming_required {
            Some(value) => self.leading_fields().push(("streaming_required"@, flag_text(value))),
            None => self.leading_fields(),
        }
    }

    /// The form that stands for this configuration, in the order of its keys.
    pub open spec fn form_fields(&self) -> Fields {
        self.fields_through_streaming()
            .push(("team_race"@, flag_text(self.team_race)))
            .push(("time_limit"@, decimal(self.time_limit as nat)))
            .push(("time_limit_auto_complete"@, flag_text(self.time_limit_auto_complete)))
            .push(("unlisted"@, flag_text(self.unlisted)))
    }

    /// Builds the entries whose keys come before `streaming_required`.
    fn leading_form(&self) -> (form: Vec<(String, String)>)
        ensures
            fields_of(form@) == self.leading_fields(),
    {
        let mut form = empty_form();
        put(&mut form, "allow_comments", form_bool(self.allow_comments));
        put(&mut form, "allow_midrace_chat", form_bool(self.allow_midrace_chat));
        put(&mut form, "allow_non_entrant_chat", form_bool(self.allow_non_entrant_chat));
        put(&mut form, "allow_prerace_chat", form_bool(self.allow_prerace_chat));
        put(&mut form, "auto_start", form_bool(self.auto_start));
        put(&mut form, "chat_message_delay", decimal_string(self.chat_message_delay as u16).as_str());
        put(&mut form, if self.goal_is_custom { "custom_goal" } else { "goal" }, self.goal.as_str());
        put(&mut form, "hide_comments", form_bool(self.hide_comments));
        put(&mut form, "info_bot", self.info_bot.as_str());
        put(&mut form, "info_user", self.info_user.as_str());
        put(&mut form, "invitational", form_bool(self.invitational));
        put(&mut form, "require_even_teams", form_bool(self.require_even_teams));
        put(&mut form, "start_delay", decimal_string(self.start_delay as u16).as_str());
        form
    }

    /// Builds the form for this configuration, entry by entry.
    pub fn form(&self) -> (form: Vec<(String, String)>)
        ensures
            fields_of(form@) == self.form_fields(),
    {
        let mut form = self.leading_form();
        if let Some(value) = self.streaming_required {
            put(&mut form, "streaming_required", form_bool(value));
        }
        put(&mut form, "team_race", form_bool(self.team_race));
        put(&mut form, "time_limit", decimal_string(self.time_limit as u16).as_str());
        put(&mut form, "time_limit_auto_complete", form_bool(self.time_limit_auto_complete));
        put(&mut form, "unlisted", form_bool(self.unlisted));
        form
    }
}

/// A form without entries.
pub fn empty_form() -> (form: Vec<(String, String)>)
    ensures
        fields_of(form@) == Fields::empty(),
{
    let form: Vec<(String, String)> = Vec::new();
    proof {
        reveal(fields_of);
        assert(fields_of(form@) =~= Fields::empty());
    }
    form
}

/// Adds one entry at the end of a form.
pub fn put(form: &mut Vec<(String, String)>, key: &str, value: &str)
    ensures
        fields_of(final(form)@) == fields_of(old(form)@).push((key@, value@)),
{
    form.push((String::from_str(key), String::from_str(value)));
    proof {
        reveal(fields_of);
        assert(fields_of(form@) =~= fields_of(old(form)@).push((key@, value@)));
    }
}

/// The entries of a form in memory, one for one: each key and each value is
/// the text of the string that holds it.
pub proof fn lemma_fields_of(form: Seq<(String, String)>)
    ensures
        fields_of(form).len() == form.len(),
        forall|i: int|
            0 <= i < form.len() ==> (#[trigger] fields_of(form)[i]) == (form[i].0@, form[i].1@),
{
    reveal(fields_of);
}

/// Enough of each key's text to tell any two of them apart.
proof fn lemma_key_texts()
    ensures
        "allow_comments"@.len() == 14 && "allow_comments"@[0] == 'a' && "allow_comments"@[3] == 'o' && "allow_comments"@[6] == 'c',
        "allow_midrace_chat"@.len() == 18 && "allow_midrace_chat"@[0] == 'a' && "allow_midrace_chat"@[3] == 'o' && "allow_midrace_chat"@[6] == 'm',
        "allow_non_entrant_chat"@.len() == 22 && "allow_non_entrant_chat"@[0] == 'a' && "allow_non_entrant_chat"@[3] == 'o' && "allow_non_entrant_chat"@[6] == 'n',
        "allow_prerace_chat"@.len() == 18 && "allow_prerace_chat"@[0] == 'a' && "allow_prerace_chat"@[3] == 'o' && "allow_prerace_chat"@[6] == 'p',
        "auto_start"@.len() == 10 && "auto_start"@[0] == 'a' && "auto_start"@[3] == 'o' && "auto_start"@[6] == 't',
        "chat_message_delay"@.len() == 18 && "chat_message_delay"@[0] == 'c' && "chat_message_delay"@[3] == 't' && "chat_message_delay"@[6] == 'e',
        "custom_goal"@.len() == 11 && "custom_goal"@[0] == 'c' && "custom_goal"@[3] == 't' && "custom_goal"@[6] == '_',
        "goal"@.len() == 4 && "goal"@[0] == 'g' && "goal"@[3] == 'l',
        "hide_comments"@.len() == 13 && "hide_comments"@[0] == 'h' && "hide_comments"@[3] == 'e' && "hide_comments"@[6] == 'o',
        "info_bot"@.len() == 8 && "info_bot"@[0] == 'i' && "info_bot"@[3] == 'o' && "info_bot"@[6] == 'o',
        "info_user"@.len() == 9 && "info_user"@[0] == 'i' && "info_user"@[3] == 'o' && "info_user"@[6] == 's',
        "invitational"@.len() == 12 && "invitational"@[0] == 'i' && "invitational"@[3] == 'i' && "invitational"@[6] == 't',
        "require_even_teams"@.len() == 18 && "require_even_teams"@[0] == 'r' && "require_even_teams"@[3] == 'u' && "require_even_teams"@[6] == 'e',
        "start_delay"@.len() == 11 && "start_delay"@[0] == 's' && "start_delay"@[3] == 'r' && "start_delay"@[6] == 'd',
        "streaming_required"@.len() == 18 && "streaming_required"@[0] == 's' && "streaming_required"@[3] == 'e' && "streaming_required"@[6] == 'i',
        "team_race"@.len() == 9 && "team_race"@[0] == 't' && "team_race"@[3] == 'm' && "team_race"@[6] == 'a',
        "time_limit"@.len() == 10 && "time_limit"@[0] == 't' && "time_limit"@[3] == 'e' && "time_limit"@[6] == 'i',
        "time_limit_auto_complete"@.len() == 24 && "time_limit_auto_complete"@[0] == 't' && "time_limit_auto_complete"@[3] == 'e' && "time_limit_auto_complete"@[6] == 'i',
        "unlisted"@.len() == 8 && "unlisted"@[0] == 'u' && "unlisted"@[3] == 'i' && "unlisted"@[6] == 'e',
{
    reveal_strlit("allow_comments");
    reveal_strlit("allow_midrace_chat");
    reveal_strlit("allow_non_entrant_chat");
    reveal_strlit("allow_prerace_chat");
    reveal_strlit("auto_start");
    reveal_strlit("chat_message_delay");
    reveal_strlit("custom_goal");
    reveal_strlit("goal");
    reveal_strlit("hide_comments");
    reveal_strlit("info_bot");
    reveal_strlit("info_user");
    reveal_strlit("invitational");
    reveal_strlit("require_even_teams");
    reveal_strlit("start_delay");
    reveal_strlit("streaming_required");
    reveal_strlit("team_race");
    reveal_strlit("time_limit");
    reveal_strlit("time_limit_auto_complete");
    reveal_strlit("unlisted");
}

/// The entry at each place of the form.
proof fn lemma_entry_cases(config: StartRace, i: int)
    requires
        0 <= i < config.form_fields().len(),
    ensures
        config.form_fields().len() == (if config.streaming_required is Some { 18int } else { 17int }),
        i == 0 ==> config.form_fields()[i] == ("allow_comments"@, flag_text(config.allow_comments)),
        i == 1 ==> config.form_fields()[i] == ("allow_midrace_chat"@, flag_text(config.allow_midrace_chat)),
        i == 2 ==> config.form_fields()[i] == ("allow_non_entrant_chat"@, flag_text(config.allow_non_entrant_chat)),
        i == 3 ==> config.form_fields()[i] == ("allow_prerace_chat"@, flag_text(config.allow_prerace_chat)),
        i == 4 ==> config.form_fields()[i] == ("auto_start"@, flag_text(config.auto_start)),
        i == 5 ==> config.form_fields()[i] == ("chat_message_delay"@, decimal(config.chat_message_delay as nat)),
        i == 6 ==> config.form_fields()[i] == (config.goal_key(), config.goal@),
        i == 7 ==> config.form_fields()[i] == ("hide_comments"@, flag_text(config.hide_comments)),
        i == 8 ==> config.form_fields()[i] == ("info_bot"@, config.info_bot@),
        i == 9 ==> config.form_fields()[i] == ("info_user"@, config.info_user@),
        i == 10 ==> config.form_fields()[i] == ("invitational"@, flag_text(config.invitational)),
        i == 11 ==> config.form_fields()[i] == ("require_even_teams"@, flag_text(config.require_even_teams)),
        i == 12 ==> config.form_fields()[i] == ("start_delay"@, decimal(config.start_delay as nat)),
        i == 13 && config.streaming_required is Some ==> config.form_fields()[i] == (
            "streaming_required"@,
            flag_text(config.streaming_required->0),
        ),
        i == 13 + (if config.streaming_required is Some { 1int } else { 0int }) ==> config.form_fields()[i] == ("team_race"@, flag_text(config.team_race)),
        i == 14 + (if config.streaming_required is Some { 1int } else { 0int }) ==> config.form_fields()[i] == ("time_limit"@, decimal(config.time_limit as nat)),
        i == 15 + (if config.streaming_required is Some { 1int } else { 0int }) ==> config.form_fields()[i] == ("time_limit_auto_complete"@, flag_text(config.time_limit_auto_complete)),
        i == 16 + (if config.streaming_required is Some { 1int } else { 0int }) ==> config.form_fields()[i] == ("unlisted"@, flag_text(config.unlisted)),
{
}

/// Every flag of a configuration is sent as `1` or as `0`, and as nothing else.
pub proof fn lemma_flags_are_one_or_zero(config: StartRace)
    ensures
        forall|i: int|
            0 <= i < config.form_fields().len() && is_flag_key(
                (#[trigger] config.form_fields()[i]).0,
            ) ==> is_flag_value(config.form_fields()[i].1),
{
    lemma_key_texts();
    let fields = config.form_fields();
    assert forall|i: int| 0 <= i < fields.len() && is_flag_key((#[trigger] fields[i]).0) implies is_flag_value(
        fields[i].1,
    ) by {
        lemma_entry_cases(config, i);
    }
}

/// The key `streaming_required` is sent exactly when a value was supplied, and
/// then with that value.
pub proof fn lemma_streaming_sent_iff_supplied(config: StartRace)
    ensures
        has_key(config.form_fields(), "streaming_required"@)
            <==> config.streaming_required is Some,
        forall|i: int|
            0 <= i < config.form_fields().len() && (#[trigger] config.form_fields()[i]).0
                == "streaming_required"@ ==> config.streaming_required is Some
                && config.form_fields()[i].1 == flag_text(config.streaming_required->0),
{
    lemma_key_texts();
    let fields = config.form_fields();
    assert forall|i: int| 0 <= i < fields.len() && (#[trigger] fields[i]).0 == "streaming_required"@ implies config.streaming_required is Some
        && fields[i].1 == flag_text(config.streaming_required->0) by {
        lemma_entry_cases(config, i);
    }
    if config.streaming_required is Some {
        lemma_entry_cases(config, 13);
        assert(fields[13].0 == "streaming_required"@);
    }
}

/// A custom goal is sent under `custom_goal` and never under `goal`; a preset
/// under `goal` and never under `custom_goal`.
pub proof fn lemma_goal_key_exclusive(config: StartRace)
    ensures
        has_key(config.form_fields(), "custom_goal"@) <==> config.goal_is_custom,
        has_key(config.form_fields(), "goal"@) <==> !config.goal_is_custom,
        forall|i: int|
            0 <= i < config.form_fields().len() && (#[trigger] config.form_fields()[i]).0
                == config.goal_key() ==> config.form_fields()[i].1 == config.goal@,
{
    lemma_key_texts();
    let fields = config.form_fields();
    assert forall|i: int| 0 <= i < fields.len() implies ((#[trigger] fields[i]).0 == "custom_goal"@
        ==> config.goal_is_custom) && (fields[i].0 == "goal"@ ==> !config.goal_is_custom) && (fields[i].0
        == config.goal_key() ==> fields[i].1 == config.goal@) by {
        lemma_entry_cases(config, i);
    }
    lemma_entry_cases(config, 6);
    assert(fields[6].0 == config.goal_key());
}

/// No key is sent twice.
pub proof fn lemma_keys_are_distinct(config: StartRace)
    ensures
        forall|i: int, j: int|
            0 <= i < j < config.form_fields().len() ==> (#[trigger] config.form_fields()[i]).0 != (
            #[trigger] config.form_fields()[j]).0,
{
    lemma_key_texts();
    let fields = config.form_fields();
    assert forall|i: int, j: int| 0 <= i < j < fields.len() implies (#[trigger] fields[i]).0 != (
    #[trigger] fields[j]).0 by {
        lemma_entry_cases(config, i);
        lemma_entry_cases(config, j);
    }
}

} // verus!
