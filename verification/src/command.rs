//! The command router: classifies the text of a message as one command.

use vstd::prelude::*;
use crate::text::{
    chars_of, decimal, has_prefix, is_blank, lemma_parse_decimal, lemma_trimmed_blank,
    lemma_trimmed_twice, parse_id, parse_u32, same_text, slice_string, trim_range, trimmed,
};

verus! {

/// The text that asks for help.
pub const HELP_COMMAND: &'static str = "!help";

/// What a search command begins with.
pub const SEARCH_PREFIX: &'static str = "!anime ";

/// What a details command begins with.
pub const DETAILS_PREFIX: &'static str = "!anime details ";

/// What a recommendations command begins with.
pub const RECOMMENDATIONS_PREFIX: &'static str = "!anime recommendations ";

/// The shortcut for the details of the fixed subject.
pub const FIXED_DETAILS_COMMAND: &'static str = "!lain";

/// The shortcut for the recommendations of the fixed subject.
pub const FIXED_RECOMMENDATIONS_COMMAND: &'static str = "!lain recommendations";

/// The identifier of the fixed subject.
pub const FIXED_SUBJECT_ID: u32 = 339;

/// What a message asks for.
#[derive(Debug, Clone, PartialEq, Eq)]
pub enum Command {
    /// The list of commands.
    Help,
    /// A search for titles by name.
    SearchByName(String),
    /// A search command without a name.
    InvalidSearch,
    /// The details of one anime.
    DetailsById(u32),
    /// A details command without an identifier.
    InvalidDetails,
    /// The recommendations that go with one anime.
    RecommendationsById(u32),
    /// A recommendations command without an identifier.
    InvalidRecommendations,
    /// A details or recommendations command whose identifier is no number.
    InvalidId,
    /// The details of the fixed subject.
    FixedSubjectDetails,
    /// The recommendations that go with the fixed subject.
    FixedSubjectRecommendations,
    /// Nothing.
    Ignore,
}

/// A command as a value.
pub enum Intent {
    Help,
    SearchByName(Seq<char>),
    InvalidSearch,
    DetailsById(u32),
    InvalidDetails,
    RecommendationsById(u32),
    InvalidRecommendations,
    InvalidId,
    FixedSubjectDetails,
    FixedSubjectRecommendations,
    Ignore,
}

impl View for Command {
    type V = Intent;

    open spec fn view(&self) -> Intent {
        match self {
            Command::Help => Intent::Help,
            Command::SearchByName(q) => Intent::SearchByName(q@),
            Command::InvalidSearch => Intent::InvalidSearch,
            Command::DetailsById(id) => Intent::DetailsById(*id),
            Command::InvalidDetails => Intent::InvalidDetails,
            Command::RecommendationsById(id) => Intent::RecommendationsById(*id),
            Command::InvalidRecommendations => Intent::InvalidRecommendations,
            Command::InvalidId => Intent::InvalidId,
            Command::FixedSubjectDetails => Intent::FixedSubjectDetails,
            Command::FixedSubjectRecommendations => Intent::FixedSubjectRecommendations,
            Command::Ignore => Intent::Ignore,
        }
    }
}

/// What the rest of a search command asks for: a search for the rest
/// without the white space around it, unless nothing is left.
pub open spec fn search_intent(rest: Seq<char>) -> Intent {
    if trimmed(rest).len() == 0 {
        Intent::InvalidSearch
    } else {
        Intent::SearchByName(trimmed(rest))
    }
}

/// What the rest of a details command asks for.
pub open spec fn details_intent(rest: Seq<char>) -> Intent {
    if trimmed(rest).len() == 0 {
        Intent::InvalidDetails
    } else {
        match parse_id(trimmed(rest)) {
            Some(id) => Intent::DetailsById(id),
            None => Intent::InvalidId,
        }
    }
}

/// What the rest of a recommendations command asks for.
pub open spec fn recommendations_intent(rest: Seq<char>) -> Intent {
    if trimmed(rest).len() == 0 {
        Intent::InvalidRecommendations
    } else {
        match parse_id(trimmed(rest)) {
            Some(id) => Intent::RecommendationsById(id),
            None => Intent::InvalidId,
        }
    }
}

/// The command that the text `t` stands for. The two prefixes that name a
/// subcommand are looked for before the prefix of a search.
pub open spec fn classify_text(t: Seq<char>) -> Intent {
    if t == HELP_COMMAND@ {
        Intent::Help
    } else if DETAILS_PREFIX@.is_prefix_of(t) {
        details_intent(t.skip(DETAILS_PREFIX@.len() as int))
    } else if RECOMMENDATIONS_PREFIX@.is_prefix_of(t) {
        recommendations_intent(t.skip(RECOMMENDATIONS_PREFIX@.len() as int))
    } else if t == FIXED_DETAILS_COMMAND@ {
        Intent::FixedSubjectDetails
    } else if t == FIXED_RECOMMENDATIONS_COMMAND@ {
        Intent::FixedSubjectRecommendations
    } else if SEARCH_PREFIX@.is_prefix_of(t) {
        search_intent(t.skip(SEARCH_PREFIX@.len() as int))
    } else {
        Intent::Ignore
    }
}

/// The command that a message stands for: none where its sender is no
/// human, else that of its text without the white space around it.
pub open spec fn message_intent(text: Seq<char>, sender_is_human: bool) -> Intent {
    if sender_is_human {
        classify_text(trimmed(text))
    } else {
        Intent::Ignore
    }
}

/// The identifier of the anime that a command is about, if it is about one.
pub open spec fn subject_of(i: Intent) -> Option<u32> {
    match i {
        Intent::DetailsById(id) => Some(id),
        Intent::RecommendationsById(id) => Some(id),
        Intent::FixedSubjectDetails => Some(FIXED_SUBJECT_ID),
        Intent::FixedSubjectRecommendations => Some(FIXED_SUBJECT_ID),
        _ => None,
    }
}

/// Reads the argument `v[from..]` of a command that takes an identifier.
fn id_argument(v: &Vec<char>, from: usize) -> (r: Option<Option<u32>>)
    requires
        from <= v.len(),
    ensures
        r is None <==> trimmed(v@.skip(from as int)).len() == 0,
        r matches Some(id) ==> id == parse_id(trimmed(v@.skip(from as int))),
{
    let (a, b) = trim_range(v, from, v.len());
    proof {
        assert(v@.skip(from as int) =~= v@.subrange(from as int, v.len() as int));
        assert(v@.subrange(a as int, b as int).len() == b - a);
    }
    if a == b {
        None
    } else {
        Some(parse_u32(v, a, b))
    }
}

/// Classifies the text of a message.
pub fn classify(text: &str) -> (c: Command)
    ensures
        c@ == classify_text(text@),
{
    let v = chars_of(text);
    if same_text(&v, HELP_COMMAND) {
        Command::Help
    } else if has_prefix(&v, DETAILS_PREFIX) {
        match id_argument(&v, DETAILS_PREFIX.unicode_len()) {
            None => Command::InvalidDetails,
            Some(Some(id)) => Command::DetailsById(id),
            Some(None) => Command::InvalidId,
        }
    } else if has_prefix(&v, RECOMMENDATIONS_PREFIX) {
        match id_argument(&v, RECOMMENDATIONS_PREFIX.unicode_len()) {
            None => Command::InvalidRecommendations,
            Some(Some(id)) => Command::RecommendationsById(id),
            Some(None) => Command::InvalidId,
        }
    } else if same_text(&v, FIXED_DETAILS_COMMAND) {
        Command::FixedSubjectDetails
    } else if same_text(&v, FIXED_RECOMMENDATIONS_COMMAND) {
        Command::FixedSubjectRecommendations
    } else if has_prefix(&v, SEARCH_PREFIX) {
        let from = SEARCH_PREFIX.unicode_len();
        let (a, b) = trim_range(&v, from, v.len());
        proof {
            assert(v@.skip(from as int) =~= v@.subrange(from as int, v.len() as int));
            assert(v@.subrange(a as int, b as int).len() == b - a);
        }
        if a == b {
            Command::InvalidSearch
        } else {
            Command::SearchByName(slice_string(text, a, b))
        }
    } else {
        Command::Ignore
    }
}

/// Classifies a message: a message whose sender is no human asks for
/// nothing, whatever its text.
pub fn interpret(text: &str, sender_is_human: bool) -> (c: Command)
    ensures
        c@ == message_intent(text@, sender_is_human),
{
    if !sender_is_human {
        return Command::Ignore;
    }
    let v = chars_of(text);
    let (a, b) = trim_range(&v, 0, v.len());
    proof {
        assert(v@.subrange(0, v.len() as int) =~= v@);
    }
    classify(text.substring_char(a, b))
}

/// A text that begins with the prefix of a details command is read as a
/// details command, never as a search, whatever follows the prefix.
pub proof fn lemma_details_before_search(rest: Seq<char>)
    ensures
        classify_text(DETAILS_PREFIX@ + rest) == details_intent(rest),
        !(classify_text(DETAILS_PREFIX@ + rest) is SearchByName),
{
    reveal_strlit("!help");
    reveal_strlit("!anime details ");
    let t = DETAILS_PREFIX@ + rest;
    assert(t[1] == 'a');
    assert(t.subrange(0, DETAILS_PREFIX@.len() as int) =~= DETAILS_PREFIX@);
    assert(t.skip(DETAILS_PREFIX@.len() as int) =~= rest);
}

/// A text that begins with the prefix of a recommendations command is read
/// as a recommendations command, never as a search.
pub proof fn lemma_recommendations_before_search(rest: Seq<char>)
    ensures
        classify_text(RECOMMENDATIONS_PREFIX@ + rest) == recommendations_intent(rest),
        !(classify_text(RECOMMENDATIONS_PREFIX@ + rest) is SearchByName),
{
    reveal_strlit("!help");
    reveal_strlit("!anime details ");
    reveal_strlit("!anime recommendations ");
    let t = RECOMMENDATIONS_PREFIX@ + rest;
    assert(t[1] == 'a');
    assert(t[7] == 'r');
    assert(t.subrange(0, DETAILS_PREFIX@.len() as int)[7] == t[7]);
    assert(t.subrange(0, RECOMMENDATIONS_PREFIX@.len() as int) =~= RECOMMENDATIONS_PREFIX@);
    assert(t.skip(RECOMMENDATIONS_PREFIX@.len() as int) =~= rest);
}

/// A details command that is followed by nothing but white space lacks its
/// argument.
pub proof fn lemma_details_without_argument(rest: Seq<char>)
    requires
        is_blank(rest),
    ensures
        classify_text(DETAILS_PREFIX@ + rest) == Intent::InvalidDetails,
{
    lemma_details_before_search(rest);
    lemma_trimmed_blank(rest);
}

/// A details command whose argument is present but does not denote an
/// identifier has an invalid identifier.
pub proof fn lemma_details_not_a_number(rest: Seq<char>)
    requires
        !is_blank(rest),
        parse_id(trimmed(rest)) is None,
    ensures
        classify_text(DETAILS_PREFIX@ + rest) == Intent::InvalidId,
{
    lemma_details_before_search(rest);
    lemma_trimmed_blank(rest);
}

/// A details command followed by the decimal notation of an identifier asks
/// for the details of that identifier.
pub proof fn lemma_details_of_decimal(id: u32)
    ensures
        classify_text(DETAILS_PREFIX@ + decimal(id as nat)) == Intent::DetailsById(id),
{
    lemma_details_before_search(decimal(id as nat));
    lemma_parse_decimal(id);
}

/// A recommendations command followed by the decimal notation of an
/// identifier asks for the recommendations of that identifier.
pub proof fn lemma_recommendations_of_decimal(id: u32)
    ensures
        classify_text(RECOMMENDATIONS_PREFIX@ + decimal(id as nat))
            == Intent::RecommendationsById(id),
{
    lemma_recommendations_before_search(decimal(id as nat));
    lemma_parse_decimal(id);
}

/// The name that a search command asks for is never empty and has no white
/// space around it.
pub proof fn lemma_search_name_is_trimmed(t: Seq<char>)
    ensures
        match classify_text(t) {
            Intent::SearchByName(name) => name.len() > 0 && trimmed(name) == name,
            _ => true,
        },
{
    lemma_trimmed_twice(t.skip(SEARCH_PREFIX@.len() as int));
}

/// White space around the text of a message does not matter: the message
/// stands for the same command as its trimmed text.
pub proof fn lemma_message_trimmed(text: Seq<char>, sender_is_human: bool)
    ensures
        message_intent(trimmed(text), sender_is_human) == message_intent(text, sender_is_human),
{
    lemma_trimmed_twice(text);
}

/// A message whose sender is no human is ignored, whatever its text.
pub proof fn lemma_non_human_ignored(text: Seq<char>)
    ensures
        message_intent(text, false) == Intent::Ignore,
{
}

} // verus!
