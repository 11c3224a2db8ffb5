//! The session handler: what to do on a message, and what to send once the
//! metadata service has answered. The handler decides; its caller sends,
//! calls the service and keeps the query log.

use vstd::prelude::*;
use crate::card::{Card, CardView, Payload, PayloadView};
use crate::command::{interpret, message_intent, Command, Intent, FIXED_SUBJECT_ID};
use crate::jikan_api::{
    entries, summaries, Anime, AnimeDetail, AnimeDetails, AnimeSummary, RecommendationEntry,
    RecommendationItem,
};
use crate::render::{
    details_card, details_missing_notice, details_missing_text, fetching_details_notice,
    fetching_details_text, fetching_recommendations_notice, fetching_recommendations_text,
    format_details, format_recommendations, format_search_results, help_card, help_card_view,
    no_recommendations_notice, no_recommendations_text, no_results_notice, no_results_text,
    recommendations_card, recommendations_failed_notice, recommendations_failed_text,
    search_card, searching_notice, searching_text, DETAILS_USAGE, INVALID_ID_NOTICE,
    RECOMMENDATIONS_USAGE, SEARCH_FAILED_NOTICE, SEARCH_USAGE,
};

verus! {

/// How many hits a search asks for.
pub const SEARCH_LIMIT: u32 = 5;

/// One step that the caller of the handler takes for it.
#[derive(Debug, Clone, PartialEq, Eq)]
pub enum Action {
    /// Reply to the message with a text.
    Reply(String),
    /// Say a text in the channel of the message.
    Say(String),
    /// Send a card to the channel of the message.
    Send(Card),
    /// Append a search to the query log of a user.
    RecordQuery { user: String, query: String },
    /// Search the service for titles, and hand the hits to `search_reply`.
    Search { query: String, limit: u32 },
    /// Ask the service for the details of an anime, and hand them to
    /// `details_reply`.
    FetchDetails(u32),
    /// Ask the service for the recommendations that go with an anime, and
    /// hand them to `recommendations_reply`.
    FetchRecommendations(u32),
}

/// An action as a value.
pub enum ActionView {
    Reply(Seq<char>),
    Say(Seq<char>),
    Send(CardView),
    RecordQuery { user: Seq<char>, query: Seq<char> },
    Search { query: Seq<char>, limit: u32 },
    FetchDetails(u32),
    FetchRecommendations(u32),
}

impl View for Action {
    type V = ActionView;

    open spec fn view(&self) -> ActionView {
        match self {
            Action::Reply(s) => ActionView::Reply(s@),
            Action::Say(s) => ActionView::Say(s@),
            Action::Send(c) => ActionView::Send(c@),
            Action::RecordQuery { user, query } => ActionView::RecordQuery {
                user: user@,
                query: query@,
            },
            Action::Search { query, limit } => ActionView::Search { query: query@, limit: *limit },
            Action::FetchDetails(id) => ActionView::FetchDetails(*id),
            Action::FetchRecommendations(id) => ActionView::FetchRecommendations(*id),
        }
    }
}

/// The actions of `v` as values, in order.
pub open spec fn action_views(v: Seq<Action>) -> Seq<ActionView> {
    v.map_values(|a: Action| a@)
}

/// Whether an action calls the metadata service.
pub open spec fn calls_service(a: ActionView) -> bool {
    a is Search || a is FetchDetails || a is FetchRecommendations
}

/// The steps for a request for the details of `id`: an acknowledgement,
/// then the call.
pub open spec fn details_plan(id: u32) -> Seq<ActionView> {
    seq![ActionView::Say(fetching_details_text(id)), ActionView::FetchDetails(id)]
}

/// The steps for a request for the recommendations that go with `id`: an
/// acknowledgement, then the call.
pub open spec fn recommendations_plan(id: u32) -> Seq<ActionView> {
    seq![ActionView::Say(fetching_recommendations_text(id)), ActionView::FetchRecommendations(id)]
}

/// The steps for a command of the user `sender`, in order.
pub open spec fn plan_of(intent: Intent, sender: Seq<char>) -> Seq<ActionView> {
    match intent {
        Intent::Help => seq![ActionView::Send(help_card_view())],
        Intent::SearchByName(query) => seq![
            ActionView::Say(searching_text(query)),
            ActionView::RecordQuery { user: sender, query },
            ActionView::Search { query, limit: SEARCH_LIMIT },
        ],
        Intent::InvalidSearch => seq![ActionView::Reply(SEARCH_USAGE@)],
        Intent::DetailsById(id) => details_plan(id),
        Intent::InvalidDetails => seq![ActionView::Reply(DETAILS_USAGE@)],
        Intent::RecommendationsById(id) => recommendations_plan(id),
        Intent::InvalidRecommendations => seq![ActionView::Reply(RECOMMENDATIONS_USAGE@)],
        Intent::InvalidId => seq![ActionView::Reply(INVALID_ID_NOTICE@)],
        Intent::FixedSubjectDetails => details_plan(FIXED_SUBJECT_ID),
        Intent::FixedSubjectRecommendations => recommendations_plan(FIXED_SUBJECT_ID),
        Intent::Ignore => Seq::empty(),
    }
}

/// What is sent once a search for `query` has ended: an apology where it
/// failed, a notice where it found nothing, else the card of its hits.
pub open spec fn search_reply_of(query: Seq<char>, result: Option<Seq<AnimeSummary>>) -> PayloadView {
    match result {
        None => PayloadView::Plain(SEARCH_FAILED_NOTICE@),
        Some(hits) => if hits.len() == 0 {
            PayloadView::Plain(no_results_text(query))
        } else {
            PayloadView::Rich(search_card(query, hits))
        },
    }
}

/// What is sent once a request for the details of `id` has ended.
pub open spec fn details_reply_of(id: u32, result: Option<AnimeDetail>) -> PayloadView {
    match result {
        None => PayloadView::Plain(details_missing_text(id)),
        Some(d) => PayloadView::Rich(details_card(d)),
    }
}

/// What is sent once a request for the recommendations that go with `id`
/// has ended.
pub open spec fn recommendations_reply_of(
    id: u32,
    result: Option<Seq<RecommendationEntry>>,
) -> PayloadView {
    match result {
        None => PayloadView::Plain(recommendations_failed_text(id)),
        Some(found) => if found.len() == 0 {
            PayloadView::Plain(no_recommendations_text(id))
        } else {
            PayloadView::Rich(recommendations_card(id, found))
        },
    }
}

/// The hits of a search as values, where it brought any.
pub open spec fn hits_of(result: Option<Vec<Anime>>) -> Option<Seq<AnimeSummary>> {
    match result {
        Some(v) => Some(summaries(v@)),
        None => None,
    }
}

/// A detail record as a value, where there is one.
pub open spec fn detail_of(result: Option<AnimeDetails>) -> Option<AnimeDetail> {
    match result {
        Some(d) => Some(d@),
        None => None,
    }
}

/// Recommendations as values, where there are any.
pub open spec fn recommendations_of(result: Option<Vec<RecommendationItem>>) -> Option<
    Seq<RecommendationEntry>,
> {
    match result {
        Some(v) => Some(entries(v@)),
        None => None,
    }
}

/// The steps for a request for the details of `id`.
pub fn plan_details(id: u32) -> (actions: Vec<Action>)
    ensures
        action_views(actions@) == details_plan(id),
{
    let mut actions: Vec<Action> = Vec::new();
    actions.push(Action::Say(fetching_details_notice(id)));
    actions.push(Action::FetchDetails(id));
    assert(action_views(actions@) =~= details_plan(id));
    actions
}

/// The steps for a request for the recommendations that go with `id`.
pub fn plan_recommendations(id: u32) -> (actions: Vec<Action>)
    ensures
        action_views(actions@) == recommendations_plan(id),
{
    let mut actions: Vec<Action> = Vec::new();
    actions.push(Action::Say(fetching_recommendations_notice(id)));
    actions.push(Action::FetchRecommendations(id));
    assert(action_views(actions@) =~= recommendations_plan(id));
    actions
}

/// The one step that replies with a fixed text.
fn plan_reply(text: &str) -> (actions: Vec<Action>)
    ensures
        action_views(actions@) == seq![ActionView::Reply(text@)],
{
    let mut actions: Vec<Action> = Vec::new();
    actions.push(Action::Reply(text.to_owned()));
    assert(action_views(actions@) =~= seq![ActionView::Reply(text@)]);
    actions
}

/// The steps for `command`, sent by the user `sender_id`.
pub fn plan(command: &Command, sender_id: &str) -> (actions: Vec<Action>)
    ensures
        action_views(actions@) == plan_of(command@, sender_id@),
{
    match command {
        Command::Help => {
            let mut actions: Vec<Action> = Vec::new();
            actions.push(Action::Send(help_card()));
            assert(action_views(actions@) =~= seq![ActionView::Send(help_card_view())]);
            actions
        },
        Command::SearchByName(query) => {
            let mut actions: Vec<Action> = Vec::new();
            actions.push(Action::Say(searching_notice(query.as_str())));
            actions.push(
                Action::RecordQuery { user: sender_id.to_owned(), query: query.clone() },
            );
            actions.push(Action::Search { query: query.clone(), limit: SEARCH_LIMIT });
            assert(action_views(actions@) =~= plan_of(command@, sender_id@));
            actions
        },
        Command::InvalidSearch => plan_reply(SEARCH_USAGE),
        Command::DetailsById(id) => plan_details(*id),
        Command::InvalidDetails => plan_reply(DETAILS_USAGE),
        Command::RecommendationsById(id) => plan_recommendations(*id),
        Command::InvalidRecommendations => plan_reply(RECOMMENDATIONS_USAGE),
        Command::InvalidId => plan_reply(INVALID_ID_NOTICE),
        Command::FixedSubjectDetails => plan_details(FIXED_SUBJECT_ID),
        Command::FixedSubjectRecommendations => plan_recommendations(FIXED_SUBJECT_ID),
        Command::Ignore => {
            let actions: Vec<Action> = Vec::new();
            assert(action_views(actions@) =~= Seq::<ActionView>::empty());
            actions
        },
    }
}

/// What to send once a search for `query` has ended with `result`.
pub fn search_reply(query: &str, result: &Option<Vec<Anime>>) -> (payload: Payload)
    ensures
        payload@ == search_reply_of(query@, hits_of(*result)),
{
    match result {
        None => Payload::Plain(SEARCH_FAILED_NOTICE.to_owned()),
        Some(animes) => {
            if animes.len() == 0 {
                Payload::Plain(no_results_notice(query))
            } else {
                Payload::Rich(format_search_results(query, animes))
            }
        },
    }
}

/// What to send once a request for the details of `mal_id` has ended with
/// `result`.
pub fn details_reply(mal_id: u32, result: &Option<AnimeDetails>) -> (payload: Payload)
    ensures
        payload@ == details_reply_of(mal_id, detail_of(*result)),
{
    match result {
        None => Payload::Plain(details_missing_notice(mal_id)),
        Some(details) => Payload::Rich(format_details(details)),
    }
}

/// What to send once a request for the recommendations that go with
/// `mal_id` has ended with `result`.
pub fn recommendations_reply(mal_id: u32, result: &Option<Vec<RecommendationItem>>) -> (payload:
    Payload)
    ensures
        payload@ == recommendations_reply_of(mal_id, recommendations_of(*result)),
{
    match result {
        None => Payload::Plain(recommendations_failed_notice(mal_id)),
        Some(found) => {
            if found.len() == 0 {
                Payload::Plain(no_recommendations_notice(mal_id))
            } else {
                Payload::Rich(format_recommendations(mal_id, found))
            }
        },
    }
}

/// The handler of a bot session. It holds no state: every message is
/// handled by itself.
#[derive(Debug, Clone, Copy, PartialEq, Eq)]
pub struct Handler;

impl Handler {
    /// The steps to take for a message, in order. A message of a sender that
    /// is no human brings no step at all.
    pub fn message(&self, text: &str, sender_is_human: bool, sender_id: &str) -> (actions: Vec<
        Action,
    >)
        ensures
            action_views(actions@) == plan_of(message_intent(text@, sender_is_human), sender_id@),
            !sender_is_human ==> actions@.len() == 0,
    {
        let command = interpret(text, sender_is_human);
        let actions = plan(&command, sender_id);
        proof {
            if !sender_is_human {
                assert(action_views(actions@).len() == 0);
            }
        }
        actions
    }
}

/// No step is taken for a message whose sender is no human: nothing is
/// sent, recorded or asked of the service.
pub proof fn lemma_non_human_plan_is_empty(text: Seq<char>, sender: Seq<char>)
    ensures
        plan_of(message_intent(text, false), sender) == Seq::<ActionView>::empty(),
{
}

/// A plan calls the service exactly where the command names a subject or a
/// search, and then once, as its last step.
pub proof fn lemma_plan_calls(intent: Intent, sender: Seq<char>)
    ensures
        (exists|i: int| 0 <= i < plan_of(intent, sender).len() && calls_service(
            #[trigger] plan_of(intent, sender)[i],
        )) <==> (intent is SearchByName || crate::command::subject_of(intent) is Some),
        forall|i: int|
            0 <= i < plan_of(intent, sender).len() - 1 ==> !calls_service(
                #[trigger] plan_of(intent, sender)[i],
            ),
{
    let p = plan_of(intent, sender);
    if intent is SearchByName || crate::command::subject_of(intent) is Some {
        assert(calls_service(p[p.len() - 1]));
    }
}

/// A command that lacks its argument, or whose identifier is no number, is
/// answered by one reply and leads to no call of the service.
pub proof fn lemma_invalid_commands_only_reply(intent: Intent, sender: Seq<char>)
    requires
        intent is InvalidSearch || intent is InvalidDetails || intent is InvalidRecommendations
            || intent is InvalidId,
    ensures
        plan_of(intent, sender).len() == 1,
        plan_of(intent, sender)[0] is Reply,
{
}

/// A request about a subject asks the service about that subject, whether
/// the subject was given by its identifier or by a shortcut.
pub proof fn lemma_plan_asks_about_subject(intent: Intent, sender: Seq<char>)
    requires
        crate::command::subject_of(intent) is Some,
    ensures
        plan_of(intent, sender).len() == 2,
        plan_of(intent, sender)[0] is Say,
        match plan_of(intent, sender)[1] {
            ActionView::FetchDetails(id) => (intent is DetailsById || intent is FixedSubjectDetails)
                && Some(id) == crate::command::subject_of(intent),
            ActionView::FetchRecommendations(id) => (intent is RecommendationsById
                || intent is FixedSubjectRecommendations) && Some(id)
                == crate::command::subject_of(intent),
            _ => false,
        },
{
}

} // verus!
