//! The records that the anime-metadata service answers with, the requests
//! that ask for them, and the rule that turns an answer into a result.

use vstd::prelude::*;
use crate::text::{decimal, decimal_string, push_decimal, text_of, texts_of};

verus! {

/// One hit of a search.
#[derive(Debug, Clone, PartialEq, Eq)]
pub struct Anime {
    pub mal_id: u32,
    pub title: String,
}

/// The answer to a search.
#[derive(Debug, Clone, PartialEq, Eq)]
pub struct JikanSearchResponse {
    pub data: Vec<Anime>,
}

/// When a title was aired.
#[derive(Debug, Clone, PartialEq, Eq)]
pub struct Aired {
    pub from: Option<String>,
    pub to: Option<String>,
    pub string: Option<String>,
}

/// The addresses of one rendition of an image.
#[derive(Debug, Clone, PartialEq, Eq)]
pub struct ImageUrls {
    pub image_url: Option<String>,
}

/// The renditions of an image.
#[derive(Debug, Clone, PartialEq, Eq)]
pub struct CommonImageResource {
    pub jpg: Option<ImageUrls>,
}

/// The trailer of a title on the video platform.
#[derive(Debug, Clone, PartialEq, Eq)]
pub struct YoutubeMeta {
    pub youtube_id: Option<String>,
}

/// One of the alternate titles of an anime.
#[derive(Debug, Clone, PartialEq, Eq)]
pub struct Title {
    pub title: String,
}

/// All that the service knows of one anime. `score` holds the score in
/// decimal notation.
#[derive(Debug, Clone, PartialEq, Eq)]
pub struct AnimeDetails {
    pub mal_id: u32,
    pub url: String,
    pub images: Option<CommonImageResource>,
    pub trailer: Option<YoutubeMeta>,
    pub approved: Option<bool>,
    pub titles: Vec<Title>,
    pub title: String,
    pub title_english: Option<String>,
    pub title_japanese: Option<String>,
    pub title_synonyms: Vec<String>,
    pub anime_type: Option<String>,
    pub source: Option<String>,
    pub episodes: Option<u32>,
    pub status: String,
    pub airing: Option<bool>,
    pub aired: Aired,
    pub duration: Option<String>,
    pub rating: Option<String>,
    pub score: Option<String>,
    pub scored_by: Option<u32>,
    pub rank: Option<u32>,
    pub popularity: Option<u32>,
    pub members: Option<u32>,
    pub favorites: Option<u32>,
    pub synopsis: Option<String>,
}

/// The answer to a request for details.
#[derive(Debug, Clone, PartialEq, Eq)]
pub struct JikanDetailsResponse {
    pub data: AnimeDetails,
}

/// The anime that a recommendation points to.
#[derive(Debug, Clone, PartialEq, Eq)]
pub struct RecommendationEntryDetails {
    pub mal_id: u32,
    pub url: String,
    pub images: CommonImageResource,
    pub title: String,
}

/// One recommendation.
#[derive(Debug, Clone, PartialEq, Eq)]
pub struct RecommendationItem {
    pub entry: RecommendationEntryDetails,
}

/// The answer to a request for recommendations.
#[derive(Debug, Clone, PartialEq, Eq)]
pub struct JikanRecommendationsResponse {
    pub data: Vec<RecommendationItem>,
}

/// A search hit as a value: its identifier and its title.
pub struct AnimeSummary {
    pub id: u32,
    pub title: Seq<char>,
}

/// An airing period as a value. Where `display` is present it is what gets
/// shown, whatever `from` and `to` hold.
pub struct AiredRange {
    pub from: Option<Seq<char>>,
    pub to: Option<Seq<char>>,
    pub display: Option<Seq<char>>,
}

/// A detail record as a value.
pub struct AnimeDetail {
    pub id: u32,
    pub url: Seq<char>,
    pub title: Seq<char>,
    pub title_english: Option<Seq<char>>,
    pub title_japanese: Option<Seq<char>>,
    pub synonyms: Seq<Seq<char>>,
    pub approved: Option<bool>,
    pub kind: Option<Seq<char>>,
    pub source: Option<Seq<char>>,
    pub episode_count: Option<u32>,
    pub status: Seq<char>,
    pub airing: Option<bool>,
    pub aired: AiredRange,
    pub duration: Option<Seq<char>>,
    pub rating: Option<Seq<char>>,
    pub score: Option<Seq<char>>,
    pub scored_by: Option<u32>,
    pub rank: Option<u32>,
    pub popularity: Option<u32>,
    pub members: Option<u32>,
    pub favorites: Option<u32>,
    pub synopsis: Option<Seq<char>>,
    pub cover_image_url: Option<Seq<char>>,
    pub trailer_id: Option<Seq<char>>,
    pub alternate_titles: Seq<Seq<char>>,
}

/// A recommendation as a value.
pub struct RecommendationEntry {
    pub id: u32,
    pub title: Seq<char>,
    pub url: Seq<char>,
    pub cover_image_url: Option<Seq<char>>,
}

impl View for Anime {
    type V = AnimeSummary;

    open spec fn view(&self) -> AnimeSummary {
        AnimeSummary { id: self.mal_id, title: self.title@ }
    }
}

impl View for Aired {
    type V = AiredRange;

    open spec fn view(&self) -> AiredRange {
        AiredRange {
            from: text_of(self.from),
            to: text_of(self.to),
            display: text_of(self.string),
        }
    }
}

impl View for ImageUrls {
    type V = Option<Seq<char>>;

    open spec fn view(&self) -> Option<Seq<char>> {
        text_of(self.image_url)
    }
}

impl View for CommonImageResource {
    type V = Option<Seq<char>>;

    /// The address of the cover image, where there is one.
    open spec fn view(&self) -> Option<Seq<char>> {
        match self.jpg {
            Some(urls) => urls@,
            None => None,
        }
    }
}

impl View for YoutubeMeta {
    type V = Option<Seq<char>>;

    open spec fn view(&self) -> Option<Seq<char>> {
        text_of(self.youtube_id)
    }
}

impl View for Title {
    type V = Seq<char>;

    open spec fn view(&self) -> Seq<char> {
        self.title@
    }
}

impl View for AnimeDetails {
    type V = AnimeDetail;

    open spec fn view(&self) -> AnimeDetail {
        AnimeDetail {
            id: self.mal_id,
            url: self.url@,
            title: self.title@,
            title_english: text_of(self.title_english),
            title_japanese: text_of(self.title_japanese),
            synonyms: texts_of(self.title_synonyms@),
            approved: self.approved,
            kind: text_of(self.anime_type),
            source: text_of(self.source),
            episode_count: self.episodes,
            status: self.status@,
            airing: self.airing,
            aired: self.aired@,
            duration: text_of(self.duration),
            rating: text_of(self.rating),
            score: text_of(self.score),
            scored_by: self.scored_by,
            rank: self.rank,
            popularity: self.popularity,
            members: self.members,
            favorites: self.favorites,
            synopsis: text_of(self.synopsis),
            cover_image_url: match self.images {
                Some(images) => images@,
                None => None,
            },
            trailer_id: match self.trailer {
                Some(trailer) => trailer@,
                None => None,
            },
            alternate_titles: self.titles@.map_values(|t: Title| t@),
        }
    }
}

impl View for RecommendationEntryDetails {
    type V = RecommendationEntry;

    open spec fn view(&self) -> RecommendationEntry {
        RecommendationEntry {
            id: self.mal_id,
            title: self.title@,
            url: self.url@,
            cover_image_url: self.images@,
        }
    }
}

impl View for RecommendationItem {
    type V = RecommendationEntry;

    open spec fn view(&self) -> RecommendationEntry {
        self.entry@
    }
}

impl View for JikanSearchResponse {
    type V = Seq<AnimeSummary>;

    open spec fn view(&self) -> Seq<AnimeSummary> {
        summaries(self.data@)
    }
}

impl View for JikanDetailsResponse {
    type V = AnimeDetail;

    open spec fn view(&self) -> AnimeDetail {
        self.data@
    }
}

impl View for JikanRecommendationsResponse {
    type V = Seq<RecommendationEntry>;

    open spec fn view(&self) -> Seq<RecommendationEntry> {
        entries(self.data@)
    }
}

/// The search hits of `v` as values, in order.
pub open spec fn summaries(v: Seq<Anime>) -> Seq<AnimeSummary> {
    v.map_values(|a: Anime| a@)
}

/// The recommendations of `v` as values, in order.
pub open spec fn entries(v: Seq<RecommendationItem>) -> Seq<RecommendationEntry> {
    v.map_values(|r: RecommendationItem| r@)
}

/// The address that searches go to, and that the address of every anime
/// begins with.
pub const API_BASE: &'static str = "https://api.jikan.moe/v4/anime";

/// One parameter of the query part of a request.
#[derive(Debug, Clone, PartialEq, Eq)]
pub struct Parameter {
    pub name: String,
    pub value: String,
}

/// A request to the service: an address, and the parameters of its query
/// part, not yet encoded.
#[derive(Debug, Clone, PartialEq, Eq)]
pub struct Request {
    pub url: String,
    pub query: Vec<Parameter>,
}

/// A parameter as a value.
pub struct ParameterView {
    pub name: Seq<char>,
    pub value: Seq<char>,
}

/// A request as a value.
pub struct RequestView {
    pub url: Seq<char>,
    pub query: Seq<ParameterView>,
}

impl View for Parameter {
    type V = ParameterView;

    open spec fn view(&self) -> ParameterView {
        ParameterView { name: self.name@, value: self.value@ }
    }
}

impl View for Request {
    type V = RequestView;

    open spec fn view(&self) -> RequestView {
        RequestView { url: self.url@, query: self.query@.map_values(|p: Parameter| p@) }
    }
}

/// The request that searches for `query` and asks for at most `limit` hits.
pub open spec fn search_request_of(query: Seq<char>, limit: u32) -> RequestView {
    RequestView {
        url: API_BASE@,
        query: seq![
            ParameterView { name: "q"@, value: query },
            ParameterView { name: "limit"@, value: decimal(limit as nat) },
        ],
    }
}

/// The request for the details of the anime `id`.
pub open spec fn details_request_of(id: u32) -> RequestView {
    RequestView { url: API_BASE@ + "/"@ + decimal(id as nat), query: Seq::empty() }
}

/// The request for the recommendations that go with the anime `id`.
pub open spec fn recommendations_request_of(id: u32) -> RequestView {
    RequestView {
        url: API_BASE@ + "/"@ + decimal(id as nat) + "/recommendations"@,
        query: Seq::empty(),
    }
}

/// The request that searches for `query` and asks for at most `limit` hits.
pub fn search_request(query: &str, limit: u32) -> (r: Request)
    ensures
        r@ == search_request_of(query@, limit),
{
    let count = decimal_string(limit);
    let mut parameters: Vec<Parameter> = Vec::new();
    parameters.push(Parameter { name: "q".to_owned(), value: query.to_owned() });
    parameters.push(Parameter { name: "limit".to_owned(), value: count });
    let r = Request { url: API_BASE.to_owned(), query: parameters };
    assert(r@.query =~= search_request_of(query@, limit).query);
    r
}

/// The request for the details of the anime `mal_id`.
pub fn details_request(mal_id: u32) -> (r: Request)
    ensures
        r@ == details_request_of(mal_id),
{
    let mut url = API_BASE.to_owned();
    url.append("/");
    push_decimal(&mut url, mal_id);
    let r = Request { url, query: Vec::new() };
    assert(r@.query =~= Seq::<ParameterView>::empty());
    r
}

/// The request for the recommendations that go with the anime `mal_id`.
pub fn recommendations_request(mal_id: u32) -> (r: Request)
    ensures
        r@ == recommendations_request_of(mal_id),
{
    let mut url = API_BASE.to_owned();
    url.append("/");
    push_decimal(&mut url, mal_id);
    url.append("/recommendations");
    let r = Request { url, query: Vec::new() };
    assert(r@.query =~= Seq::<ParameterView>::empty());
    r
}

/// How a request ended, as its sender saw it: the service was not reached,
/// or it answered with a status and, where the body was read and decoded,
/// a payload; where not, the reason.
#[derive(Debug, PartialEq, Eq)]
pub enum Answer<T> {
    Unreachable,
    Status { code: u16, payload: Result<T, String> },
}

/// Why a request brought no record.
#[derive(Debug, Clone, PartialEq, Eq)]
pub enum Failure {
    /// The service was not reached.
    Network,
    /// The service answered with a status that does not mean success.
    HttpStatus(u16),
    /// The body of the answer was not read, or was not what was expected.
    Decode(String),
}

/// Whether a status means success: the statuses from 200 to 299 do.
pub open spec fn is_success_status(code: u16) -> bool {
    200 <= code < 300
}

/// What an answer amounts to: its payload where the status means success
/// and the payload was decoded, else the reason why there is none.
pub open spec fn outcome_of<T>(answer: Answer<T>) -> Result<T, Failure> {
    match answer {
        Answer::Unreachable => Err(Failure::Network),
        Answer::Status { code, payload } => if !is_success_status(code) {
            Err(Failure::HttpStatus(code))
        } else {
            match payload {
                Ok(value) => Ok(value),
                Err(reason) => Err(Failure::Decode(reason)),
            }
        },
    }
}

/// What the caller of the client gets to see of an outcome: the payload,
/// or that there is none.
pub open spec fn visible<T>(outcome: Result<T, Failure>) -> Option<T> {
    match outcome {
        Ok(value) => Some(value),
        Err(_) => None,
    }
}

/// Whether a status means success.
pub fn is_success(code: u16) -> (b: bool)
    ensures
        b == is_success_status(code),
{
    200 <= code && code < 300
}

/// What an answer amounts to.
pub fn outcome<T>(answer: Answer<T>) -> (r: Result<T, Failure>)
    ensures
        r == outcome_of(answer),
{
    match answer {
        Answer::Unreachable => Err(Failure::Network),
        Answer::Status { code, payload } => {
            if !is_success(code) {
                Err(Failure::HttpStatus(code))
            } else {
                match payload {
                    Ok(value) => Ok(value),
                    Err(reason) => Err(Failure::Decode(reason)),
                }
            }
        },
    }
}

/// The hits of a search, given how the request ended: none where it
/// failed, for whatever reason.
pub fn search_anime(answer: Answer<JikanSearchResponse>) -> (r: Option<Vec<Anime>>)
    ensures
        r == match visible(outcome_of(answer)) {
            Some(response) => Some(response.data),
            None => None,
        },
{
    match outcome(answer) {
        Ok(response) => Some(response.data),
        Err(_) => None,
    }
}

/// The details of an anime, given how the request ended: none where it
/// failed, for whatever reason.
pub fn get_anime_details_by_id(answer: Answer<JikanDetailsResponse>) -> (r: Option<AnimeDetails>)
    ensures
        r == match visible(outcome_of(answer)) {
            Some(response) => Some(response.data),
            None => None,
        },
{
    match outcome(answer) {
        Ok(response) => Some(response.data),
        Err(_) => None,
    }
}

/// The recommendations that go with an anime, in the order of the answer,
/// given how the request ended: none where it failed, for whatever reason.
pub fn get_anime_recommendations(answer: Answer<JikanRecommendationsResponse>) -> (r: Option<
    Vec<RecommendationItem>,
>)
    ensures
        r == match visible(outcome_of(answer)) {
            Some(response) => Some(response.data),
            None => None,
        },
{
    match outcome(answer) {
        Ok(response) => Some(response.data),
        Err(_) => None,
    }
}

} // verus!
