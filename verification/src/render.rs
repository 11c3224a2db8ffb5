//! Renders search hits, detail records and recommendations as cards, and
//! holds the fixed texts of the bot.

use vstd::prelude::*;
use crate::card::{
    field_views, plain_text_of, push_optional, with_optional, Card, CardView, Field, FieldView,
};
use crate::jikan_api::{
    entries, summaries, Aired, AiredRange, Anime, AnimeDetail, AnimeDetails, AnimeSummary,
    CommonImageResource, RecommendationEntry, RecommendationItem, Title,
};
use crate::text::{
    decimal, decimal_string, join_all, join_first, joined, push_decimal, slice_string, text_of,
    texts_of,
};

verus! {

/// The longest synopsis, in characters, that is shown whole.
pub const SYNOPSIS_LIMIT: usize = 1000;

/// The number of recommendations that a card shows.
pub const RECOMMENDATION_LIMIT: usize = 5;

/// The number of alternate titles that a card shows.
pub const ALTERNATE_TITLE_LIMIT: usize = 3;

/// The footer of a card of search hits.
pub const SEARCH_FOOTER: &'static str = "To get more details, type `!anime details <MAL_ID>`";

/// The title of the card that explains the commands.
pub const HELP_TITLE: &'static str = "Ferivonus Anime Bot Yard\u{131}m Men\u{fc}s\u{fc}";

/// The body of the card that explains the commands.
pub const HELP_TEXT: &'static str = "Hello! I'm an anime bot. Here are the commands you can use:\n\n\u{2022} `!anime <anime name>`: Searches for anime and lists basic information.\n\n\u{2022} `!anime details <MAL_ID>`: Fetches detailed information for a specific anime by its MyAnimeList ID.\n\n\u{2022} `!anime recommendations <MAL_ID>`: Fetches anime recommendations based on a given MyAnimeList ID.\n\n\u{2022} `!lain`: Get details about Serial Experiments Lain.\n\n\u{2022} `!lain recommendations`: Get recommendations based on Serial Experiments Lain.\n\n----------------------------------------\n\n**Example Usage:**\n`!anime Attack on Titan`\n`!anime details 16498` (for Attack on Titan)\n`!anime recommendations 16498` (for Attack on Titan recommendations)\n`!lain`\n`!lain recommendations`";

/// The reply to a search that failed.
pub const SEARCH_FAILED_NOTICE: &'static str =
    "An error occurred while searching for anime. Please try again later.";

/// The reply to a search command without a name.
pub const SEARCH_USAGE: &'static str =
    "Please provide an anime name to search. Usage: `!anime <anime name>` or `!anime details <MAL_ID>` or `!anime recommendations <MAL_ID>`";

/// The reply to a details command without an identifier.
pub const DETAILS_USAGE: &'static str =
    "Please provide an anime ID for details. Usage: `!anime details <MAL_ID>`";

/// The reply to a recommendations command without an identifier.
pub const RECOMMENDATIONS_USAGE: &'static str =
    "Please provide an anime ID for recommendations. Usage: `!anime recommendations <MAL_ID>`";

/// The reply to a command whose identifier is no number.
pub const INVALID_ID_NOTICE: &'static str = "Invalid MAL ID. Please provide a numeric ID.";

/// A synopsis as shown: whole where it has at most 1000 characters, else
/// its first 1000 characters and an ellipsis.
pub open spec fn short_synopsis(s: Seq<char>) -> Seq<char> {
    if s.len() > 1000 {
        s.take(1000) + "..."@
    } else {
        s
    }
}

/// A flag as shown: its value, or a marker where it is absent.
pub open spec fn flag_text(b: Option<bool>) -> Seq<char> {
    match b {
        Some(true) => "true"@,
        Some(false) => "false"@,
        None => "N/A"@,
    }
}

/// A text as shown where its absence is marked.
pub open spec fn text_or_marker(o: Option<Seq<char>>) -> Seq<char> {
    match o {
        Some(s) => s,
        None => "N/A"@,
    }
}

/// A count as shown where its absence is marked.
pub open spec fn count_or_marker(o: Option<u32>) -> Seq<char> {
    match o {
        Some(n) => decimal(n as nat),
        None => "N/A"@,
    }
}

/// `body` between `prefix` and `suffix`, where `body` is present.
pub open spec fn framed(prefix: Seq<char>, body: Option<Seq<char>>, suffix: Seq<char>) -> Option<
    Seq<char>,
> {
    match body {
        Some(s) => Some(prefix + s + suffix),
        None => None,
    }
}

/// The decimal notation of a count, where the count is present.
pub open spec fn count_text(o: Option<u32>) -> Option<Seq<char>> {
    match o {
        Some(n) => Some(decimal(n as nat)),
        None => None,
    }
}

/// An airing period as shown: its display text where it has one, else its
/// bounds as far as they are known, else nothing.
pub open spec fn aired_text(a: AiredRange) -> Option<Seq<char>> {
    match a.display {
        Some(s) => Some(s),
        None => match a.from {
            Some(f) => match a.to {
                Some(t) => Some("From: "@ + f + ", "@ + "To: "@ + t),
                None => Some("From: "@ + f),
            },
            None => match a.to {
                Some(t) => Some("To: "@ + t),
                None => None,
            },
        },
    }
}

/// The first `limit` of `items`, joined by a comma and a space; nothing
/// where there is no item.
pub open spec fn list_text(items: Seq<Seq<char>>, limit: int) -> Option<Seq<char>> {
    if items.len() == 0 || limit <= 0 {
        None
    } else if items.len() <= limit {
        Some(joined(items, ", "@))
    } else {
        Some(joined(items.take(limit), ", "@))
    }
}

/// The fields of the card of a detail record, in order.
pub open spec fn details_fields(d: AnimeDetail) -> Seq<FieldView> {
    let f = Seq::<FieldView>::empty();
    let f = with_optional(f, "English Title"@, d.title_english, true);
    let f = with_optional(f, "Japanese Title"@, d.title_japanese, true);
    let f = with_optional(f, "Synonyms"@, list_text(d.synonyms, d.synonyms.len() as int), false);
    let f = with_optional(f, "Approved"@, Some(flag_text(d.approved)), true);
    let f = with_optional(f, "Type"@, Some(text_or_marker(d.kind)), true);
    let f = with_optional(f, "Source"@, Some(text_or_marker(d.source)), true);
    let f = with_optional(f, "Episodes"@, Some(count_or_marker(d.episode_count)), true);
    let f = with_optional(f, "Status"@, Some(d.status), true);
    let f = with_optional(f, "Airing"@, Some(flag_text(d.airing)), true);
    let f = with_optional(f, "Aired"@, aired_text(d.aired), true);
    let f = with_optional(f, "Duration"@, d.duration, true);
    let f = with_optional(f, "Rating"@, d.rating, true);
    let f = with_optional(f, "Score"@, framed(Seq::empty(), d.score, "/10"@), true);
    let f = with_optional(
        f,
        "Scored by"@,
        framed(Seq::empty(), count_text(d.scored_by), " users"@),
        true,
    );
    let f = with_optional(f, "Rank"@, framed("#"@, count_text(d.rank), Seq::empty()), true);
    let f = with_optional(
        f,
        "Popularity"@,
        framed("#"@, count_text(d.popularity), Seq::empty()),
        true,
    );
    let f = with_optional(f, "Members"@, count_text(d.members), true);
    let f = with_optional(f, "Favorites"@, count_text(d.favorites), true);
    let f = with_optional(
        f,
        "Trailer"@,
        framed("<https://www.youtube.com/watch?v="@, d.trailer_id, ">"@),
        false,
    );
    with_optional(f, "Alternative Titles"@, list_text(d.alternate_titles, 3), false)
}

/// The card of a detail record.
pub open spec fn details_card(d: AnimeDetail) -> CardView {
    CardView {
        title: d.title + " (MAL ID: "@ + decimal(d.id as nat) + ")"@,
        description: match d.synopsis {
            Some(s) => Some(short_synopsis(s)),
            None => None,
        },
        url: Some(d.url),
        image: d.cover_image_url,
        fields: details_fields(d),
        footer: None,
        timestamp: true,
    }
}

/// A synopsis as shown.
pub fn truncate_synopsis(synopsis: &str) -> (r: String)
    ensures
        r@ == short_synopsis(synopsis@),
{
    let n = synopsis.unicode_len();
    if n > SYNOPSIS_LIMIT {
        let mut r = slice_string(synopsis, 0, SYNOPSIS_LIMIT);
        r.append("...");
        r
    } else {
        synopsis.to_owned()
    }
}

/// A copy of an optional text.
pub fn copy_text(o: &Option<String>) -> (r: Option<String>)
    ensures
        text_of(r) == text_of(*o),
{
    match o {
        Some(s) => Some(s.clone()),
        None => None,
    }
}

/// A flag as shown.
pub fn flag_string(b: Option<bool>) -> (r: String)
    ensures
        r@ == flag_text(b),
{
    match b {
        Some(true) => "true".to_owned(),
        Some(false) => "false".to_owned(),
        None => "N/A".to_owned(),
    }
}

/// A text as shown where its absence is marked.
pub fn string_or_marker(o: &Option<String>) -> (r: String)
    ensures
        r@ == text_or_marker(text_of(*o)),
{
    match o {
        Some(s) => s.clone(),
        None => "N/A".to_owned(),
    }
}

/// A count as shown where its absence is marked.
pub fn count_string_or_marker(o: Option<u32>) -> (r: String)
    ensures
        r@ == count_or_marker(o),
{
    match o {
        Some(n) => decimal_string(n),
        None => "N/A".to_owned(),
    }
}

/// `body` followed by `suffix`, where `body` is present.
pub fn with_suffix(body: &Option<String>, suffix: &str) -> (r: Option<String>)
    ensures
        text_of(r) == framed(Seq::empty(), text_of(*body), suffix@),
{
    match body {
        Some(s) => {
            let mut r = s.clone();
            r.append(suffix);
            assert(r@ =~= Seq::<char>::empty() + s@ + suffix@);
            Some(r)
        },
        None => None,
    }
}

/// `body` between `prefix` and `suffix`, where `body` is present.
pub fn between(prefix: &str, body: &Option<String>, suffix: &str) -> (r: Option<String>)
    ensures
        text_of(r) == framed(prefix@, text_of(*body), suffix@),
{
    match body {
        Some(s) => {
            let mut r = prefix.to_owned();
            r.append(s.as_str());
            r.append(suffix);
            Some(r)
        },
        None => None,
    }
}

/// The decimal notation of a count, where the count is present.
pub fn count_string(o: Option<u32>) -> (r: Option<String>)
    ensures
        text_of(r) == count_text(o),
{
    match o {
        Some(n) => Some(decimal_string(n)),
        None => None,
    }
}

/// A count after `prefix`, where the count is present.
pub fn count_after(prefix: &str, o: Option<u32>) -> (r: Option<String>)
    ensures
        text_of(r) == framed(prefix@, count_text(o), Seq::empty()),
{
    match o {
        Some(n) => {
            let mut r = prefix.to_owned();
            push_decimal(&mut r, n);
            assert(r@ =~= prefix@ + decimal(n as nat) + Seq::<char>::empty());
            Some(r)
        },
        None => None,
    }
}

/// A count before `suffix`, where the count is present.
pub fn count_before(o: Option<u32>, suffix: &str) -> (r: Option<String>)
    ensures
        text_of(r) == framed(Seq::empty(), count_text(o), suffix@),
{
    match o {
        Some(n) => {
            let mut r = decimal_string(n);
            r.append(suffix);
            assert(r@ =~= Seq::<char>::empty() + decimal(n as nat) + suffix@);
            Some(r)
        },
        None => None,
    }
}

/// An airing period as shown.
pub fn aired_string(aired: &Aired) -> (r: Option<String>)
    ensures
        text_of(r) == aired_text(aired@),
{
    match &aired.string {
        Some(s) => Some(s.clone()),
        None => {
            let mut dates = String::new();
            let mut any = false;
            match &aired.from {
                Some(from) => {
                    dates.append("From: ");
                    dates.append(from.as_str());
                    any = true;
                },
                None => {},
            }
            match &aired.to {
                Some(to) => {
                    if any {
                        dates.append(", ");
                    }
                    dates.append("To: ");
                    dates.append(to.as_str());
                    any = true;
                },
                None => {},
            }
            if any {
                proof {
                    let a = aired@;
                    assert(Some(dates@) =~= aired_text(a)) by {
                        match (a.from, a.to) {
                            (Some(f), Some(t)) => {
                                assert(dates@ =~= "From: "@ + f + ", "@ + "To: "@ + t);
                            },
                            (Some(f), None) => {
                                assert(dates@ =~= "From: "@ + f);
                            },
                            (None, Some(t)) => {
                                assert(dates@ =~= "To: "@ + t);
                            },
                            (None, None) => {},
                        }
                    }
                }
                Some(dates)
            } else {
                None
            }
        },
    }
}

/// The first `limit` of `items`, joined by a comma and a space.
pub fn list_string(items: &Vec<String>, limit: usize) -> (r: Option<String>)
    ensures
        text_of(r) == list_text(texts_of(items@), limit as int),
{
    if items.len() == 0 || limit == 0 {
        None
    } else if items.len() <= limit {
        Some(join_all(items, ", "))
    } else {
        Some(join_first(items, limit, ", "))
    }
}

/// The address of the cover image among `images`, where there is one.
pub fn cover_image(images: &CommonImageResource) -> (r: Option<String>)
    ensures
        text_of(r) == images@,
{
    match &images.jpg {
        Some(urls) => copy_text(&urls.image_url),
        None => None,
    }
}

/// The alternate titles as a list of texts, in order.
pub fn title_texts(titles: &Vec<Title>) -> (r: Vec<String>)
    ensures
        texts_of(r@) == titles@.map_values(|t: Title| t@),
{
    let mut r: Vec<String> = Vec::new();
    let mut i: usize = 0;
    while i < titles.len()
        invariant
            i <= titles.len(),
            r@.len() == i,
            forall|j: int| 0 <= j < i ==> (#[trigger] r@[j])@ == titles@[j]@,
        decreases titles.len() - i,
    {
        r.push(titles[i].title.clone());
        i = i + 1;
    }
    proof {
        assert(texts_of(r@) =~= titles@.map_values(|t: Title| t@));
    }
    r
}

/// Renders a detail record as a card.
pub fn format_details(details: &AnimeDetails) -> (card: Card)
    ensures
        card@ == details_card(details@),
{
    let mut title = details.title.clone();
    title.append(" (MAL ID: ");
    push_decimal(&mut title, details.mal_id);
    title.append(")");
    let description = match &details.synopsis {
        Some(s) => Some(truncate_synopsis(s.as_str())),
        None => None,
    };
    let image = match &details.images {
        Some(images) => cover_image(images),
        None => None,
    };
    let trailer_id = match &details.trailer {
        Some(trailer) => copy_text(&trailer.youtube_id),
        None => None,
    };
    let alternates = title_texts(&details.titles);

    let mut fields: Vec<Field> = Vec::new();
    assert(field_views(fields@) =~= Seq::<FieldView>::empty());
    push_optional(&mut fields, "English Title", copy_text(&details.title_english), true);
    push_optional(&mut fields, "Japanese Title", copy_text(&details.title_japanese), true);
    push_optional(
        &mut fields,
        "Synonyms",
        list_string(&details.title_synonyms, details.title_synonyms.len()),
        false,
    );
    push_optional(&mut fields, "Approved", Some(flag_string(details.approved)), true);
    push_optional(&mut fields, "Type", Some(string_or_marker(&details.anime_type)), true);
    push_optional(&mut fields, "Source", Some(string_or_marker(&details.source)), true);
    push_optional(&mut fields, "Episodes", Some(count_string_or_marker(details.episodes)), true);
    push_optional(&mut fields, "Status", Some(details.status.clone()), true);
    push_optional(&mut fields, "Airing", Some(flag_string(details.airing)), true);
    push_optional(&mut fields, "Aired", aired_string(&details.aired), true);
    push_optional(&mut fields, "Duration", copy_text(&details.duration), true);
    push_optional(&mut fields, "Rating", copy_text(&details.rating), true);
    push_optional(&mut fields, "Score", with_suffix(&details.score, "/10"), true);
    push_optional(&mut fields, "Scored by", count_before(details.scored_by, " users"), true);
    push_optional(&mut fields, "Rank", count_after("#", details.rank), true);
    push_optional(&mut fields, "Popularity", count_after("#", details.popularity), true);
    push_optional(&mut fields, "Members", count_string(details.members), true);
    push_optional(&mut fields, "Favorites", count_string(details.favorites), true);
    push_optional(
        &mut fields,
        "Trailer",
        between("<https://www.youtube.com/watch?v=", &trailer_id, ">"),
        false,
    );
    push_optional(
        &mut fields,
        "Alternative Titles",
        list_string(&alternates, ALTERNATE_TITLE_LIMIT),
        false,
    );
    Card {
        title,
        description,
        url: Some(details.url.clone()),
        image,
        fields,
        footer: None,
        timestamp: true,
    }
}

/// The line of one search hit.
pub open spec fn hit_line(h: AnimeSummary) -> Seq<char> {
    "- MAL ID: "@ + decimal(h.id as nat) + ", Title: "@ + h.title + "\n"@
}

/// The lines of the search hits, in order.
pub open spec fn hit_lines(hits: Seq<AnimeSummary>) -> Seq<char>
    decreases hits.len(),
{
    if hits.len() == 0 {
        Seq::empty()
    } else {
        hit_lines(hits.drop_last()) + hit_line(hits.last())
    }
}

/// The card of the hits of a search for `query`.
pub open spec fn search_card(query: Seq<char>, hits: Seq<AnimeSummary>) -> CardView {
    CardView {
        title: "Search results for '"@ + query + "'"@,
        description: Some(hit_lines(hits)),
        url: None,
        image: None,
        fields: Seq::empty(),
        footer: Some(SEARCH_FOOTER@),
        timestamp: true,
    }
}

/// The field of the recommendation `e` at the 1-based `position`.
pub open spec fn recommendation_field(position: nat, e: RecommendationEntry) -> FieldView {
    FieldView {
        name: decimal(position) + ". "@ + e.title + " (MAL ID: "@ + decimal(e.id as nat) + ")"@,
        value: match e.cover_image_url {
            Some(image) => image + "\n"@ + e.url,
            None => e.url,
        },
        inline: false,
    }
}

/// How many of `n` recommendations a card shows.
pub open spec fn shown_count(n: nat) -> nat {
    if n <= 5 {
        n
    } else {
        5
    }
}

/// The fields of a card of recommendations: one for each of the first five,
/// numbered from 1, in the order received.
pub open spec fn recommendation_fields(entries: Seq<RecommendationEntry>) -> Seq<FieldView> {
    Seq::new(shown_count(entries.len()), |i: int| recommendation_field((i + 1) as nat, entries[i]))
}

/// The card of the recommendations that go with the anime `source_id`.
pub open spec fn recommendations_card(
    source_id: u32,
    entries: Seq<RecommendationEntry>,
) -> CardView {
    CardView {
        title: "Recommendations for MAL ID: "@ + decimal(source_id as nat),
        description: None,
        url: None,
        image: None,
        fields: recommendation_fields(entries),
        footer: None,
        timestamp: true,
    }
}

/// The card that explains the commands.
pub open spec fn help_card_view() -> CardView {
    CardView {
        title: HELP_TITLE@,
        description: Some(HELP_TEXT@),
        url: None,
        image: None,
        fields: Seq::empty(),
        footer: None,
        timestamp: true,
    }
}

/// Renders the hits of a search for `query` as a card.
pub fn format_search_results(query: &str, animes: &Vec<Anime>) -> (card: Card)
    ensures
        card@ == search_card(query@, summaries(animes@)),
{
    let mut title = "Search results for '".to_owned();
    title.append(query);
    title.append("'");
    let ghost hits = summaries(animes@);
    let mut description = String::new();
    let mut i: usize = 0;
    while i < animes.len()
        invariant
            i <= animes.len(),
            hits == summaries(animes@),
            description@ == hit_lines(hits.take(i as int)),
        decreases animes.len() - i,
    {
        let ghost before = description@;
        description.append("- MAL ID: ");
        push_decimal(&mut description, animes[i].mal_id);
        description.append(", Title: ");
        description.append(animes[i].title.as_str());
        description.append("\n");
        proof {
            let next = hits.take(i + 1);
            assert(next.drop_last() =~= hits.take(i as int));
            assert(next.last() == animes@[i as int]@);
            assert(description@ =~= before + hit_line(next.last()));
        }
        i = i + 1;
    }
    proof {
        assert(hits.take(animes.len() as int) =~= hits);
    }
    let fields: Vec<Field> = Vec::new();
    assert(field_views(fields@) =~= Seq::<FieldView>::empty());
    Card {
        title,
        description: Some(description),
        url: None,
        image: None,
        fields,
        footer: Some(SEARCH_FOOTER.to_owned()),
        timestamp: true,
    }
}

/// Renders the recommendations that go with the anime `mal_id` as a card.
pub fn format_recommendations(mal_id: u32, recommendations: &Vec<RecommendationItem>) -> (card:
    Card)
    ensures
        card@ == recommendations_card(mal_id, entries(recommendations@)),
{
    let mut title = "Recommendations for MAL ID: ".to_owned();
    push_decimal(&mut title, mal_id);
    let ghost all = entries(recommendations@);
    let n: usize = if recommendations.len() <= RECOMMENDATION_LIMIT {
        recommendations.len()
    } else {
        RECOMMENDATION_LIMIT
    };
    let mut fields: Vec<Field> = Vec::new();
    let mut i: usize = 0;
    while i < n
        invariant
            i <= n <= recommendations.len(),
            n <= 5,
            n == shown_count(all.len()),
            all == entries(recommendations@),
            fields@.len() == i,
            forall|j: int|
                0 <= j < i ==> (#[trigger] fields@[j])@ == recommendation_field(
                    (j + 1) as nat,
                    all[j],
                ),
        decreases n - i,
    {
        let entry = &recommendations[i].entry;
        let position: u32 = (i + 1) as u32;
        let mut name = String::new();
        push_decimal(&mut name, position);
        name.append(". ");
        name.append(entry.title.as_str());
        name.append(" (MAL ID: ");
        push_decimal(&mut name, entry.mal_id);
        name.append(")");
        let mut value = String::new();
        match cover_image(&entry.images) {
            Some(image) => {
                value.append(image.as_str());
                value.append("\n");
            },
            None => {},
        }
        value.append(entry.url.as_str());
        let field = Field { name, value, inline: false };
        proof {
            let e = all[i as int];
            assert(e == recommendations@[i as int]@);
            let want = recommendation_field((i + 1) as nat, e);
            assert(field.name@ =~= want.name);
            assert(field.value@ =~= want.value);
        }
        fields.push(field);
        i = i + 1;
    }
    proof {
        assert(field_views(fields@) =~= recommendation_fields(all));
    }
    Card { title, description: None, url: None, image: None, fields, footer: None, timestamp: true }
}

/// The card that explains the commands.
pub fn help_card() -> (card: Card)
    ensures
        card@ == help_card_view(),
{
    let fields: Vec<Field> = Vec::new();
    assert(field_views(fields@) =~= Seq::<FieldView>::empty());
    Card {
        title: HELP_TITLE.to_owned(),
        description: Some(HELP_TEXT.to_owned()),
        url: None,
        image: None,
        fields,
        footer: None,
        timestamp: true,
    }
}

/// `body` between `prefix` and `suffix`.
pub fn text_between(prefix: &str, body: &str, suffix: &str) -> (r: String)
    ensures
        r@ == prefix@ + body@ + suffix@,
{
    let mut r = prefix.to_owned();
    r.append(body);
    r.append(suffix);
    r
}

/// The decimal notation of `id` between `prefix` and `suffix`.
pub fn id_between(prefix: &str, id: u32, suffix: &str) -> (r: String)
    ensures
        r@ == prefix@ + decimal(id as nat) + suffix@,
{
    let mut r = prefix.to_owned();
    push_decimal(&mut r, id);
    r.append(suffix);
    r
}

/// The acknowledgement of a search for `query`.
pub open spec fn searching_text(query: Seq<char>) -> Seq<char> {
    "Searching for anime: '"@ + query + "'..."@
}

/// The reply to a search for `query` that found nothing.
pub open spec fn no_results_text(query: Seq<char>) -> Seq<char> {
    "No results found for '"@ + query + "'."@
}

/// The acknowledgement of a request for the details of `id`.
pub open spec fn fetching_details_text(id: u32) -> Seq<char> {
    "Fetching details for MAL ID: "@ + decimal(id as nat) + "..."@
}

/// The reply to a request for the details of `id` that brought none.
pub open spec fn details_missing_text(id: u32) -> Seq<char> {
    "Could not find details for MAL ID: "@ + decimal(id as nat)
        + ". It might not exist or an error occurred."@
}

/// The acknowledgement of a request for the recommendations of `id`.
pub open spec fn fetching_recommendations_text(id: u32) -> Seq<char> {
    "Fetching recommendations for MAL ID: "@ + decimal(id as nat) + "..."@
}

/// The reply to a request for the recommendations of `id` where there are none.
pub open spec fn no_recommendations_text(id: u32) -> Seq<char> {
    "No recommendations found for MAL ID: "@ + decimal(id as nat) + "."@
}

/// The reply to a request for the recommendations of `id` that failed.
pub open spec fn recommendations_failed_text(id: u32) -> Seq<char> {
    "An error occurred while fetching recommendations for MAL ID: "@ + decimal(id as nat)
        + ". Please try again later."@
}

/// The acknowledgement of a search for `query`.
pub fn searching_notice(query: &str) -> (r: String)
    ensures
        r@ == searching_text(query@),
{
    text_between("Searching for anime: '", query, "'...")
}

/// The reply to a search for `query` that found nothing.
pub fn no_results_notice(query: &str) -> (r: String)
    ensures
        r@ == no_results_text(query@),
{
    text_between("No results found for '", query, "'.")
}

/// The acknowledgement of a request for the details of `id`.
pub fn fetching_details_notice(id: u32) -> (r: String)
    ensures
        r@ == fetching_details_text(id),
{
    id_between("Fetching details for MAL ID: ", id, "...")
}

/// The reply to a request for the details of `id` that brought none.
pub fn details_missing_notice(id: u32) -> (r: String)
    ensures
        r@ == details_missing_text(id),
{
    id_between(
        "Could not find details for MAL ID: ",
        id,
        ". It might not exist or an error occurred.",
    )
}

/// The acknowledgement of a request for the recommendations of `id`.
pub fn fetching_recommendations_notice(id: u32) -> (r: String)
    ensures
        r@ == fetching_recommendations_text(id),
{
    id_between("Fetching recommendations for MAL ID: ", id, "...")
}

/// The reply to a request for the recommendations of `id` where there are none.
pub fn no_recommendations_notice(id: u32) -> (r: String)
    ensures
        r@ == no_recommendations_text(id),
{
    id_between("No recommendations found for MAL ID: ", id, ".")
}

/// The reply to a request for the recommendations of `id` that failed.
pub fn recommendations_failed_notice(id: u32) -> (r: String)
    ensures
        r@ == recommendations_failed_text(id),
{
    id_between(
        "An error occurred while fetching recommendations for MAL ID: ",
        id,
        ". Please try again later.",
    )
}

/// Rendering reads nothing but the record: two records that hold the same
/// values have the same card, so rendering one record twice gives the same
/// card twice.
pub proof fn lemma_format_details_deterministic(
    first: AnimeDetails,
    second: AnimeDetails,
    first_card: Card,
    second_card: Card,
)
    requires
        first@ == second@,
        first_card@ == details_card(first@),
        second_card@ == details_card(second@),
    ensures
        first_card@ == second_card@,
        plain_text_of(first_card@) == plain_text_of(second_card@),
{
}

/// A synopsis of at most 1000 characters is shown as it is. A longer one is
/// shown as its first 1000 characters and three dots, whatever follows
/// them.
pub proof fn lemma_synopsis_limit(s: Seq<char>)
    ensures
        s.len() <= 1000 ==> short_synopsis(s) == s,
        s.len() > 1000 ==> short_synopsis(s) == s.take(1000) + seq!['.', '.', '.'],
        s.len() > 1000 ==> short_synopsis(s).len() == 1003,
        short_synopsis(s).len() <= 1003,
{
    reveal_strlit("...");
    assert("..."@ =~= seq!['.', '.', '.']);
}

/// A card of recommendations shows the first five, or all where there are
/// fewer, numbered from 1 in the order received.
pub proof fn lemma_recommendations_shown(entries: Seq<RecommendationEntry>)
    ensures
        recommendation_fields(entries).len() <= 5,
        entries.len() >= 5 ==> recommendation_fields(entries).len() == 5,
        entries.len() < 5 ==> recommendation_fields(entries).len() == entries.len(),
        forall|i: int|
            0 <= i < recommendation_fields(entries).len() ==> #[trigger] recommendation_fields(
                entries,
            )[i] == recommendation_field((i + 1) as nat, entries[i]),
{
}

/// What follows the fifth recommendation does not show: two lists that
/// agree on their first five entries have the same card.
pub proof fn lemma_recommendations_beyond_limit(
    source_id: u32,
    first: Seq<RecommendationEntry>,
    second: Seq<RecommendationEntry>,
)
    requires
        first.len() >= 5,
        second.len() >= 5,
        first.take(5) == second.take(5),
    ensures
        recommendations_card(source_id, first) == recommendations_card(source_id, second),
{
    assert forall|i: int| 0 <= i < 5 implies first[i] == second[i] by {
        assert(first[i] == first.take(5)[i]);
        assert(second[i] == second.take(5)[i]);
    }
    assert(recommendation_fields(first) =~= recommendation_fields(second));
}

} // verus!
