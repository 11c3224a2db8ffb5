use anime_bot::card::{Card, Field, Payload};
use anime_bot::jikan_api::{
    Aired, Anime, AnimeDetails, CommonImageResource, ImageUrls, RecommendationEntryDetails,
    RecommendationItem, Title, YoutubeMeta,
};
use anime_bot::render::{
    aired_string, format_details, format_recommendations, format_search_results, help_card,
    list_string, truncate_synopsis, HELP_TEXT, HELP_TITLE, SEARCH_FOOTER,
};

fn field(name: &str, value: &str, inline: bool) -> Field {
    Field { name: name.to_string(), value: value.to_string(), inline }
}

fn bare(id: u32, title: &str) -> AnimeDetails {
    AnimeDetails {
        mal_id: id,
        url: format!("https://myanimelist.net/anime/{}", id),
        images: None,
        trailer: None,
        approved: None,
        titles: vec![],
        title: title.to_string(),
        title_english: None,
        title_japanese: None,
        title_synonyms: vec![],
        anime_type: None,
        source: None,
        episodes: None,
        status: "Finished Airing".to_string(),
        airing: None,
        aired: Aired { from: None, to: None, string: None },
        duration: None,
        rating: None,
        score: None,
        scored_by: None,
        rank: None,
        popularity: None,
        members: None,
        favorites: None,
        synopsis: None,
    }
}

fn full() -> AnimeDetails {
    AnimeDetails {
        mal_id: 339,
        url: "https://myanimelist.net/anime/339".to_string(),
        images: Some(CommonImageResource {
            jpg: Some(ImageUrls { image_url: Some("https://cdn.example/339.jpg".to_string()) }),
        }),
        trailer: Some(YoutubeMeta { youtube_id: Some("abc123".to_string()) }),
        approved: Some(true),
        titles: vec![
            Title { title: "Default".to_string() },
            Title { title: "Synonym".to_string() },
            Title { title: "Japanese".to_string() },
            Title { title: "English".to_string() },
        ],
        title: "Serial Experiments Lain".to_string(),
        title_english: Some("Serial Experiments Lain".to_string()),
        title_japanese: Some("serial experiments lain".to_string()),
        title_synonyms: vec!["Lain".to_string(), "SEL".to_string()],
        anime_type: Some("TV".to_string()),
        source: Some("Manga".to_string()),
        episodes: Some(13),
        status: "Finished Airing".to_string(),
        airing: Some(false),
        aired: Aired {
            from: Some("1998-07-06".to_string()),
            to: Some("1998-09-28".to_string()),
            string: Some("Jul 6, 1998 to Sep 28, 1998".to_string()),
        },
        duration: Some("23 min per ep".to_string()),
        rating: Some("R - 17+".to_string()),
        score: Some("8.09".to_string()),
        scored_by: Some(300000),
        rank: Some(512),
        popularity: Some(321),
        members: Some(800000),
        favorites: Some(30000),
        synopsis: Some("Lain Iwakura receives an e-mail.".to_string()),
    }
}

fn recommendation(id: u32, image: Option<&str>) -> RecommendationItem {
    RecommendationItem {
        entry: RecommendationEntryDetails {
            mal_id: id,
            url: format!("https://myanimelist.net/anime/{}", id),
            images: CommonImageResource {
                jpg: Some(ImageUrls { image_url: image.map(|s| s.to_string()) }),
            },
            title: format!("Title {}", id),
        },
    }
}

#[test]
fn synopsis_of_1001_characters_is_cut() {
    let s: String = "a".repeat(1000) + "b";
    assert_eq!(truncate_synopsis(&s), "a".repeat(1000) + "...");
}

#[test]
fn synopsis_of_1000_characters_is_kept() {
    let s: String = "a".repeat(1000);
    assert_eq!(truncate_synopsis(&s), s);
}

#[test]
fn short_synopsis_is_kept() {
    assert_eq!(truncate_synopsis(""), "");
    assert_eq!(truncate_synopsis("A girl."), "A girl.");
}

#[test]
fn long_synopsis_is_cut_mid_word() {
    let s: String = "word ".repeat(400);
    let cut = truncate_synopsis(&s);
    assert_eq!(cut.chars().count(), 1003);
    assert_eq!(&cut[..1000], &s[..1000]);
    assert!(cut.ends_with("..."));
}

#[test]
fn synopsis_is_counted_in_characters() {
    let s: String = "\u{9032}".repeat(1001);
    assert_eq!(truncate_synopsis(&s), "\u{9032}".repeat(1000) + "...");
    let t: String = "\u{e9}".repeat(1000);
    assert_eq!(truncate_synopsis(&t), t);
}

#[test]
fn details_of_a_full_record() {
    let card = format_details(&full());
    let expected = Card {
        title: "Serial Experiments Lain (MAL ID: 339)".to_string(),
        description: Some("Lain Iwakura receives an e-mail.".to_string()),
        url: Some("https://myanimelist.net/anime/339".to_string()),
        image: Some("https://cdn.example/339.jpg".to_string()),
        fields: vec![
            field("English Title", "Serial Experiments Lain", true),
            field("Japanese Title", "serial experiments lain", true),
            field("Synonyms", "Lain, SEL", false),
            field("Approved", "true", true),
            field("Type", "TV", true),
            field("Source", "Manga", true),
            field("Episodes", "13", true),
            field("Status", "Finished Airing", true),
            field("Airing", "false", true),
            field("Aired", "Jul 6, 1998 to Sep 28, 1998", true),
            field("Duration", "23 min per ep", true),
            field("Rating", "R - 17+", true),
            field("Score", "8.09/10", true),
            field("Scored by", "300000 users", true),
            field("Rank", "#512", true),
            field("Popularity", "#321", true),
            field("Members", "800000", true),
            field("Favorites", "30000", true),
            field("Trailer", "<https://www.youtube.com/watch?v=abc123>", false),
            field("Alternative Titles", "Default, Synonym, Japanese", false),
        ],
        footer: None,
        timestamp: true,
    };
    assert_eq!(card, expected);
}

#[test]
fn details_of_a_bare_record() {
    let card = format_details(&bare(1, "Cowboy Bebop"));
    let expected = Card {
        title: "Cowboy Bebop (MAL ID: 1)".to_string(),
        description: None,
        url: Some("https://myanimelist.net/anime/1".to_string()),
        image: None,
        fields: vec![
            field("Approved", "N/A", true),
            field("Type", "N/A", true),
            field("Source", "N/A", true),
            field("Episodes", "N/A", true),
            field("Status", "Finished Airing", true),
            field("Airing", "N/A", true),
        ],
        footer: None,
        timestamp: true,
    };
    assert_eq!(card, expected);
}

#[test]
fn formatting_twice_gives_the_same_card() {
    let record = full();
    let first = format_details(&record);
    let second = format_details(&record);
    assert_eq!(first, second);
    assert_eq!(first.plain_text(), second.plain_text());
    assert_eq!(format_details(&record.clone()), first);
}

#[test]
fn details_cut_a_long_synopsis() {
    let mut record = bare(5, "Long");
    record.synopsis = Some("x".repeat(1001));
    let card = format_details(&record);
    assert_eq!(card.description, Some("x".repeat(1000) + "..."));
    record.synopsis = Some("x".repeat(1000));
    assert_eq!(format_details(&record).description, Some("x".repeat(1000)));
}

#[test]
fn details_without_image_address() {
    let mut record = bare(5, "X");
    record.images = Some(CommonImageResource { jpg: None });
    assert_eq!(format_details(&record).image, None);
    record.images = Some(CommonImageResource { jpg: Some(ImageUrls { image_url: None }) });
    assert_eq!(format_details(&record).image, None);
    record.trailer = Some(YoutubeMeta { youtube_id: None });
    assert!(format_details(&record).fields.iter().all(|f| f.name != "Trailer"));
}

#[test]
fn flags_show_their_value() {
    let mut record = bare(5, "X");
    record.approved = Some(false);
    record.airing = Some(true);
    let card = format_details(&record);
    assert_eq!(card.fields[0], field("Approved", "false", true));
    assert_eq!(card.fields[5], field("Airing", "true", true));
}

#[test]
fn aired_prefers_the_display_text() {
    let aired = Aired {
        from: Some("1998".to_string()),
        to: Some("1999".to_string()),
        string: Some("1998 to 1999".to_string()),
    };
    assert_eq!(aired_string(&aired), Some("1998 to 1999".to_string()));
}

#[test]
fn aired_falls_back_to_the_bounds() {
    let both = Aired { from: Some("1998".to_string()), to: Some("1999".to_string()), string: None };
    assert_eq!(aired_string(&both), Some("From: 1998, To: 1999".to_string()));
    let from = Aired { from: Some("1998".to_string()), to: None, string: None };
    assert_eq!(aired_string(&from), Some("From: 1998".to_string()));
    let to = Aired { from: None, to: Some("1999".to_string()), string: None };
    assert_eq!(aired_string(&to), Some("To: 1999".to_string()));
    let none = Aired { from: None, to: None, string: None };
    assert_eq!(aired_string(&none), None);
}

#[test]
fn alternate_titles_show_at_most_three() {
    let mut record = bare(5, "X");
    record.titles = vec![Title { title: "A".to_string() }, Title { title: "B".to_string() }];
    assert_eq!(
        format_details(&record).fields.last(),
        Some(&field("Alternative Titles", "A, B", false))
    );
    record.titles.push(Title { title: "C".to_string() });
    record.titles.push(Title { title: "D".to_string() });
    record.titles.push(Title { title: "E".to_string() });
    assert_eq!(
        format_details(&record).fields.last(),
        Some(&field("Alternative Titles", "A, B, C", false))
    );
}

#[test]
fn synonyms_are_all_shown() {
    let mut record = bare(5, "X");
    record.title_synonyms = vec!["A", "B", "C", "D"].into_iter().map(|s| s.to_string()).collect();
    assert_eq!(format_details(&record).fields[0], field("Synonyms", "A, B, C, D", false));
}

#[test]
fn lists_are_joined() {
    let items: Vec<String> = vec!["a", "b", "c"].into_iter().map(|s| s.to_string()).collect();
    assert_eq!(list_string(&items, 3), Some("a, b, c".to_string()));
    assert_eq!(list_string(&items, 2), Some("a, b".to_string()));
    assert_eq!(list_string(&items, 1), Some("a".to_string()));
    assert_eq!(list_string(&items, 0), None);
    assert_eq!(list_string(&items, 10), Some("a, b, c".to_string()));
    assert_eq!(list_string(&vec![], 3), None);
}

#[test]
fn eight_recommendations_show_five() {
    let items: Vec<RecommendationItem> =
        (1..=8).map(|i| recommendation(100 + i, None)).collect();
    let card = format_recommendations(339, &items);
    assert_eq!(card.title, "Recommendations for MAL ID: 339");
    assert_eq!(card.description, None);
    assert!(card.timestamp);
    assert_eq!(
        card.fields,
        vec![
            field("1. Title 101 (MAL ID: 101)", "https://myanimelist.net/anime/101", false),
            field("2. Title 102 (MAL ID: 102)", "https://myanimelist.net/anime/102", false),
            field("3. Title 103 (MAL ID: 103)", "https://myanimelist.net/anime/103", false),
            field("4. Title 104 (MAL ID: 104)", "https://myanimelist.net/anime/104", false),
            field("5. Title 105 (MAL ID: 105)", "https://myanimelist.net/anime/105", false),
        ]
    );
}

#[test]
fn recommendations_keep_the_order_received() {
    let items = vec![recommendation(9, None), recommendation(3, None), recommendation(7, None)];
    let card = format_recommendations(1, &items);
    let names: Vec<&str> = card.fields.iter().map(|f| f.name.as_str()).collect();
    assert_eq!(
        names,
        vec!["1. Title 9 (MAL ID: 9)", "2. Title 3 (MAL ID: 3)", "3. Title 7 (MAL ID: 7)"]
    );
}

#[test]
fn recommendation_shows_its_image_before_its_address() {
    let items = vec![recommendation(9, Some("https://cdn.example/9.jpg"))];
    let card = format_recommendations(1, &items);
    assert_eq!(
        card.fields[0].value,
        "https://cdn.example/9.jpg\nhttps://myanimelist.net/anime/9"
    );
}

#[test]
fn search_results_list_every_hit() {
    let hits = vec![
        Anime { mal_id: 16498, title: "Shingeki no Kyojin".to_string() },
        Anime { mal_id: 25777, title: "Shingeki no Kyojin Season 2".to_string() },
    ];
    let card = format_search_results("Attack on Titan", &hits);
    let expected = Card {
        title: "Search results for 'Attack on Titan'".to_string(),
        description: Some(
            "- MAL ID: 16498, Title: Shingeki no Kyojin\n- MAL ID: 25777, Title: Shingeki no Kyojin Season 2\n"
                .to_string(),
        ),
        url: None,
        image: None,
        fields: vec![],
        footer: Some("To get more details, type `!anime details <MAL_ID>`".to_string()),
        timestamp: true,
    };
    assert_eq!(card, expected);
    assert_eq!(SEARCH_FOOTER, "To get more details, type `!anime details <MAL_ID>`");
}

#[test]
fn help_card_lists_the_commands() {
    let card = help_card();
    assert_eq!(card.title, HELP_TITLE);
    assert_eq!(card.title, "Ferivonus Anime Bot Yard\u{131}m Men\u{fc}s\u{fc}");
    assert_eq!(card.description.as_deref(), Some(HELP_TEXT));
    assert!(HELP_TEXT.starts_with("Hello! I'm an anime bot. Here are the commands you can use:\n\n\u{2022} `!anime <anime name>`"));
    assert!(HELP_TEXT.ends_with("`!lain`\n`!lain recommendations`"));
    for command in ["!anime details <MAL_ID>", "!anime recommendations <MAL_ID>", "!lain", "!lain recommendations"] {
        assert!(HELP_TEXT.contains(command));
    }
    assert!(card.fields.is_empty());
    assert!(card.timestamp);
}

#[test]
fn plain_text_of_a_search_card() {
    let hits = vec![
        Anime { mal_id: 1, title: "Cowboy Bebop".to_string() },
        Anime { mal_id: 5, title: "Cowboy Bebop: Tengoku no Tobira".to_string() },
    ];
    let card = format_search_results("bebop", &hits);
    assert_eq!(
        card.plain_text(),
        "Search results for 'bebop'\n  - MAL ID: 1, Title: Cowboy Bebop\n  - MAL ID: 5, Title: Cowboy Bebop: Tengoku no Tobira\n  To get more details, type `!anime details <MAL_ID>`\n"
    );
}

#[test]
fn plain_text_of_a_details_card() {
    let mut record = bare(1, "Cowboy Bebop");
    record.synopsis = Some("Line one.\n\nLine three.".to_string());
    record.images = Some(CommonImageResource {
        jpg: Some(ImageUrls { image_url: Some("https://cdn.example/1.jpg".to_string()) }),
    });
    let text = format_details(&record).plain_text();
    assert_eq!(
        text,
        "Cowboy Bebop (MAL ID: 1)\n  https://myanimelist.net/anime/1\n  Line one.\n  \n  Line three.\n  https://cdn.example/1.jpg\n  Approved: N/A\n  Type: N/A\n  Source: N/A\n  Episodes: N/A\n  Status: Finished Airing\n  Airing: N/A\n"
    );
}

#[test]
fn plain_text_carries_every_field_of_the_card() {
    let card = format_details(&full());
    let text = card.plain_text();
    assert!(text.starts_with("Serial Experiments Lain (MAL ID: 339)\n"));
    for f in &card.fields {
        assert!(text.contains(&format!("  {}: {}\n", f.name, f.value)));
    }
    assert!(text.contains("  Lain Iwakura receives an e-mail.\n"));
}

#[test]
fn plain_text_of_a_recommendation_indents_both_lines() {
    let items = vec![recommendation(9, Some("https://cdn.example/9.jpg"))];
    let card = format_recommendations(1, &items);
    assert_eq!(
        card.plain_text(),
        "Recommendations for MAL ID: 1\n  1. Title 9 (MAL ID: 9): https://cdn.example/9.jpg\n  https://myanimelist.net/anime/9\n"
    );
}

#[test]
fn plain_text_of_a_payload() {
    assert_eq!(Payload::Plain("hello".to_string()).plain_text(), "hello");
    let card = help_card();
    assert_eq!(Payload::Rich(card.clone()).plain_text(), card.plain_text());
}
