use power_pizza_bot::bot::{
    magic_episode_found, magic_episode_search, meta_pattern, offset_search, search_meta,
    search_transcript_all, search_transcript_one, within_cap, MagicEpisode, OffsetSearchResult,
    SearchError,
};
use power_pizza_bot::spreaker::Episode;
use power_pizza_bot::transcript::{EpisodeTranscript, FromTo, Segment, Timestamp, Transcript};
use std::collections::VecDeque;
use std::time::Duration;

fn episode(id: u32, title: &str) -> Episode {
    Episode {
        id,
        title: title.to_string(),
        duration: 1000,
        show_id: 3039391,
        author_id: 10653829,
        published_at: 1690531202,
        download_url: format!("https://api.spreaker.com/v2/episodes/{}/download.mp3", id),
        description: String::new(),
        description_html: String::new(),
    }
}

fn span(from: u64, to: u64) -> FromTo {
    FromTo { from: Duration::from_millis(from), to: Duration::from_millis(to) }
}

fn hello_world_foo() -> EpisodeTranscript {
    EpisodeTranscript::from((
        7,
        Transcript {
            transcription: vec![
                Segment { timestamps: span(0, 1000), text: "Hello".to_string() },
                Segment { timestamps: span(1000, 2000), text: "World".to_string() },
                Segment { timestamps: span(2000, 3000), text: "Foo".to_string() },
            ],
        },
    ))
}

fn times(result: &OffsetSearchResult) -> Vec<(Duration, Duration)> {
    result.matches.iter().map(|m| (m.time.from, m.time.to)).collect()
}

#[test]
fn match_at_5_maps_to_second_range() {
    let t = hello_world_foo();
    let r = search_transcript_one(7, Some(episode(7, "sette")), Some(t), "World").unwrap();
    assert_eq!(r.episode.id, 7);
    assert_eq!(times(&r), vec![(Duration::from_millis(1000), Duration::from_millis(2000))]);
    assert_eq!(r.matches[0].hint, "HelloWorldFoo");
}

#[test]
fn match_at_4_maps_to_first_range() {
    let t = hello_world_foo();
    let r = search_transcript_one(7, Some(episode(7, "sette")), Some(t), "oWorld").unwrap();
    assert_eq!(times(&r), vec![(Duration::from_millis(0), Duration::from_millis(1000))]);
}

#[test]
fn match_at_10_maps_to_third_range() {
    let t = hello_world_foo();
    let r = search_transcript_one(7, Some(episode(7, "sette")), Some(t), "Foo").unwrap();
    assert_eq!(times(&r), vec![(Duration::from_millis(2000), Duration::from_millis(3000))]);
}

#[test]
fn offsets_4_5_10_map_to_ranges_0_1_2() {
    let t = hello_world_foo();
    let r = OffsetSearchResult::from(
        episode(7, "sette"),
        VecDeque::from(vec![4, 5, 10]),
        t.timestamps,
        &t.data,
    )
    .unwrap();
    assert_eq!(
        times(&r),
        vec![
            (Duration::from_millis(0), Duration::from_millis(1000)),
            (Duration::from_millis(1000), Duration::from_millis(2000)),
            (Duration::from_millis(2000), Duration::from_millis(3000)),
        ]
    );
}

#[test]
fn match_at_the_end_of_a_range_maps_to_the_next_range() {
    let timestamps = vec![
        Timestamp { time: span(0, 10), offsets: (0, 3) },
        Timestamp { time: span(10, 20), offsets: (3, 3) },
        Timestamp { time: span(20, 30), offsets: (3, 6) },
    ];
    let data = "abcdef".to_string();
    let r = OffsetSearchResult::from(episode(1, "uno"), VecDeque::from(vec![3]), timestamps, &data)
        .unwrap();
    assert_eq!(times(&r), vec![(Duration::from_millis(20), Duration::from_millis(30))]);
}

#[test]
fn several_matches_in_one_range_share_its_time() {
    let t = hello_world_foo();
    let r = search_transcript_one(7, Some(episode(7, "sette")), Some(t), "l").unwrap();
    // "HelloWorldFoo": l at 2, 3 and 8
    assert_eq!(
        times(&r),
        vec![
            (Duration::from_millis(0), Duration::from_millis(1000)),
            (Duration::from_millis(0), Duration::from_millis(1000)),
            (Duration::from_millis(1000), Duration::from_millis(2000)),
        ]
    );
}

#[test]
fn no_matches_in_gives_an_empty_result() {
    let t = hello_world_foo();
    let r = OffsetSearchResult::from(episode(7, "sette"), VecDeque::new(), t.timestamps, &t.data)
        .unwrap();
    assert_eq!(r.len(), 0);
}

#[test]
fn match_beyond_the_index_is_an_invariant_violation() {
    let t = hello_world_foo();
    let r = OffsetSearchResult::from(
        episode(7, "sette"),
        VecDeque::from(vec![2, 13]),
        t.timestamps,
        &t.data,
    );
    assert!(matches!(r, Err(SearchError::InvariantViolated)));
}

#[test]
fn an_empty_match_at_the_end_of_the_text_is_not_covered() {
    let t = hello_world_foo();
    let r = search_transcript_one(7, Some(episode(7, "sette")), Some(t), "$");
    assert!(matches!(r, Err(SearchError::InvariantViolated)));
}

#[test]
fn match_in_a_gap_is_an_invariant_violation() {
    let timestamps = vec![
        Timestamp { time: span(0, 10), offsets: (0, 3) },
        Timestamp { time: span(10, 20), offsets: (5, 8) },
    ];
    let data = "abcdefgh".to_string();
    let r = OffsetSearchResult::from(episode(1, "uno"), VecDeque::from(vec![4]), timestamps, &data);
    assert!(matches!(r, Err(SearchError::InvariantViolated)));
}

#[test]
fn match_before_the_cursor_is_an_invariant_violation() {
    let t = hello_world_foo();
    let r = OffsetSearchResult::from(
        episode(7, "sette"),
        VecDeque::from(vec![10, 4]),
        t.timestamps,
        &t.data,
    );
    assert!(matches!(r, Err(SearchError::InvariantViolated)));
}

#[test]
fn hint_is_clipped_at_the_text_not_at_the_segment() {
    let mut text = String::new();
    for i in 0..200 {
        text.push(char::from(b'a' + (i % 26) as u8));
    }
    let timestamps = vec![
        Timestamp { time: span(0, 10), offsets: (0, 100) },
        Timestamp { time: span(10, 20), offsets: (100, 200) },
    ];
    let r = OffsetSearchResult::from(
        episode(1, "uno"),
        VecDeque::from(vec![10, 100, 180]),
        timestamps,
        &text,
    )
    .unwrap();
    assert_eq!(r.matches[0].hint, text[0..60]);
    assert_eq!(r.matches[1].hint, text[50..150]);
    assert_eq!(r.matches[2].hint, text[130..200]);
}

#[test]
fn hint_counts_characters_not_bytes() {
    let text: String = "è".repeat(120);
    let timestamps = vec![Timestamp { time: span(0, 10), offsets: (0, 120) }];
    let r = OffsetSearchResult::from(episode(1, "uno"), VecDeque::from(vec![60]), timestamps, &text)
        .unwrap();
    assert_eq!(r.matches[0].hint, "è".repeat(100));
}

#[test]
fn search_ignores_case_and_accents() {
    let t = EpisodeTranscript::from((
        3,
        Transcript {
            transcription: vec![
                Segment { timestamps: span(0, 500), text: "Il caffè ".to_string() },
                Segment { timestamps: span(500, 900), text: "è buono".to_string() },
            ],
        },
    ));
    let r = search_transcript_one(3, Some(episode(3, "tre")), Some(t), "CAFFE").unwrap();
    assert_eq!(times(&r), vec![(Duration::from_millis(0), Duration::from_millis(500))]);
    assert_eq!(r.matches[0].hint, "Il caffè è buono");
}

#[test]
fn search_takes_regular_expressions() {
    let t = hello_world_foo();
    let r = search_transcript_one(7, Some(episode(7, "sette")), Some(t), "w.r|f.o").unwrap();
    assert_eq!(
        times(&r),
        vec![
            (Duration::from_millis(1000), Duration::from_millis(2000)),
            (Duration::from_millis(2000), Duration::from_millis(3000)),
        ]
    );
}

#[test]
fn search_without_a_match_is_no_results() {
    let t = hello_world_foo();
    let r = search_transcript_one(7, Some(episode(7, "sette")), Some(t), "pizza");
    assert!(matches!(r, Err(SearchError::NoResults)));
}

#[test]
fn search_with_a_broken_pattern_is_a_regex_error() {
    let t = hello_world_foo();
    let r = search_transcript_one(7, Some(episode(7, "sette")), Some(t), "(");
    assert!(matches!(r, Err(SearchError::Regex(_))));
}

#[test]
fn search_without_the_episode_is_not_found() {
    let r = search_transcript_one(9, None, Some(hello_world_foo()), "World");
    assert!(matches!(r, Err(SearchError::EpisodeNotFound(9))));
}

#[test]
fn search_without_the_transcript_is_not_found() {
    let r = search_transcript_one(9, Some(episode(9, "nove")), None, "World");
    assert!(matches!(r, Err(SearchError::EpisodeNotFound(9))));
}

#[test]
fn search_with_more_matches_than_the_cap_is_too_many() {
    let t = EpisodeTranscript::from((
        3,
        Transcript {
            transcription: vec![Segment { timestamps: span(0, 500), text: "a".repeat(51) }],
        },
    ));
    let r = search_transcript_one(3, Some(episode(3, "tre")), Some(t), "a");
    assert!(matches!(r, Err(SearchError::TooManyResults(51))));
}

#[test]
fn search_with_as_many_matches_as_the_cap_is_answered() {
    let t = EpisodeTranscript::from((
        3,
        Transcript {
            transcription: vec![Segment { timestamps: span(0, 500), text: "a".repeat(50) }],
        },
    ));
    let r = search_transcript_one(3, Some(episode(3, "tre")), Some(t), "a").unwrap();
    assert_eq!(r.len(), 50);
}

#[test]
fn offset_search_maps_the_regex_error() {
    let e = regex::Regex::new("(").unwrap_err();
    let r = offset_search(episode(7, "sette"), hello_world_foo(), Err(e.clone()));
    match r {
        Err(SearchError::Regex(got)) => assert_eq!(got, e),
        _ => panic!("expected the regex error"),
    }
}

#[test]
fn meta_pattern_escapes_what_a_regex_would_read() {
    assert_eq!(meta_pattern("green oaks"), "green oaks");
    assert_eq!(meta_pattern("c++ (beta)"), "c\\+\\+ \\(beta\\)");
    assert_eq!(meta_pattern("a.b*c?d|e[f]{g}^h$i#j&k-l~m\\"), "a\\.b\\*c\\?d\\|e\\[f\\]\\{g\\}\\^h\\$i\\#j\\&k\\-l\\~m\\\\");
    assert_eq!(meta_pattern("50% / \"x\" !"), "50% / \"x\" !");
}

#[test]
fn search_meta_keeps_the_order_of_the_store() {
    let r = search_meta(vec![episode(3, "tre"), episode(1, "uno"), episode(2, "due")]).unwrap();
    let ids: Vec<u32> = r.iter().map(|r| r.episode.id).collect();
    assert_eq!(ids, vec![3, 1, 2]);
    assert_eq!(r[1].episode.title, "uno");
}

#[test]
fn search_meta_with_nothing_found_is_no_results() {
    assert!(matches!(search_meta(vec![]), Err(SearchError::NoResults)));
}

#[test]
fn search_meta_over_the_cap_is_too_many() {
    let found: Vec<Episode> = (0..51).map(|i| episode(i, "x")).collect();
    assert!(matches!(search_meta(found), Err(SearchError::TooManyResults(51))));
    let found: Vec<Episode> = (0..50).map(|i| episode(i, "x")).collect();
    assert_eq!(search_meta(found).unwrap().len(), 50);
}

#[test]
fn search_transcript_all_keeps_the_ranking() {
    let found: Vec<Episode> = (0..60).rev().map(|i| episode(i, "x")).collect();
    let r = search_transcript_all(found).unwrap();
    assert_eq!(r.len(), 60);
    assert_eq!(r[0].episode.id, 59);
    assert_eq!(r[59].episode.id, 0);
    assert!(matches!(search_transcript_all(vec![]), Err(SearchError::NoResults)));
}

#[test]
fn within_cap_passes_fifty_and_refuses_fifty_one() {
    assert_eq!(within_cap((0..50).collect::<Vec<u32>>()).unwrap().len(), 50);
    assert!(matches!(within_cap((0..51).collect::<Vec<u32>>()), Err(SearchError::TooManyResults(51))));
}

#[test]
fn magic_episode_search_takes_a_large_number_for_the_id() {
    match magic_episode_search("56245683".to_string()) {
        MagicEpisode::Id(id) => assert_eq!(id, 56245683),
        other => panic!("no lookup is needed, got {:?}", other),
    }
}

#[test]
fn magic_episode_search_looks_a_small_number_up_in_the_titles() {
    match magic_episode_search("248".to_string()) {
        MagicEpisode::Title(pattern) => assert_eq!(pattern, "248"),
        other => panic!("expected a lookup by title, got {:?}", other),
    }
}

#[test]
fn magic_episode_search_at_the_threshold() {
    assert!(matches!(magic_episode_search("10001".to_string()), MagicEpisode::Id(10001)));
    match magic_episode_search("10000".to_string()) {
        MagicEpisode::Title(pattern) => assert_eq!(pattern, "10000"),
        other => panic!("expected a lookup by title, got {:?}", other),
    }
}

#[test]
fn magic_episode_search_writes_the_number_anew() {
    match magic_episode_search("+0042".to_string()) {
        MagicEpisode::Title(pattern) => assert_eq!(pattern, "42"),
        other => panic!("expected a lookup by title, got {:?}", other),
    }
    match magic_episode_search("0".to_string()) {
        MagicEpisode::Title(pattern) => assert_eq!(pattern, "0"),
        other => panic!("expected a lookup by title, got {:?}", other),
    }
}

#[test]
fn magic_episode_search_looks_text_up_as_it_stands() {
    for token in ["tornado potato", "", "-5", "12a", " 12", "4294967296", "+", "1_000"] {
        match magic_episode_search(token.to_string()) {
            MagicEpisode::Title(pattern) => assert_eq!(pattern, token),
            other => panic!("expected a lookup by title, got {:?}", other),
        }
    }
    assert!(matches!(magic_episode_search("4294967295".to_string()), MagicEpisode::Id(4294967295)));
}

#[test]
fn magic_episode_found_gives_the_first_match_or_no_results() {
    assert_eq!(magic_episode_found(Some(episode(56245683, "248: Tornado Potato"))).unwrap(), 56245683);
    assert!(matches!(magic_episode_found(None), Err(SearchError::NoResults)));
}

#[test]
fn respond_client_has_a_message_for_each_error() {
    assert_eq!(SearchError::EpisodeNotFound(1).respond_client(), "l'episodio richiesto non esiste");
    assert_eq!(
        SearchError::Regex(regex::Regex::new("(").unwrap_err()).respond_client(),
        "errore nella query"
    );
    assert_eq!(SearchError::NoResults.respond_client(), "nessun risultato trovato");
    assert_eq!(
        SearchError::TooManyResults(51).respond_client(),
        "troppi risultati, affina la ricerca"
    );
    assert_eq!(
        SearchError::InvariantViolated.respond_client(),
        "la trascrizione dell'episodio e' corrotta"
    );
    let e: SearchError = mongodb::error::Error::custom("x").into();
    assert_eq!(e.respond_client(), "errore del database");
}
