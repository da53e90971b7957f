use power_pizza_bot::db::PPPData;
use power_pizza_bot::spreaker::{
    episode_url, show_episodes_url, Episode, EpisodeResponse, ProtoEpisode, Pull, SimpleEpisode,
    SpreakerData, SpreakerDataIter, SpreakerError, SpreakerResponse, API_URL,
};

fn proto(published_at: &str) -> ProtoEpisode {
    ProtoEpisode {
        episode_id: 56245683,
        title: "248: Tornado Potato (con CKibe)".to_string(),
        duration: 3469130,
        show_id: 3039391,
        author_id: 10653829,
        published_at: published_at.to_string(),
        download_url: "https://api.spreaker.com/v2/episodes/56245683/download.mp3".to_string(),
        description: "scontrino".to_string(),
        description_html: "<p>scontrino</p>".to_string(),
    }
}

fn page(items: Vec<u32>, next_url: Option<&str>) -> SpreakerData<u32> {
    SpreakerData { items, next_url: next_url.map(|u| u.to_string()) }
}

fn items_until_not_item(it: &mut SpreakerDataIter<u32>) -> (Vec<u32>, Pull<u32>) {
    let mut got = vec![];
    loop {
        match it.poll_next() {
            Pull::Item(i) => got.push(i),
            other => return (got, other),
        }
    }
}

fn io_error() -> SpreakerError {
    SpreakerError::IOError(std::io::Error::new(std::io::ErrorKind::Other, "disk full"))
}

#[test]
fn episode_from_proto_reads_the_time_as_utc() {
    let e = Episode::from(proto("2023-07-28 08:00:02"));
    assert_eq!(e.id, 56245683);
    assert_eq!(e.title, "248: Tornado Potato (con CKibe)");
    assert_eq!(e.duration, 3469130);
    assert_eq!(e.show_id, 3039391);
    assert_eq!(e.author_id, 10653829);
    assert_eq!(e.published_at, 1690531202);
    assert_eq!(e.download_url, "https://api.spreaker.com/v2/episodes/56245683/download.mp3");
    assert_eq!(e.description, "scontrino");
    assert_eq!(e.description_html, "<p>scontrino</p>");
}

#[test]
fn episode_at_the_epoch() {
    assert_eq!(Episode::from(proto("1970-01-01 00:00:00")).published_at, 0);
    assert_eq!(Episode::from(proto("1969-12-31 23:59:59")).published_at, -1);
}

#[test]
fn episode_published_takes_the_time_as_given() {
    let e = Episode::published(proto("whenever"), 42);
    assert_eq!(e.published_at, 42);
    assert_eq!(e.id, 56245683);
}

#[test]
fn checked_from_refuses_what_is_no_date_and_time() {
    assert_eq!(Episode::checked_from(proto("2023-07-28 08:00:02")).unwrap().published_at, 1690531202);
    assert!(Episode::checked_from(proto("2023-07-28")).is_none());
    assert!(Episode::checked_from(proto("2023-07-28T08:00:02")).is_none());
    assert!(Episode::checked_from(proto("2023-02-30 08:00:02")).is_none());
    assert!(Episode::checked_from(proto("")).is_none());
}

#[test]
fn episode_response_hands_out_what_it_holds() {
    let e = EpisodeResponse::new(proto("2023-07-28 08:00:02")).into_inner();
    assert_eq!(e.id, 56245683);
    assert_eq!(e.published_at, 1690531202);
    assert!(EpisodeResponse::new(proto("yesterday")).checked_into_inner().is_none());
    assert_eq!(
        EpisodeResponse::new(proto("2023-07-28 08:00:02")).checked_into_inner().unwrap().published_at,
        1690531202
    );
    let s = EpisodeResponse::new(SimpleEpisode {
        id: 7,
        download_url: "u".to_string(),
        title: "t".to_string(),
    })
    .into_inner();
    assert_eq!(s.id, 7);
    assert_eq!(s.download_url, "u");
    assert_eq!(s.title, "t");
}

#[test]
fn episodes_are_kept_under_their_id() {
    assert_eq!(<Episode as PPPData>::COLLECTION, "episodes");
    assert_eq!(<Episode as PPPData>::ID_KEY, "id");
}

#[test]
fn urls_of_the_episode_api() {
    assert_eq!(API_URL, "https://api.spreaker.com/v2");
    assert_eq!(episode_url(56245683), "https://api.spreaker.com/v2/episodes/56245683");
    assert_eq!(episode_url(0), "https://api.spreaker.com/v2/episodes/0");
    assert_eq!(show_episodes_url("3039391"), "https://api.spreaker.com/v2/shows/3039391/episodes");
}

#[test]
fn three_pages_give_five_items_in_order_and_then_the_end() {
    let mut it = SpreakerData::<u32>::request("https://first".to_string());
    assert_eq!(it.next_request().as_deref(), Some("https://first"));
    it.page_arrived(page(vec![1, 2], Some("https://second")));
    assert_eq!(it.next_request().as_deref(), Some("https://second"));
    it.page_arrived(page(vec![3, 4, 5], Some("https://third")));
    assert_eq!(it.next_request().as_deref(), Some("https://third"));
    it.page_arrived(page(vec![], None));
    assert_eq!(it.next_request(), None);
    let (got, then) = items_until_not_item(&mut it);
    assert_eq!(got, vec![1, 2, 3, 4, 5]);
    assert!(matches!(then, Pull::End));
    assert!(matches!(it.poll_next(), Pull::End));
    assert!(matches!(it.poll_next(), Pull::End));
}

#[test]
fn pulls_between_pages_keep_the_order() {
    let mut it = SpreakerDataIter::<u32>::new("https://first".to_string());
    assert!(matches!(it.poll_next(), Pull::Pending));
    it.page_arrived(page(vec![1, 2], Some("https://second")));
    assert!(matches!(it.poll_next(), Pull::Item(1)));
    it.page_arrived(page(vec![3, 4, 5], Some("https://third")));
    assert!(matches!(it.poll_next(), Pull::Item(2)));
    assert!(matches!(it.poll_next(), Pull::Item(3)));
    assert!(matches!(it.poll_next(), Pull::Item(4)));
    assert!(matches!(it.poll_next(), Pull::Item(5)));
    assert!(matches!(it.poll_next(), Pull::Pending));
    it.page_arrived(page(vec![], None));
    assert!(matches!(it.poll_next(), Pull::End));
}

#[test]
fn an_empty_next_url_ends_the_pages() {
    let mut it = SpreakerDataIter::<u32>::new("https://first".to_string());
    it.page_arrived(page(vec![1], Some("")));
    assert_eq!(it.next_request(), None);
    assert!(matches!(it.poll_next(), Pull::Item(1)));
    assert!(matches!(it.poll_next(), Pull::End));
}

#[test]
fn a_failure_is_reported_once_after_what_was_buffered() {
    let mut it = SpreakerDataIter::<u32>::new("https://first".to_string());
    it.page_arrived(page(vec![1, 2], Some("https://second")));
    it.request_failed(io_error());
    assert_eq!(it.next_request(), None);
    assert!(matches!(it.poll_next(), Pull::Item(1)));
    assert!(matches!(it.poll_next(), Pull::Item(2)));
    assert!(matches!(it.poll_next(), Pull::Failed(SpreakerError::IOError(_))));
    assert!(matches!(it.poll_next(), Pull::End));
}

#[test]
fn a_failure_of_the_first_request_is_what_the_first_pull_gives() {
    let mut it = SpreakerDataIter::<u32>::new("https://first".to_string());
    it.request_failed(io_error());
    assert!(matches!(it.poll_next(), Pull::Failed(_)));
    assert!(matches!(it.poll_next(), Pull::End));
}

#[test]
fn spreaker_response_wraps_a_page() {
    let r = SpreakerResponse { response: page(vec![1, 2], None) };
    assert_eq!(r.response.items, vec![1, 2]);
    assert_eq!(r.response.next_url, None);
}

#[test]
fn spreaker_error_is_written_with_its_label() {
    assert_eq!(io_error().to_string(), "IO error: disk full");
}
