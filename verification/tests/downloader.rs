use power_pizza_bot::spreaker::downloader::{
    already_downloaded, audio_file_name, ManagerStep, SpreakerDownloader, Workers,
};
use power_pizza_bot::spreaker::SimpleEpisode;

fn ep(id: u32) -> SimpleEpisode {
    SimpleEpisode { id, download_url: format!("https://audio/{}", id), title: format!("n. {}", id) }
}

#[test]
fn workers_start_in_order_up_to_the_size_of_the_pool() {
    let mut d = SpreakerDownloader::new(2);
    assert!(matches!(d.next(), ManagerStep::AwaitEpisode));
    d.download(ep(1));
    d.download(ep(2));
    d.download(ep(3));
    assert!(matches!(d.next(), ManagerStep::Start(SimpleEpisode { id: 1, .. })));
    assert!(matches!(d.next(), ManagerStep::Start(SimpleEpisode { id: 2, .. })));
    assert_eq!(d.running(), 2);
    assert!(matches!(d.next(), ManagerStep::AwaitWorker));
    d.worker_finished();
    assert_eq!(d.running(), 1);
    assert!(matches!(d.next(), ManagerStep::Start(SimpleEpisode { id: 3, .. })));
    assert!(matches!(d.next(), ManagerStep::AwaitWorker));
    d.worker_finished();
    assert!(matches!(d.next(), ManagerStep::AwaitEpisode));
}

#[test]
fn the_end_comes_when_nothing_waits_and_nothing_runs() {
    let mut d = SpreakerDownloader::new(1);
    d.download(ep(1));
    d.download(ep(2));
    d.join();
    assert!(matches!(d.next(), ManagerStep::Start(SimpleEpisode { id: 1, .. })));
    assert!(matches!(d.next(), ManagerStep::AwaitWorker));
    d.worker_finished();
    assert!(matches!(d.next(), ManagerStep::Start(SimpleEpisode { id: 2, .. })));
    assert!(matches!(d.next(), ManagerStep::AwaitWorker));
    d.worker_finished();
    assert!(matches!(d.next(), ManagerStep::Done));
    assert!(matches!(d.next(), ManagerStep::Done));
}

#[test]
fn a_pool_without_workers_ends_only_with_nothing_to_fetch() {
    let mut d = SpreakerDownloader::new(0);
    d.join();
    assert!(matches!(d.next(), ManagerStep::Done));
    d.download(ep(1));
    assert!(matches!(d.next(), ManagerStep::AwaitWorker));
}

#[test]
fn a_worker_that_ends_with_none_running_changes_nothing() {
    let mut d = SpreakerDownloader::new(3);
    d.worker_finished();
    assert_eq!(d.running(), 0);
    let mut w = Workers::new(1);
    assert_eq!((w.jobs(), w.running()), (1, 0));
    assert!(w.try_start());
    assert!(!w.try_start());
    assert_eq!(w.running(), 1);
    w.finished();
    w.finished();
    assert_eq!(w.running(), 0);
}

#[test]
fn audio_files_are_named_by_id_and_title() {
    let e = SimpleEpisode {
        id: 56245683,
        download_url: String::new(),
        title: "248: Tornado Potato".to_string(),
    };
    assert_eq!(audio_file_name(&e), "56245683 - 248: Tornado Potato.mp3");
}

#[test]
fn audio_is_there_when_the_lengths_agree() {
    assert!(already_downloaded(Some(10), Some(10)));
    assert!(!already_downloaded(Some(10), Some(11)));
    assert!(!already_downloaded(None, Some(10)));
    assert!(!already_downloaded(Some(10), None));
    assert!(!already_downloaded(None, None));
}
