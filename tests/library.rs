use locust::config::{Config, DEFAULT_INTERVAL};
use locust::history::{collect_records, list_recent};
use locust::log::{frame_record, split_lines};
use locust::map::{fit_view, map_data, Viewport, POINT_ZOOM};
use locust::recorder::{Action, Event, Notice, Phase, Recorder};
use locust::sample::{accept_response, sample_from_response, Sample, Timestamp};

fn sample(secs: i64, lat: i64, lon: i64) -> Sample {
    Sample {
        timestamp: Timestamp { secs, nanos: 0 },
        lat,
        lon,
        city: None,
        country: None,
    }
}

fn secs_of(v: &[Sample]) -> Vec<i64> {
    v.iter().map(|s| s.timestamp.secs).collect()
}

#[test]
fn config_defaults() {
    let c = Config::default();
    assert_eq!(c.interval, 60);
    assert_eq!(DEFAULT_INTERVAL, 60);
    assert_eq!(c.log_path, "locations.jsonl");
    assert_eq!(c.api_url, "http://ip-api.com/json");
}

#[test]
fn config_missing_keys_take_defaults() {
    let c = Config::from_parts(Some(5), None, Some("http://example.org/geo".to_string()));
    assert_eq!(c.interval, 5);
    assert_eq!(c.log_path, "locations.jsonl");
    assert_eq!(c.api_url, "http://example.org/geo");
    let d = Config::from_parts(None, Some("x.jsonl".to_string()), None);
    assert_eq!(d.interval, 60);
    assert_eq!(d.log_path, "x.jsonl");
    assert_eq!(d.api_url, "http://ip-api.com/json");
}

#[test]
fn response_needs_lat_and_lon() {
    let at = Timestamp { secs: 1_700_000_000, nanos: 5 };
    assert!(sample_from_response(None, Some(1), None, None, at).is_none());
    assert!(sample_from_response(Some(1), None, Some("Oslo".to_string()), None, at).is_none());
    let s = sample_from_response(
        Some(407_128_000),
        Some(-740_060_000),
        Some("New York".to_string()),
        None,
        at,
    )
    .unwrap();
    assert_eq!(s.timestamp, at);
    assert_eq!((s.lat, s.lon), (407_128_000, -740_060_000));
    assert_eq!(s.city.as_deref(), Some("New York"));
    assert_eq!(s.country, None);
}

#[test]
fn accepted_response_is_stamped_now() {
    assert!(accept_response(Some(1), None, None, None).is_none());
    let s = accept_response(Some(10), Some(20), None, Some("Japan".to_string())).unwrap();
    // 2020-01-01T00:00:00Z; the clock of any machine running this is later.
    assert!(s.timestamp.secs > 1_577_836_800);
    assert!(s.timestamp.nanos < 2_000_000_000);
    assert_eq!((s.lat, s.lon), (10, 20));
    assert_eq!(s.country.as_deref(), Some("Japan"));
}

#[test]
fn framing_adds_one_newline() {
    assert_eq!(frame_record(b"{\"a\":1}".to_vec()), Some(b"{\"a\":1}\n".to_vec()));
    assert_eq!(frame_record(Vec::new()), Some(b"\n".to_vec()));
    assert_eq!(frame_record(b"a\nb".to_vec()), None);
}

#[test]
fn split_lines_cases() {
    assert_eq!(split_lines(&Vec::new()), Vec::<Vec<u8>>::new());
    assert_eq!(split_lines(&b"a\nb\n".to_vec()), vec![b"a".to_vec(), b"b".to_vec()]);
    assert_eq!(split_lines(&b"a\nb".to_vec()), vec![b"a".to_vec(), b"b".to_vec()]);
    assert_eq!(
        split_lines(&b"a\n\nb\n".to_vec()),
        vec![b"a".to_vec(), Vec::new(), b"b".to_vec()]
    );
    assert_eq!(split_lines(&b"\n".to_vec()), vec![Vec::<u8>::new()]);
}

#[test]
fn appended_records_read_back_in_order() {
    let records = vec![b"s1".to_vec(), b"s2".to_vec(), b"s3".to_vec()];
    let mut log: Vec<u8> = Vec::new();
    for r in &records {
        log.extend(frame_record(r.clone()).unwrap());
    }
    assert_eq!(split_lines(&log), records);
}

#[test]
fn malformed_line_is_skipped_with_one_warning() {
    let parsed = vec![Some(sample(1, 10, 20)), None, Some(sample(2, 30, 40))];
    let read = collect_records(parsed);
    assert_eq!(secs_of(&read.samples), vec![1, 2]);
    assert_eq!(read.skipped, vec![1]);
}

#[test]
fn reading_only_bad_lines_gives_nothing() {
    let read = collect_records(vec![None, None]);
    assert!(read.samples.is_empty());
    assert_eq!(read.skipped, vec![0, 1]);
}

#[test]
fn recent_three_of_five_newest_first() {
    let log: Vec<Sample> = (1..=5).map(|i| sample(i, i, i)).collect();
    assert_eq!(secs_of(&list_recent(log, 3)), vec![5, 4, 3]);
}

#[test]
fn recent_more_than_available() {
    let log: Vec<Sample> = (1..=2).map(|i| sample(i, i, i)).collect();
    assert_eq!(secs_of(&list_recent(log, 10)), vec![2, 1]);
    assert!(list_recent(Vec::new(), 10).is_empty());
    let log: Vec<Sample> = (1..=2).map(|i| sample(i, i, i)).collect();
    assert!(list_recent(log, 0).is_empty());
}

#[test]
fn empty_log_gives_world_view_and_no_points() {
    let m = map_data(&Vec::new());
    assert!(m.points.is_empty());
    assert_eq!(m.view, Viewport::World);
}

#[test]
fn view_fit_scenarios() {
    assert_eq!(fit_view(&Vec::new()), Viewport::World);
    assert_eq!(
        fit_view(&vec![(100_000_000, 200_000_000)]),
        Viewport::Centered { lat: 100_000_000, lon: 200_000_000, zoom: POINT_ZOOM }
    );
    assert_eq!(
        fit_view(&vec![(0, 0), (100_000_000, 100_000_000)]),
        Viewport::Bounds { south: 0, west: 0, north: 100_000_000, east: 100_000_000 }
    );
    assert_eq!(
        fit_view(&vec![(5, -7), (-3, 2), (4, 9)]),
        Viewport::Bounds { south: -3, west: -7, north: 5, east: 9 }
    );
}

#[test]
fn map_keeps_recording_order() {
    let log = vec![sample(1, 3, 4), sample(2, 1, 2), sample(3, 5, 6)];
    let m = map_data(&log);
    assert_eq!(m.points, vec![(3, 4), (1, 2), (5, 6)]);
    assert_eq!(m.view, Viewport::Bounds { south: 1, west: 2, north: 5, east: 6 });
}

#[test]
fn failing_provider_does_not_halt_the_loop() {
    let mut r = Recorder::new(60, Some(2));
    for _ in 0..2 {
        assert!(matches!(r.step(Event::Tick), Action::Fetch));
        assert!(matches!(
            r.step(Event::Fetched(None)),
            Action::Sleep { secs: 60, notice: Notice::FetchFailed }
        ));
    }
    assert_eq!(r.fetch_failures, 2);
    assert_eq!(r.cycles, 2);
    assert!(matches!(r.step(Event::Tick), Action::Halt));
    assert_eq!(r.phase, Phase::Stopped);
    assert!(matches!(r.step(Event::Tick), Action::Ignore));
}

#[test]
fn successful_cycle_appends_the_sample() {
    let mut r = Recorder::new(30, None);
    assert!(matches!(r.step(Event::Tick), Action::Fetch));
    match r.step(Event::Fetched(Some(sample(7, 1, 2)))) {
        Action::Append(s) => assert_eq!((s.timestamp.secs, s.lat, s.lon), (7, 1, 2)),
        other => panic!("expected an append, got {:?}", other),
    }
    assert!(matches!(
        r.step(Event::Written(true)),
        Action::Sleep { secs: 30, notice: Notice::Logged }
    ));
    assert_eq!((r.cycles, r.appended), (1, 1));
}

#[test]
fn write_failure_is_reported_and_loop_goes_on() {
    let mut r = Recorder::new(30, None);
    r.step(Event::Tick);
    r.step(Event::Fetched(Some(sample(7, 1, 2))));
    assert!(matches!(
        r.step(Event::Written(false)),
        Action::Sleep { secs: 30, notice: Notice::WriteFailed }
    ));
    assert_eq!((r.cycles, r.appended, r.write_failures), (1, 0, 1));
    assert!(matches!(r.step(Event::Tick), Action::Fetch));
}

#[test]
fn stop_request_ends_after_current_cycle() {
    let mut r = Recorder::new(30, None);
    r.step(Event::Tick);
    r.request_stop();
    assert!(matches!(
        r.step(Event::Fetched(None)),
        Action::Sleep { secs: 30, notice: Notice::FetchFailed }
    ));
    assert!(matches!(r.step(Event::Tick), Action::Halt));
}

#[test]
fn event_out_of_phase_is_ignored() {
    let mut r = Recorder::new(30, None);
    assert!(matches!(r.step(Event::Written(true)), Action::Ignore));
    assert_eq!(r.phase, Phase::Idle);
    assert_eq!(r.cycles, 0);
}

use locust::map::MapData;
use locust::render::{render_page, PAGE_HEAD, PAGE_MIDDLE, PAGE_TAIL};

fn page(view: &str, points: &str) -> String {
    format!("{}{}{}{}{}", PAGE_HEAD, view, PAGE_MIDDLE, points, PAGE_TAIL)
}

#[test]
fn empty_map_page_has_world_view_and_no_points() {
    let html = render_page(&map_data(&Vec::new()));
    assert_eq!(html, page("map.setView([0, 0], 2);", ""));
}

#[test]
fn single_point_page_is_centered_on_it() {
    let d = MapData {
        points: vec![(100_000_000, 200_000_000)],
        view: Viewport::Centered { lat: 100_000_000, lon: 200_000_000, zoom: 13 },
    };
    assert_eq!(
        render_page(&d),
        page(
            "map.setView([10.0000000, 20.0000000], 13);",
            "[10.0000000, 20.0000000]"
        )
    );
}

#[test]
fn page_writes_points_in_order_with_bounds() {
    let log = vec![sample(1, 407_128_000, -740_060_000), sample(2, -5, 0)];
    let html = render_page(&map_data(&log));
    assert_eq!(
        html,
        page(
            "map.fitBounds([[-0.0000005, -74.0060000], [40.7128000, 0.0000000]]);",
            "[40.7128000, -74.0060000],\n[-0.0000005, 0.0000000]"
        )
    );
}

#[test]
fn page_handles_extreme_coordinates() {
    let d = MapData {
        points: vec![(i64::MIN, i64::MAX)],
        view: Viewport::World,
    };
    assert_eq!(
        render_page(&d),
        page(
            "map.setView([0, 0], 2);",
            "[-922337203685.4775808, 922337203685.4775807]"
        )
    );
}
