use songreq::ext::JoinWith;
use songreq::spotify_lyrics::SpotifyLyrics;
use songreq::util::{format_duration, Either};
use songreq::{TabSelection, TabView};

#[test]
fn format_duration_minutes_and_seconds() {
    assert_eq!(format_duration(0), "00:00");
    assert_eq!(format_duration(999), "00:00");
    assert_eq!(format_duration(5_000), "00:05");
    assert_eq!(format_duration(61_000), "01:01");
    assert_eq!(format_duration(3_599_000), "59:59");
}

#[test]
fn format_duration_with_hours() {
    assert_eq!(format_duration(3_600_000), "01:00:00");
    assert_eq!(format_duration(7_230_000), "02:00:30");
    // more than 99 hours keeps every digit
    assert_eq!(format_duration(360_000_000), "100:00:00");
    assert_eq!(format_duration(u32::MAX), "1193:02:47");
}

#[test]
fn join_inserts_separator_between_pieces() {
    let v = vec![String::from("a"), String::from("b"), String::from("c")];
    assert_eq!(v.join(", "), "a, b, c");
}

#[test]
fn join_of_one_or_none() {
    assert_eq!(vec![String::from("solo")].join(", "), "solo");
    assert_eq!(Vec::<String>::new().join(", "), "");
}

#[test]
fn join_skips_separator_while_nothing_is_accumulated() {
    let v = vec![String::new(), String::from("b")];
    assert_eq!(v.join(","), "b");
}

#[test]
fn fix_up_backfills_end_times() {
    let lines = vec![
        (0usize, String::from("first")),
        (1_500usize, String::from("second")),
        (4_000usize, String::from("third")),
    ];
    let fixed = SpotifyLyrics::fix_up(true, lines, 10_000);
    assert!(fixed.synced);
    let spans: Vec<(usize, usize, &str)> = fixed
        .lyrics
        .iter()
        .map(|l| (l.start, l.end, l.data.as_str()))
        .collect();
    assert_eq!(
        spans,
        vec![(0, 1_500, "first"), (1_500, 4_000, "second"), (4_000, 10_000, "third")]
    );
}

#[test]
fn fix_up_of_nothing() {
    let fixed = SpotifyLyrics::fix_up(false, Vec::new(), 250);
    assert!(!fixed.synced);
    assert!(fixed.lyrics.is_empty());
}

#[test]
fn default_lyrics_are_empty_and_unsynced() {
    let lyrics = SpotifyLyrics::default();
    assert!(lyrics.lyrics.is_empty());
    assert!(!lyrics.synced);
}

#[test]
fn tab_labels() {
    assert_eq!(TabSelection::Queue.label(), "Queue");
    assert_eq!(TabSelection::History.label(), "History");
    assert_eq!(TabSelection::default(), TabSelection::Queue);
    assert_eq!(TabView::Queue.label(), "Queue");
    assert_eq!(TabView::History.label(), "History");
    assert_eq!(TabView::default(), TabView::Queue);
}

#[test]
fn either_carries_one_of_two() {
    let l: Either<u32, &str> = Either::Left(7);
    let r: Either<u32, &str> = Either::Right("x");
    assert!(matches!(l, Either::Left(7)));
    assert!(matches!(r, Either::Right("x")));
}
