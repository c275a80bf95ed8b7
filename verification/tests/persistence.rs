use toon_dash::game::persistence::{
    encode_stats, load_stats_from, parse_highscore, parse_stats, stats_from_stored,
};
use toon_dash::game::state::LifetimeStats;

fn stats(h: u32, c: u32, s: u32, d: u32) -> LifetimeStats {
    LifetimeStats { high_score: h, total_coins: c, total_stars: s, total_distance: d }
}

#[test]
fn encode_writes_four_decimal_fields() {
    assert_eq!(encode_stats(stats(1234, 56, 7, 8901)), "1234,56,7,8901");
    assert_eq!(encode_stats(stats(0, 0, 0, 0)), "0,0,0,0");
    assert_eq!(encode_stats(stats(u32::MAX, 10, 100, 9)), "4294967295,10,100,9");
}

#[test]
fn saved_stats_read_back() {
    for s in [
        stats(0, 0, 0, 0),
        stats(1234, 56, 7, 8901),
        stats(u32::MAX, u32::MAX, 1, 10),
        stats(10, 20, 30, 40),
    ] {
        let text = encode_stats(s);
        assert_eq!(parse_stats(&text), Some(s));
        assert_eq!(load_stats_from(Some(&text), Some("999")), s);
    }
}

#[test]
fn parse_trims_and_tolerates_bad_fields() {
    assert_eq!(parse_stats("  12,3,4,5\n"), Some(stats(12, 3, 4, 5)));
    assert_eq!(parse_stats("\u{a0}12,3,4,5\u{3000}"), Some(stats(12, 3, 4, 5)));
    assert_eq!(parse_stats("+12,x,,4294967296"), Some(stats(12, 0, 0, 0)));
    assert_eq!(parse_stats("12, 3,4,5"), Some(stats(12, 0, 4, 5)));
    assert_eq!(parse_stats("-1,+,++2,007"), Some(stats(0, 0, 0, 7)));
    assert_eq!(parse_stats(",,,"), Some(stats(0, 0, 0, 0)));
}

#[test]
fn parse_needs_four_fields() {
    assert_eq!(parse_stats(""), None);
    assert_eq!(parse_stats("1,2,3"), None);
    assert_eq!(parse_stats("1,2,3,4,5"), None);
    assert_eq!(parse_stats("1234"), None);
}

#[test]
fn highscore_save() {
    assert_eq!(parse_highscore(" 42 \n"), 42);
    assert_eq!(parse_highscore("4294967295"), u32::MAX);
    assert_eq!(parse_highscore("4294967296"), 0);
    assert_eq!(parse_highscore("abc"), 0);
    assert_eq!(parse_highscore(""), 0);
}

#[test]
fn loading_falls_back_in_order() {
    assert_eq!(load_stats_from(Some("1,2,3,4"), Some("99")), stats(1, 2, 3, 4));
    assert_eq!(load_stats_from(Some("1,2,3"), Some("99")), stats(99, 0, 0, 0));
    assert_eq!(load_stats_from(None, Some(" 77")), stats(77, 0, 0, 0));
    assert_eq!(load_stats_from(Some("garbage"), None), stats(0, 0, 0, 0));
    assert_eq!(load_stats_from(None, None), LifetimeStats::default());
}

#[test]
fn stored_values_from_the_browser() {
    assert_eq!(stats_from_stored(0, 0, 0, 0, 250), stats(250, 0, 0, 0));
    assert_eq!(stats_from_stored(0, 0, 0, 0, -3), stats(0, 0, 0, 0));
    assert_eq!(stats_from_stored(100, -5, 3, 40, 999), stats(100, 0, 3, 40));
    assert_eq!(stats_from_stored(0, 1, 0, 0, 999), stats(0, 1, 0, 0));
}

#[test]
fn recording_runs_grows_the_totals() {
    let mut s = LifetimeStats::default();
    s.record_run(500, 3, 1, 120);
    assert_eq!(s, stats(500, 3, 1, 120));
    s.record_run(200, 4, 0, 80);
    assert_eq!(s, stats(500, 7, 1, 200));
    s.record_run(900, u32::MAX, 2, 1);
    assert_eq!(s, stats(900, u32::MAX, 3, 201));
    assert_eq!(parse_stats(&encode_stats(s)), Some(s));
}
