use leaderboard_fetcher::data::{DecodeError, FetchError, LeaderboardResponse};
use leaderboard_fetcher::orchestrate::{fan_out_days, join_results, leaderboard_urls};
use leaderboard_fetcher::url::leaderboard_url;

fn response(n: i32) -> LeaderboardResponse {
    LeaderboardResponse {
        leaderboard_data: vec![],
        records_count: n,
        total_zora_fees: "0".to_string(),
        total_creator_fees: "0".to_string(),
    }
}

#[test]
fn fan_out_days_are_fixed() {
    assert_eq!(fan_out_days(), vec![80, 90, 100, 110]);
}

#[test]
fn url_for_each_day() {
    assert_eq!(
        leaderboard_url(80),
        "https://api.quickindexer.xyz/leaderboard/?days=80"
    );
    assert_eq!(
        leaderboard_url(110),
        "https://api.quickindexer.xyz/leaderboard/?days=110"
    );
}

#[test]
fn urls_cover_each_day_exactly_once() {
    let urls = leaderboard_urls();
    assert_eq!(
        urls,
        vec![
            "https://api.quickindexer.xyz/leaderboard/?days=80",
            "https://api.quickindexer.xyz/leaderboard/?days=90",
            "https://api.quickindexer.xyz/leaderboard/?days=100",
            "https://api.quickindexer.xyz/leaderboard/?days=110",
        ]
    );
}

#[test]
fn url_edge_values() {
    assert_eq!(leaderboard_url(0), "https://api.quickindexer.xyz/leaderboard/?days=0");
    assert_eq!(leaderboard_url(-5), "https://api.quickindexer.xyz/leaderboard/?days=-5");
    assert_eq!(
        leaderboard_url(2147483647),
        "https://api.quickindexer.xyz/leaderboard/?days=2147483647"
    );
    assert_eq!(
        leaderboard_url(-2147483648),
        "https://api.quickindexer.xyz/leaderboard/?days=-2147483648"
    );
}

#[test]
fn join_keeps_submission_order() {
    // The outcomes are indexed by submission position, so the joined
    // output keeps that order no matter which request finished first.
    let results = vec![
        Ok(response(80)),
        Ok(response(90)),
        Ok(response(100)),
        Ok(response(110)),
    ];
    let joined = join_results(results).expect("all succeeded");
    let counts: Vec<i32> = joined.iter().map(|r| r.records_count).collect();
    assert_eq!(counts, vec![80, 90, 100, 110]);
}

#[test]
fn join_fails_when_any_one_fails() {
    for failing in 0..4 {
        let mut results: Vec<Result<LeaderboardResponse, FetchError>> = Vec::new();
        for i in 0..4 {
            if i == failing {
                results.push(Err(FetchError::Network("connection refused".to_string())));
            } else {
                results.push(Ok(response(i)));
            }
        }
        assert_eq!(
            join_results(results),
            Err(FetchError::Network("connection refused".to_string()))
        );
    }
}

#[test]
fn join_reports_earliest_failure() {
    let results = vec![
        Ok(response(1)),
        Err(FetchError::Decode(DecodeError::Syntax)),
        Err(FetchError::Task("cancelled".to_string())),
        Ok(response(4)),
    ];
    assert_eq!(
        join_results(results),
        Err(FetchError::Decode(DecodeError::Syntax))
    );
}

#[test]
fn join_of_empty_input_is_empty() {
    assert_eq!(join_results(vec![]), Ok(vec![]));
}
