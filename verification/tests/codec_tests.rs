use leaderboard_fetcher::codec::{decode_entry, decode_response, encode_response};
use leaderboard_fetcher::data::{DecodeError, FieldName, LeaderboardEntry, LeaderboardResponse};
use leaderboard_fetcher::json::Json;
use leaderboard_fetcher::render::render_response;
use leaderboard_fetcher::wire::decode_body;

fn entry(tag: &str) -> LeaderboardEntry {
    LeaderboardEntry {
        creator: format!("0xabc{}", tag),
        total_creator_reward: "12.345678901234567890".to_string(),
        mainnet_reward: "1.00".to_string(),
        optimism_reward: "0.25".to_string(),
        base_reward: "3.5".to_string(),
        zora_reward: "0.000000000000000001".to_string(),
    }
}

fn sample() -> LeaderboardResponse {
    LeaderboardResponse {
        leaderboard_data: vec![entry("1"), entry("2")],
        records_count: 2,
        total_zora_fees: "99.9999".to_string(),
        total_creator_fees: "123.456".to_string(),
    }
}

const BODY: &str = "{\"leaderboard_data\":[\
{\"creator\":\"0xabc1\",\"totalCreatorReward\":\"12.345678901234567890\",\
\"mainnetReward\":\"1.00\",\"optimismReward\":\"0.25\",\
\"baseReward\":\"3.5\",\"zoraReward\":\"0.000000000000000001\"},\
{\"creator\":\"0xabc2\",\"totalCreatorReward\":\"12.345678901234567890\",\
\"mainnetReward\":\"1.00\",\"optimismReward\":\"0.25\",\
\"baseReward\":\"3.5\",\"zoraReward\":\"0.000000000000000001\"}\
],\"recordsCount\":2,\
\"totalZoraFees\":\"99.9999\",\"totalCreatorFees\":\"123.456\"}";

#[test]
fn round_trip_document() {
    let original = sample();
    let doc = encode_response(&original);
    let back = decode_response(&doc).expect("an encoded response must decode");
    assert_eq!(back, original);
}

#[test]
fn round_trip_text() {
    let original = sample();
    let text = render_response(&original);
    let back = decode_body(&text).expect("rendered text must decode");
    assert_eq!(back, original);
}

#[test]
fn round_trip_text_with_escapes() {
    let mut original = sample();
    original.leaderboard_data[0].creator = "a\"b\\c\nd\te\u{1}f\u{7f}\u{e9}".to_string();
    original.total_zora_fees = "\u{0}".to_string();
    let text = render_response(&original);
    let back = decode_body(&text).expect("escaped text must decode");
    assert_eq!(back, original);
}

#[test]
fn exact_casing_decodes() {
    let got = decode_body(BODY).expect("the documented casing must decode");
    assert_eq!(got, sample());
    assert_eq!(got.records_count, 2);
    assert_eq!(got.leaderboard_data.len(), 2);
    assert_eq!(got.leaderboard_data[0].creator, "0xabc1");
    assert_eq!(got.leaderboard_data[1].total_creator_reward, "12.345678901234567890");
    assert_eq!(got.total_zora_fees, "99.9999");
    assert_eq!(got.total_creator_fees, "123.456");
}

#[test]
fn renamed_casing_fails() {
    let body = BODY.replace("totalCreatorReward", "totalcreatorreward");
    assert_eq!(
        decode_body(&body),
        Err(DecodeError::Missing(FieldName::TotalCreatorReward))
    );
}

#[test]
fn renamed_top_level_casing_fails() {
    let body = BODY.replace("recordsCount", "recordscount");
    assert_eq!(decode_body(&body), Err(DecodeError::Missing(FieldName::RecordsCount)));
}

#[test]
fn missing_records_count_fails() {
    let body = BODY.replace(",\"recordsCount\":2", "");
    assert_eq!(decode_body(&body), Err(DecodeError::Missing(FieldName::RecordsCount)));
}

#[test]
fn invalid_json_fails() {
    assert_eq!(decode_body("not json at all"), Err(DecodeError::Syntax));
    assert_eq!(decode_body(""), Err(DecodeError::Syntax));
}

#[test]
fn non_object_fails() {
    assert_eq!(decode_body("[1,2,3]"), Err(DecodeError::NotAnObject));
    assert_eq!(decode_body("\"text\""), Err(DecodeError::NotAnObject));
}

#[test]
fn wrong_type_records_count_fails() {
    let body = BODY.replace("\"recordsCount\":2", "\"recordsCount\":\"2\"");
    assert_eq!(decode_body(&body), Err(DecodeError::WrongType(FieldName::RecordsCount)));
}

#[test]
fn fractional_records_count_fails() {
    let body = BODY.replace("\"recordsCount\":2", "\"recordsCount\":2.5");
    assert_eq!(decode_body(&body), Err(DecodeError::WrongType(FieldName::RecordsCount)));
}

#[test]
fn records_count_beyond_i32_fails() {
    let body = BODY.replace("\"recordsCount\":2", "\"recordsCount\":2147483648");
    assert_eq!(decode_body(&body), Err(DecodeError::WrongType(FieldName::RecordsCount)));
}

#[test]
fn unknown_fields_are_ignored() {
    let body = BODY.replace(
        "\"totalZoraFees\"",
        "\"somethingElse\":7,\"totalZoraFees\"",
    );
    assert_eq!(decode_body(&body), Ok(sample()));
}

#[test]
fn empty_leaderboard_decodes() {
    let body = "{\"leaderboard_data\":[],\"recordsCount\":0,\
                \"totalZoraFees\":\"0\",\"totalCreatorFees\":\"0\"}";
    let got = decode_body(body).expect("an empty leaderboard must decode");
    assert_eq!(got.leaderboard_data.len(), 0);
    assert_eq!(got.records_count, 0);
}

#[test]
fn entry_missing_field_fails() {
    let body = BODY.replace(",\"baseReward\":\"3.5\"", "");
    assert_eq!(decode_body(&body), Err(DecodeError::Missing(FieldName::BaseReward)));
}

#[test]
fn entry_wrong_type_fails() {
    let body = BODY.replace("\"mainnetReward\":\"1.00\"", "\"mainnetReward\":1.00");
    assert_eq!(decode_body(&body), Err(DecodeError::WrongType(FieldName::MainnetReward)));
}

#[test]
fn entry_not_an_object_fails() {
    let doc = Json::Obj(vec![
        ("leaderboard_data".to_string(), Json::Arr(vec![Json::Int(1)])),
        ("recordsCount".to_string(), Json::Int(1)),
        ("totalZoraFees".to_string(), Json::Str("0".to_string())),
        ("totalCreatorFees".to_string(), Json::Str("0".to_string())),
    ]);
    assert_eq!(decode_response(&doc), Err(DecodeError::NotAnObject));
}

#[test]
fn decode_entry_takes_first_binding() {
    let fields = vec![
        ("creator".to_string(), Json::Str("first".to_string())),
        ("creator".to_string(), Json::Str("second".to_string())),
        ("totalCreatorReward".to_string(), Json::Str("1".to_string())),
        ("mainnetReward".to_string(), Json::Str("2".to_string())),
        ("optimismReward".to_string(), Json::Str("3".to_string())),
        ("baseReward".to_string(), Json::Str("4".to_string())),
        ("zoraReward".to_string(), Json::Str("5".to_string())),
    ];
    let got = decode_entry(&Json::Obj(fields)).expect("must decode");
    assert_eq!(got.creator, "first");
}

#[test]
fn negative_records_count_decodes() {
    let body = BODY.replace("\"recordsCount\":2", "\"recordsCount\":-3");
    let got = decode_body(&body).expect("a negative count still fits the schema");
    assert_eq!(got.records_count, -3);
}
