use cats::api::make_record;
use cats::api::map_entries;
use cats::api::map_entry;
use cats::api::CarbonIntensityAPI;
use cats::api::FetchError;
use cats::api::Reply;
use cats::config::Config;
use cats::config::DataDir;
use cats::config::RefreshTime;
use cats::data::CarbonIntensity;
use cats::payload::RawEntry;
use cats::timestamp::Timestamp;
use std::path::PathBuf;

fn client() -> CarbonIntensityAPI {
    let config = Config::new(
        RefreshTime::new(1),
        "https://api.example.com/".to_string(),
        "AB12".to_string(),
        DataDir::new(PathBuf::from("/var/lib/cats")),
    );
    CarbonIntensityAPI::new(&config)
}

fn entry(from: &str, to: &str, forecast: &str) -> String {
    format!(
        r#"{{"from":"{}","to":"{}","intensity":{{"forecast":{},"index":"moderate"}},"generationmix":[]}}"#,
        from, to, forecast
    )
}

fn body(entries: &[String]) -> Reply {
    Reply::Body(format!(
        r#"{{"data":{{"regionid":3,"dnoregion":"Electricity North West","shortname":"North West England","postcode":"AB12","data":[{}]}}}}"#,
        entries.join(",")
    ))
}

fn record(from: i64, to: i64, intensity: i64) -> CarbonIntensity {
    CarbonIntensity {
        from: Timestamp::new(from, 0).unwrap(),
        to: Timestamp::new(to, 0).unwrap(),
        intensity,
    }
}

#[test]
fn minimal_record_is_mapped() {
    let reply = body(&[entry("2024-01-01T00:00Z", "2024-01-01T00:30Z", "120")]);
    assert_eq!(client().fetch(&reply), Ok(vec![record(1_704_067_200, 1_704_069_000, 120)]));
}

#[test]
fn mapped_times_are_whole_minutes_in_utc() {
    let reply = body(&[entry("2024-03-05T07:09Z", "2024-03-05T07:39Z", "7")]);
    let records = client().fetch(&reply).unwrap();
    assert_eq!(records.len(), 1);
    assert_eq!(records[0].from.secs(), 1_709_622_540);
    assert_eq!(records[0].from.nanos(), 0);
    assert_eq!(records[0].to.secs(), 1_709_624_340);
    assert_eq!(records[0].to.nanos(), 0);
    assert_eq!(records[0].from.secs() % 60, 0);
    assert_eq!(records[0].intensity, 7);
}

#[test]
fn malformed_from_fails_the_whole_fetch() {
    let reply = body(&[
        entry("2024-01-01T00:00Z", "2024-01-01T00:30Z", "120"),
        entry("not-a-date", "2024-01-01T01:00Z", "130"),
        entry("2024-01-01T01:00Z", "2024-01-01T01:30Z", "140"),
    ]);
    assert_eq!(client().fetch(&reply), Err(FetchError::Timestamp));
}

#[test]
fn malformed_to_fails_the_whole_fetch() {
    let reply = body(&[
        entry("2024-01-01T00:00Z", "2024-01-01T00:30Z", "120"),
        entry("2024-01-01T00:30Z", "", "130"),
    ]);
    assert_eq!(client().fetch(&reply), Err(FetchError::Timestamp));
}

#[test]
fn times_in_other_formats_are_refused() {
    for bad in [
        "2024-01-01T00:00:00Z",
        "2024-01-01T00:00",
        "2024-01-01 00:00Z",
        "2024-01-01T00:00Zjunk",
        "2024-13-01T00:00Z",
        "2024-02-30T00:00Z",
        "2024-01-01T24:00Z",
        "2024-01-01T00:60Z",
        "01/01/2024",
        "2024-1-1T0:0Z",
        "24-01-01T00:00Z",
        " 2024-01-01T00:00Z",
        "+2024-01-01T00:00Z",
        "2024-01-01T 00:00Z",
        "+12345-01-01T00:00Z",
    ] {
        let reply = body(&[entry(bad, "2024-01-01T00:30Z", "1")]);
        assert_eq!(client().fetch(&reply), Err(FetchError::Timestamp), "{}", bad);
        let reply = body(&[entry("2024-01-01T00:00Z", bad, "1")]);
        assert_eq!(client().fetch(&reply), Err(FetchError::Timestamp), "{}", bad);
    }
}

#[test]
fn records_keep_the_order_of_the_entries() {
    let reply = body(&[
        entry("2024-01-01T01:00Z", "2024-01-01T01:30Z", "3"),
        entry("2024-01-01T00:00Z", "2024-01-01T00:30Z", "1"),
        entry("2024-01-01T00:30Z", "2024-01-01T01:00Z", "2"),
        entry("2024-01-01T00:00Z", "2024-01-01T00:30Z", "1"),
    ]);
    assert_eq!(
        client().fetch(&reply),
        Ok(vec![
            record(1_704_070_800, 1_704_072_600, 3),
            record(1_704_067_200, 1_704_069_000, 1),
            record(1_704_069_000, 1_704_070_800, 2),
            record(1_704_067_200, 1_704_069_000, 1),
        ])
    );
}

#[test]
fn a_window_of_forty_eight_slots_comes_back_whole() {
    let start: i64 = 1_704_067_200;
    let mut entries = Vec::new();
    let mut expected = Vec::new();
    for slot in 0..48i64 {
        let from = chrono::DateTime::from_timestamp(start + slot * 1800, 0).unwrap();
        let to = chrono::DateTime::from_timestamp(start + (slot + 1) * 1800, 0).unwrap();
        entries.push(entry(
            &from.format("%Y-%m-%dT%H:%MZ").to_string(),
            &to.format("%Y-%m-%dT%H:%MZ").to_string(),
            &(100 + slot).to_string(),
        ));
        expected.push(record(start + slot * 1800, start + (slot + 1) * 1800, 100 + slot));
    }
    assert_eq!(client().fetch(&body(&entries)), Ok(expected));
}

#[test]
fn intensity_is_passed_through() {
    let reply = body(&[
        entry("2024-01-01T00:00Z", "2024-01-01T00:30Z", "-5"),
        entry("2024-01-01T00:00Z", "2024-01-01T00:30Z", "0"),
        entry("2024-01-01T00:00Z", "2024-01-01T00:30Z", "9223372036854775807"),
        entry("2024-01-01T00:00Z", "2024-01-01T00:30Z", "-9223372036854775808"),
    ]);
    let records = client().fetch(&reply).unwrap();
    let intensities: Vec<i64> = records.iter().map(|record| record.intensity).collect();
    assert_eq!(intensities, vec![-5, 0, i64::MAX, i64::MIN]);
}

#[test]
fn interval_that_runs_backwards_is_kept_as_sent() {
    let reply = body(&[entry("2024-01-01T00:30Z", "2024-01-01T00:00Z", "1")]);
    let records = client().fetch(&reply).unwrap();
    assert_eq!(records, vec![record(1_704_069_000, 1_704_067_200, 1)]);
    assert!(!records[0].is_forward());
}

#[test]
fn empty_array_gives_no_records() {
    assert_eq!(client().fetch(&body(&[])), Ok(vec![]));
}

#[test]
fn transport_failure_gives_transport_error() {
    assert_eq!(client().fetch(&Reply::Unreachable), Err(FetchError::Transport));
}

#[test]
fn body_that_is_not_json_gives_payload_error() {
    for bad in ["", "   ", "<html></html>", "{", "{\"data\":", "[1,2", "{\"data\":{}} trailing"] {
        assert_eq!(
            client().fetch(&Reply::Body(bad.to_string())),
            Err(FetchError::Payload),
            "{}",
            bad
        );
    }
}

#[test]
fn json_of_another_shape_gives_payload_error() {
    for bad in [
        "null",
        "[]",
        "42",
        "\"data\"",
        "{}",
        r#"{"data":null}"#,
        r#"{"data":[]}"#,
        r#"{"data":{}}"#,
        r#"{"error":{"code":"400 Bad Request","message":"Please enter a valid postcode"}}"#,
        r#"{"data":{"regionid":3,"dnoregion":"a","shortname":"b","postcode":"c"}}"#,
        r#"{"data":{"regionid":3,"dnoregion":"a","shortname":"b","postcode":"c","data":{}}}"#,
        r#"{"data":{"regionid":"3","dnoregion":"a","shortname":"b","postcode":"c","data":[]}}"#,
        r#"{"data":{"regionid":3.5,"dnoregion":"a","shortname":"b","postcode":"c","data":[]}}"#,
        r#"{"data":{"dnoregion":"a","shortname":"b","postcode":"c","data":[]}}"#,
        r#"{"data":{"regionid":3,"shortname":"b","postcode":"c","data":[]}}"#,
        r#"{"data":{"regionid":3,"dnoregion":"a","postcode":"c","data":[]}}"#,
        r#"{"data":{"regionid":3,"dnoregion":"a","shortname":"b","data":[]}}"#,
        r#"{"data":{"regionid":3,"dnoregion":7,"shortname":"b","postcode":"c","data":[]}}"#,
        r#"{"data":{"regionid":3,"dnoregion":"a","shortname":null,"postcode":"c","data":[]}}"#,
        r#"{"data":{"regionid":3,"dnoregion":"a","shortname":"b","postcode":["c"],"data":[]}}"#,
    ] {
        assert_eq!(
            client().fetch(&Reply::Body(bad.to_string())),
            Err(FetchError::Payload),
            "{}",
            bad
        );
    }
}

#[test]
fn entry_of_another_shape_gives_payload_error() {
    let good = entry("2024-01-01T00:00Z", "2024-01-01T00:30Z", "120");
    for bad in [
        r#"{}"#,
        r#"null"#,
        r#"[]"#,
        r#"{"to":"2024-01-01T00:30Z","intensity":{"forecast":1,"index":"low"},"generationmix":[]}"#,
        r#"{"from":"2024-01-01T00:00Z","intensity":{"forecast":1,"index":"low"},"generationmix":[]}"#,
        r#"{"from":"2024-01-01T00:00Z","to":"2024-01-01T00:30Z","generationmix":[]}"#,
        r#"{"from":"2024-01-01T00:00Z","to":"2024-01-01T00:30Z","intensity":{"forecast":1,"index":"low"}}"#,
        r#"{"from":1704067200,"to":"2024-01-01T00:30Z","intensity":{"forecast":1,"index":"low"},"generationmix":[]}"#,
        r#"{"from":"2024-01-01T00:00Z","to":null,"intensity":{"forecast":1,"index":"low"},"generationmix":[]}"#,
        r#"{"from":"2024-01-01T00:00Z","to":"2024-01-01T00:30Z","intensity":120,"generationmix":[]}"#,
        r#"{"from":"2024-01-01T00:00Z","to":"2024-01-01T00:30Z","intensity":{"index":"low"},"generationmix":[]}"#,
        r#"{"from":"2024-01-01T00:00Z","to":"2024-01-01T00:30Z","intensity":{"forecast":1},"generationmix":[]}"#,
        r#"{"from":"2024-01-01T00:00Z","to":"2024-01-01T00:30Z","intensity":{"forecast":1,"index":3},"generationmix":[]}"#,
        r#"{"from":"2024-01-01T00:00Z","to":"2024-01-01T00:30Z","intensity":{"forecast":"1","index":"low"},"generationmix":[]}"#,
        r#"{"from":"2024-01-01T00:00Z","to":"2024-01-01T00:30Z","intensity":{"forecast":1.5,"index":"low"},"generationmix":[]}"#,
        r#"{"from":"2024-01-01T00:00Z","to":"2024-01-01T00:30Z","intensity":{"forecast":120.0,"index":"low"},"generationmix":[]}"#,
        r#"{"from":"2024-01-01T00:00Z","to":"2024-01-01T00:30Z","intensity":{"forecast":9223372036854775808,"index":"low"},"generationmix":[]}"#,
        r#"{"from":"2024-01-01T00:00Z","to":"2024-01-01T00:30Z","intensity":{"forecast":null,"index":"low"},"generationmix":[]}"#,
        r#"{"from":"2024-01-01T00:00Z","to":"2024-01-01T00:30Z","intensity":{"forecast":1,"index":"low"},"generationmix":{}}"#,
        r#"{"from":"2024-01-01T00:00Z","to":"2024-01-01T00:30Z","intensity":{"forecast":1,"index":"low"},"generationmix":null}"#,
        r#"{"from":"2024-01-01T00:00Z","to":"2024-01-01T00:30Z","intensity":{"forecast":1,"index":"low"},"generationmix":[{"fuel":"gas"}]}"#,
        r#"{"from":"2024-01-01T00:00Z","to":"2024-01-01T00:30Z","intensity":{"forecast":1,"index":"low"},"generationmix":[{"perc":1.5}]}"#,
        r#"{"from":"2024-01-01T00:00Z","to":"2024-01-01T00:30Z","intensity":{"forecast":1,"index":"low"},"generationmix":[{"fuel":"gas","perc":"1.5"}]}"#,
        r#"{"from":"2024-01-01T00:00Z","to":"2024-01-01T00:30Z","intensity":{"forecast":1,"index":"low"},"generationmix":[{"fuel":5,"perc":1.5}]}"#,
        r#"{"from":"2024-01-01T00:00Z","to":"2024-01-01T00:30Z","intensity":{"forecast":1,"index":"low"},"generationmix":[{"fuel":"gas","perc":1.5},7]}"#,
    ] {
        let reply = body(&[good.clone(), bad.to_string()]);
        assert_eq!(client().fetch(&reply), Err(FetchError::Payload), "{}", bad);
        let reply = body(&[bad.to_string(), good.clone()]);
        assert_eq!(client().fetch(&reply), Err(FetchError::Payload), "{}", bad);
    }
}

#[test]
fn shape_is_checked_before_any_time_is_read() {
    let reply = body(&[
        entry("not-a-date", "2024-01-01T00:30Z", "1"),
        r#"{"from":"2024-01-01T00:00Z"}"#.to_string(),
    ]);
    assert_eq!(client().fetch(&reply), Err(FetchError::Payload));
}

#[test]
fn generation_mix_and_echo_fields_are_read_and_dropped() {
    let reply = Reply::Body(
        r#"
        {
          "data": {
            "regionid": 3,
            "dnoregion": "Electricity North West",
            "shortname": "North West England",
            "postcode": "RG10",
            "data": [
              {
                "from": "2024-01-01T00:00Z",
                "to": "2024-01-01T00:30Z",
                "intensity": { "forecast": 266, "index": "moderate" },
                "generationmix": [
                  { "fuel": "gas", "perc": 43.6 },
                  { "fuel": "coal", "perc": 0 },
                  { "fuel": "biomass", "perc": 4.2 },
                  { "fuel": "wind", "perc": 1e1 }
                ]
              },
              {
                "from": "2024-01-01T00:30Z",
                "to": "2024-01-01T01:00Z",
                "intensity": { "forecast": 270, "index": "high" },
                "generationmix": []
              }
            ]
          }
        }
        "#
        .to_string(),
    );
    assert_eq!(
        client().fetch(&reply),
        Ok(vec![
            record(1_704_067_200, 1_704_069_000, 266),
            record(1_704_069_000, 1_704_070_800, 270),
        ])
    );
}

#[test]
fn members_that_are_not_asked_for_are_passed_over() {
    let reply = Reply::Body(
        r#"{"meta":[1,{"a":null}],"data":{"regionid":3,"extra":{"deep":[true,false]},"dnoregion":"a","shortname":"b","postcode":"c","data":[{"note":"x","from":"2024-01-01T00:00Z","to":"2024-01-01T00:30Z","intensity":{"forecast":120,"index":"moderate","actual":119},"generationmix":[{"fuel":"gas","perc":43.6,"unit":"%"}]}]}}"#
            .to_string(),
    );
    assert_eq!(client().fetch(&reply), Ok(vec![record(1_704_067_200, 1_704_069_000, 120)]));
}

#[test]
fn strings_are_unescaped_before_they_are_read() {
    let reply = body(&[entry("2024-01-01T00:00\\u005A", "2024-01-01T00:30Z", "120")]);
    assert_eq!(client().fetch(&reply), Ok(vec![record(1_704_067_200, 1_704_069_000, 120)]));
}

#[test]
fn fetch_does_not_depend_on_the_client() {
    let reply = body(&[entry("2024-01-01T00:00Z", "2024-01-01T00:30Z", "120")]);
    let mut other = client();
    other.set_time(Timestamp::epoch());
    assert_eq!(client().fetch(&reply), other.fetch(&reply));
    assert_eq!(client().fetch(&reply), client().fetch(&reply));
}

#[test]
fn make_record_needs_both_ends() {
    let from = Timestamp::new(1_704_067_200, 0);
    let to = Timestamp::new(1_704_069_000, 0);
    assert_eq!(make_record(from, to, 120), Some(record(1_704_067_200, 1_704_069_000, 120)));
    assert_eq!(make_record(None, to, 120), None);
    assert_eq!(make_record(from, None, 120), None);
    assert_eq!(make_record(None, None, 120), None);
}

#[test]
fn map_entry_reads_both_times() {
    let raw = RawEntry {
        from: "2024-01-01T00:00Z".to_string(),
        to: "2024-01-01T00:30Z".to_string(),
        forecast: 120,
    };
    assert_eq!(map_entry(&raw), Some(record(1_704_067_200, 1_704_069_000, 120)));
    let bad = RawEntry { from: "not-a-date".to_string(), to: raw.to.clone(), forecast: 120 };
    assert_eq!(map_entry(&bad), None);
    let bad = RawEntry { from: raw.from.clone(), to: "2024-01-01".to_string(), forecast: 120 };
    assert_eq!(map_entry(&bad), None);
}

#[test]
fn map_entries_is_all_or_nothing() {
    let good = RawEntry {
        from: "2024-01-01T00:00Z".to_string(),
        to: "2024-01-01T00:30Z".to_string(),
        forecast: 1,
    };
    let later = RawEntry {
        from: "2024-01-01T00:30Z".to_string(),
        to: "2024-01-01T01:00Z".to_string(),
        forecast: 2,
    };
    let bad = RawEntry { from: "not-a-date".to_string(), to: good.to.clone(), forecast: 3 };
    assert_eq!(
        map_entries(&vec![later.clone(), good.clone()]),
        Some(vec![record(1_704_069_000, 1_704_070_800, 2), record(1_704_067_200, 1_704_069_000, 1)])
    );
    assert_eq!(map_entries(&vec![good.clone(), bad.clone(), later.clone()]), None);
    assert_eq!(map_entries(&vec![good, later, bad]), None);
    assert_eq!(map_entries(&vec![]), Some(vec![]));
}
