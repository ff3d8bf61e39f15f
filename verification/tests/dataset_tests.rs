use codec_bench::dataset::generate_record;
use codec_bench::generate_data;
use codec_bench::get_scores;
use codec_bench::gzip_test_fast;
use codec_bench::mean_data_size;
use codec_bench::run_test;
use codec_bench::ScoreError;

fn check_record(record: &Vec<u8>) {
    let value: serde_json::Value = serde_json::from_slice(record).unwrap();
    let object = value.as_object().unwrap();
    assert_eq!(object.len(), 6);
    for name in ["firstname", "lastname", "email", "phone_number", "username", "password"] {
        assert!(object.get(name).unwrap().is_string());
    }
    let password = object.get("password").unwrap().as_str().unwrap();
    let length = password.chars().count();
    assert!(8 <= length && length < 16);
    assert_eq!(record[0], b'{');
    assert_eq!(&record[..14], b"{\"firstname\":\"");
    assert_eq!(record[record.len() - 1], b'}');
}

#[test]
fn generate_record_gives_a_json_object() {
    for _ in 0..100 {
        check_record(&generate_record().unwrap());
    }
}

#[test]
fn generate_data_gives_as_many_records_as_asked() {
    for n in [1u16, 2, 10, 257] {
        let data = generate_data(n).unwrap();
        assert_eq!(data.len(), n as usize);
        for record in &data {
            check_record(record);
        }
    }
}

#[test]
fn generate_data_of_ten_thousand() {
    let data = generate_data(10_000).unwrap();
    assert_eq!(data.len(), 10_000);
    check_record(&data[0]);
    check_record(&data[9_999]);
}

#[test]
fn generate_data_of_none_is_an_empty_dataset() {
    assert_eq!(generate_data(0), Ok(Vec::new()));
}

#[test]
fn an_empty_dataset_has_no_scores() {
    let data = generate_data(0).unwrap();
    assert_eq!(mean_data_size(data.clone()), Err(ScoreError::EmptySet));
    let runs = run_test(gzip_test_fast, data).unwrap();
    assert!(runs.is_empty());
    assert_eq!(get_scores(runs), Err(ScoreError::EmptySet));
}

#[test]
fn generate_data_records_differ() {
    let mut data = generate_data(50).unwrap();
    data.sort();
    data.dedup();
    assert!(data.len() > 1);
}

#[test]
fn generated_records_run_through_the_whole_pipeline() {
    let data = generate_data(200).unwrap();
    let size = mean_data_size(data.clone()).unwrap();
    assert!(size > 100_000_000);
    assert!(size < 400_000_000);
    let runs = run_test(gzip_test_fast, data.clone()).unwrap();
    assert_eq!(runs.len(), data.len());
    let (mean_ratio, _) = get_scores(runs).unwrap();
    assert!(mean_ratio > 0);
    assert!(mean_ratio < 2_000_000);
}
