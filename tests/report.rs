use sherlock::get_data::{check_data_response, data_source, DataError, DataSource};
use sherlock::output::{
    claimed_urls, count_claimed, csv_file_path, output_file_path, report_includes, result_message, SaveOptions,
};
use sherlock::query::{QueryResult, QueryStatus};
use sherlock::site_info::SiteInfo;
use sherlock::sherlock_target_manifest::{ErrorType, TargetInfo};
use std::sync::Arc;
use std::time::Duration;

fn result(site: &str, status: QueryStatus, context: Option<&str>) -> QueryResult {
    QueryResult {
        username: "bob".to_string(),
        site_name: site.to_string(),
        info: Arc::new(TargetInfo {
            url: "https://example.com/{}".to_string(),
            url_main: "https://example.com".to_string(),
            url_probe: None,
            username_claimed: "blue".to_string(),
            regex_check: None,
            is_nsfw: None,
            headers: None,
            request_payload: None,
            __comment__: None,
            tags: None,
            request_method: None,
            error_type: ErrorType::StatusCode { codes: None },
        }),
        site_url_user: format!("https://{site}.com/bob"),
        status,
        http_status: Some(200),
        query_time: Duration::from_millis(5),
        context: context.map(|c| c.to_string()),
    }
}

fn save_options(output_file: Option<&str>, output_folder: Option<&str>) -> SaveOptions {
    SaveOptions {
        output_file: output_file.map(|s| s.to_string()),
        output_folder: output_folder.map(|s| s.to_string()),
        csv: false,
        xlsx: false,
        print_all: false,
        print_found: true,
    }
}

#[test]
fn claimed_results_are_counted_and_listed() {
    let rs = vec![
        result("a", QueryStatus::Claimed, None),
        result("b", QueryStatus::Available, None),
        result("c", QueryStatus::Claimed, None),
        result("d", QueryStatus::Waf, None),
    ];
    assert_eq!(count_claimed(&rs), 2);
    assert_eq!(claimed_urls(&rs), vec!["https://a.com/bob", "https://c.com/bob"]);
    assert_eq!(count_claimed(&[]), 0);
}

#[test]
fn report_paths() {
    assert_eq!(output_file_path("bob", &save_options(Some("out.txt"), Some("dir"))), "out.txt");
    assert_eq!(output_file_path("bob", &save_options(None, Some("dir"))), "dir/bob.txt");
    assert_eq!(output_file_path("bob", &save_options(None, None)), "bob.txt");
    assert_eq!(csv_file_path("bob", &Some("dir".to_string())), "dir/bob.csv");
    assert_eq!(csv_file_path("bob", &None), "bob.csv");
}

#[test]
fn report_row_filter() {
    assert!(report_includes(false, true, QueryStatus::Claimed));
    assert!(!report_includes(false, true, QueryStatus::Available));
    assert!(report_includes(true, true, QueryStatus::Available));
    assert!(report_includes(false, false, QueryStatus::Unknown));
}

#[test]
fn messages_per_verdict() {
    assert_eq!(result_message(&result("a", QueryStatus::Claimed, None)), "https://a.com/bob");
    assert_eq!(result_message(&result("a", QueryStatus::Available, None)), "Not Found!");
    assert_eq!(result_message(&result("a", QueryStatus::Unknown, None)), "no context");
    assert_eq!(result_message(&result("a", QueryStatus::Unknown, Some("Request error"))), "Request error");
    assert_eq!(
        result_message(&result("a", QueryStatus::Illegal, None)),
        "Illegal Username Foramt For This Site!"
    );
    assert_eq!(result_message(&result("a", QueryStatus::Waf, None)), "Blocked by bot detection");
}

#[test]
fn manifest_reference_kinds() {
    assert_eq!(data_source("HTTPS://host/DATA.JSON"), Ok(DataSource::Remote));
    assert_eq!(data_source("resources/data.json"), Ok(DataSource::Local));
    assert_eq!(data_source("data.yaml"), Err(DataError::IncorrectExtension));
    assert_eq!(data_source(""), Err(DataError::IncorrectExtension));
    assert_eq!(check_data_response(200), Ok(()));
    assert_eq!(check_data_response(404), Err(DataError::BadResponse));
}

#[test]
fn site_info_description() {
    let s = SiteInfo::new(
        "GitHub".to_string(),
        "https://github.com".to_string(),
        "https://github.com/{}".to_string(),
        "blue".to_string(),
        "noonewouldeverusethis7".to_string(),
        vec![],
        false,
    );
    assert_eq!(s.describe(), "GitHub (https://github.com)");
}
