use bulk_indexer::command::BulkRequestError;
use bulk_indexer::handler::first_failure;
use bulk_indexer::handler::spawn_wanted;
use bulk_indexer::request::plan_refresh;
use bulk_indexer::request::ElasticsearchBulkRequest;
use bulk_indexer::request::RefreshAction;
use bulk_indexer::response::bulk_url;
use bulk_indexer::response::failure_message;
use bulk_indexer::response::interpret_response;
use bulk_indexer::response::judge_response;
use bulk_indexer::response::response_errors;
use bulk_indexer::response::transport_failure;
use bulk_indexer::tally::count_documents;
use bulk_indexer::worker::inline_refresh;
use bulk_indexer::worker::RefreshInterval;

#[test]
fn answer_without_errors_is_success() {
    assert_eq!(interpret_response(200, "{\"errors\":false}"), Ok(()));
    assert_eq!(interpret_response(200, "{\"errors\":false,\"items\":[]}"), Ok(()));
}

#[test]
fn answer_with_errors_is_an_indexing_error() {
    let body = "{\"errors\":true,\"items\":[{\"index\":{\"error\":{\"caused_by\":{\"reason\":\"bad\"}}}}]}";
    assert_eq!(
        interpret_response(200, body),
        Err(BulkRequestError::IndexingError(format!("code=Some(200), {}", body)))
    );
}

#[test]
fn answer_that_is_no_json_is_an_indexing_error() {
    assert_eq!(
        interpret_response(502, "<html>"),
        Err(BulkRequestError::IndexingError("code=Some(502), <html>".to_string()))
    );
}

#[test]
fn answer_without_the_flag_is_an_indexing_error() {
    assert!(matches!(
        interpret_response(200, "{\"items\":[]}"),
        Err(BulkRequestError::IndexingError(_))
    ));
    assert!(matches!(
        interpret_response(200, "{\"errors\":\"false\"}"),
        Err(BulkRequestError::IndexingError(_))
    ));
    assert!(matches!(interpret_response(200, "[false]"), Err(BulkRequestError::IndexingError(_))));
}

#[test]
fn errors_member_is_read_from_the_top_level() {
    assert_eq!(response_errors("{\"errors\":true}"), Some(true));
    assert_eq!(response_errors("{\"errors\":false}"), Some(false));
    assert_eq!(response_errors("{\"a\":{\"errors\":false}}"), None);
    assert_eq!(response_errors("not json"), None);
}

#[test]
fn verdict_follows_the_flag_alone() {
    assert_eq!(judge_response(200, Some(false), "anything"), Ok(()));
    assert_eq!(
        judge_response(201, Some(true), "b"),
        Err(BulkRequestError::IndexingError("code=Some(201), b".to_string()))
    );
    assert_eq!(
        judge_response(0, None, ""),
        Err(BulkRequestError::IndexingError("code=Some(0), ".to_string()))
    );
}

#[test]
fn diagnostics_show_status_and_message() {
    assert_eq!(failure_message(None, "refused"), "code=None, refused");
    assert_eq!(failure_message(Some(65535), "x"), "code=Some(65535), x");
    assert_eq!(failure_message(Some(404), ""), "code=Some(404), ");
    assert_eq!(
        transport_failure(Some(503), "busy"),
        BulkRequestError::TransportError("code=Some(503), busy".to_string())
    );
}

#[test]
fn bulk_address_names_the_filter() {
    assert_eq!(
        bulk_url("http://localhost:9200/idx", false),
        "http://localhost:9200/idx/_bulk?filter_path=errors,items.index.error.caused_by.reason"
    );
    assert_eq!(
        bulk_url("http://h/i", true),
        "http://h/i/_bulk?filter_path=errors,items.index.error.caused_by.reason&refresh=true"
    );
}

#[test]
fn first_command_always_gets_a_worker() {
    assert!(spawn_wanted(0, 1, 0));
    assert!(spawn_wanted(0, 0, 0));
    assert!(spawn_wanted(0, 8, 10_000));
}

#[test]
fn later_workers_need_backlog_and_room() {
    assert!(!spawn_wanted(1, 4, 2500));
    assert!(spawn_wanted(1, 4, 2501));
    assert!(spawn_wanted(3, 4, 2501));
    assert!(!spawn_wanted(4, 4, 10_000));
    assert!(!spawn_wanted(1, 1, 10_000));
    assert!(!spawn_wanted(2, 3, 3333));
    assert!(spawn_wanted(2, 3, 3334));
}

#[test]
fn inline_refresh_needs_a_lone_first_call() {
    assert!(inline_refresh(true, RefreshInterval::Immediate, 1, 0));
    assert!(!inline_refresh(false, RefreshInterval::Immediate, 1, 0));
    assert!(!inline_refresh(true, RefreshInterval::ImmediateAsync, 1, 0));
    assert!(!inline_refresh(true, RefreshInterval::Background, 1, 0));
    assert!(!inline_refresh(true, RefreshInterval::Immediate, 2, 0));
    assert!(!inline_refresh(true, RefreshInterval::Immediate, 1, 1));
}

#[test]
fn immediate_policy_refreshes_once_unless_one_call_succeeded() {
    assert_eq!(plan_refresh(RefreshInterval::Immediate, 0, false), RefreshAction::Synchronous);
    assert_eq!(plan_refresh(RefreshInterval::Immediate, 1, false), RefreshAction::Skip);
    assert_eq!(plan_refresh(RefreshInterval::Immediate, 1, true), RefreshAction::Synchronous);
    assert_eq!(plan_refresh(RefreshInterval::Immediate, 2, false), RefreshAction::Synchronous);
    assert_eq!(plan_refresh(RefreshInterval::Immediate, 5, true), RefreshAction::Synchronous);
}

#[test]
fn other_policies_never_wait_for_a_refresh() {
    assert_eq!(plan_refresh(RefreshInterval::ImmediateAsync, 2, false), RefreshAction::Detached);
    assert_eq!(plan_refresh(RefreshInterval::ImmediateAsync, 1, false), RefreshAction::Skip);
    assert_eq!(plan_refresh(RefreshInterval::ImmediateAsync, 1, true), RefreshAction::Detached);
    assert_eq!(plan_refresh(RefreshInterval::Background, 2, true), RefreshAction::Skip);
    assert_eq!(plan_refresh(RefreshInterval::Background, 0, false), RefreshAction::Skip);
}

#[test]
fn refresh_failure_is_a_refresh_error() {
    assert_eq!(ElasticsearchBulkRequest::refresh_index(Ok(())), Ok(()));
    assert_eq!(
        ElasticsearchBulkRequest::refresh_index(Err("down".to_string())),
        Err(BulkRequestError::RefreshError("down".to_string()))
    );
}

#[test]
fn reported_error_comes_before_the_flag() {
    assert_eq!(first_failure(None, false), Ok(()));
    assert_eq!(first_failure(Some(BulkRequestError::NoError), false), Ok(()));
    assert_eq!(first_failure(None, true), Err(BulkRequestError::Interrupted));
    assert_eq!(
        first_failure(Some(BulkRequestError::NoError), true),
        Err(BulkRequestError::Interrupted)
    );
    assert_eq!(
        first_failure(Some(BulkRequestError::IndexingError("e".to_string())), true),
        Err(BulkRequestError::IndexingError("e".to_string()))
    );
    assert_eq!(
        first_failure(Some(BulkRequestError::QueueClosed), false),
        Err(BulkRequestError::QueueClosed)
    );
}

#[test]
fn joined_counts_are_summed() {
    assert_eq!(count_documents(Vec::new()), Ok(0));
    assert_eq!(count_documents(vec![Ok(3), Ok(0), Ok(10_000)]), Ok(10_003));
    assert_eq!(count_documents(vec![Ok(usize::MAX), Ok(1)]), Ok(usize::MAX));
}

#[test]
fn first_panic_ends_the_sum() {
    assert_eq!(
        count_documents(vec![Ok(3), Err("boom".to_string()), Ok(1), Err("later".to_string())]),
        Err("boom".to_string())
    );
}
