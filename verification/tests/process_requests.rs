use concord_client::api_client::{
    append_to_log_segment_request, check_response, create_log_segment_request, download_state_request,
    endpoint_url, get_process_request, require_temp_dir, start_process_request, update_log_segment_request,
    update_status_request, HttpMethod, ProcessAction, RequestBody, StateFileSearch,
};
use concord_client::model::{AgentId, LogSegmentId, ProcessId, ProcessStatus};

const PROCESS: u128 = 0x67e5_5044_10b1_426f_9247_bb68_0e5f_e0c8;
const AGENT: u128 = 0x0000_0000_0000_0000_0000_0000_0000_00ff;

#[test]
fn start_process_posts_a_form() {
    let plan = start_process_request();
    assert!(plan.method == HttpMethod::Post);
    assert!(plan.action == ProcessAction::StartProcess);
    assert_eq!(plan.path, "/api/v1/process");
    assert!(plan.query.is_empty());
    assert!(plan.content_type.is_none());
    assert!(matches!(plan.body, RequestBody::Multipart));
}

#[test]
fn get_and_download_paths_name_the_process() {
    let pid = ProcessId::new(PROCESS);
    let get = get_process_request(&pid);
    assert!(get.method == HttpMethod::Get);
    assert_eq!(get.path, "/api/v1/process/67e55044-10b1-426f-9247-bb680e5fe0c8");
    let download = download_state_request(&pid);
    assert!(download.method == HttpMethod::Get);
    assert_eq!(download.path, "/api/v1/process/67e55044-10b1-426f-9247-bb680e5fe0c8/state/snapshot");
    assert!(matches!(download.body, RequestBody::Empty));
}

#[test]
fn update_status_sends_the_status_name() {
    let plan = update_status_request(ProcessId::new(PROCESS), AgentId(AGENT), ProcessStatus::TimedOut);
    assert!(plan.method == HttpMethod::Post);
    assert_eq!(plan.path, "/api/v1/process/67e55044-10b1-426f-9247-bb680e5fe0c8/status");
    assert_eq!(plan.query.len(), 1);
    assert_eq!(plan.query[0].name, "agent_id");
    assert_eq!(plan.query[0].value, "00000000-0000-0000-0000-0000000000ff");
    assert_eq!(plan.content_type.as_deref(), Some("text/plain"));
    match plan.body {
        RequestBody::Text(t) => assert_eq!(t, "TIMED_OUT"),
        _ => panic!("the status goes as text"),
    }
}

#[test]
fn log_segment_paths() {
    let pid = ProcessId::new(PROCESS);
    let create = create_log_segment_request(&pid);
    assert_eq!(create.path, "/api/v2/process/67e55044-10b1-426f-9247-bb680e5fe0c8/log/segment");
    assert_eq!(create.content_type.as_deref(), Some("application/json"));
    assert!(matches!(create.body, RequestBody::Json));
    let update = update_log_segment_request(&pid, &LogSegmentId::new(12));
    assert_eq!(update.path, "/api/v2/process/67e55044-10b1-426f-9247-bb680e5fe0c8/log/segment/12");
    assert!(matches!(update.body, RequestBody::Json));
    let append = append_to_log_segment_request(&pid, &LogSegmentId::new(12));
    assert_eq!(append.path, "/api/v2/process/67e55044-10b1-426f-9247-bb680e5fe0c8/log/segment/12/data");
    assert_eq!(append.content_type.as_deref(), Some("application/octet-stream"));
    assert!(matches!(append.body, RequestBody::Bytes));
}

#[test]
fn endpoint_urls_resolve_against_the_base() {
    let plan = get_process_request(&ProcessId::new(PROCESS));
    assert_eq!(
        endpoint_url("http://concord.example:8001/", &plan).unwrap(),
        "http://concord.example:8001/api/v1/process/67e55044-10b1-426f-9247-bb680e5fe0c8"
    );
    let start = start_process_request();
    assert_eq!(endpoint_url("https://h/some/base", &start).unwrap(), "https://h/api/v1/process");
    assert!(endpoint_url("not a url", &start).is_none());
}

#[test]
fn responses_succeed_only_with_2xx() {
    assert!(check_response(ProcessAction::GetProcess, 200).is_ok());
    assert!(check_response(ProcessAction::GetProcess, 299).is_ok());
    assert_eq!(
        check_response(ProcessAction::GetProcess, 404).err().unwrap().message,
        "Failed to get process: 404 Not Found"
    );
    assert_eq!(
        check_response(ProcessAction::StartProcess, 500).err().unwrap().message,
        "Failed to start a process: 500 Internal Server Error"
    );
    assert_eq!(
        check_response(ProcessAction::DownloadState, 301).err().unwrap().message,
        "Failed to download process state: 301 Moved Permanently"
    );
    assert_eq!(
        check_response(ProcessAction::AppendToLogSegment, 199).err().unwrap().message,
        "Failed to update status: 199 <unknown status code>"
    );
    assert!(check_response(ProcessAction::UpdateStatus, 300).is_err());
}

#[test]
fn state_file_names_are_tried_in_turn() {
    let pid = ProcessId::new(PROCESS);
    let mut search = StateFileSearch::for_process(&pid);
    assert_eq!(search.candidate(), "67e55044-10b1-426f-9247-bb680e5fe0c8.zip");
    search.advance();
    assert_eq!(search.candidate(), "67e55044-10b1-426f-9247-bb680e5fe0c8-0.zip");
    search.advance();
    assert_eq!(search.candidate(), "67e55044-10b1-426f-9247-bb680e5fe0c8-1.zip");
    assert_eq!(search.attempt(), 2);
    let mut seen = std::collections::HashSet::new();
    let mut other = StateFileSearch::new("p", ".s");
    for _ in 0..200 {
        assert!(seen.insert(other.candidate()));
        other.advance();
    }
}

#[test]
fn the_temp_dir_must_be_set() {
    assert_eq!(require_temp_dir(Some(3)).ok(), Some(3));
    assert_eq!(
        require_temp_dir::<String>(None).err().unwrap().message,
        "config.temp_dir is not set"
    );
}

#[test]
fn the_search_stops_at_the_first_free_name() {
    let mut search = StateFileSearch::new("state", ".zip");
    assert!(search.step(true).is_none());
    assert!(search.step(true).is_none());
    assert_eq!(search.attempt(), 2);
    assert_eq!(search.step(false).unwrap(), "state-1.zip");
    assert_eq!(search.attempt(), 2);
    assert_eq!(search.step(false).unwrap(), "state-1.zip");
}
