use progress_query::registry::select;
use progress_query::registry::RegistryState;
use progress_query::request::GetProgressRequest;
use progress_query::request::progress_keys_of;
use progress_query::shared::FAILED_TO_ACQUIRE_LOCK;
use progress_query::shared::SharedRegistry;
use progress_query::shared::get_all_progresses_info;
use progress_query::shared::get_progresses_info;
use progress_query::stage::ErrorRecord;
use progress_query::stage::ErrorView;
use progress_query::stage::StageRecord;
use progress_query::stage::StageView;
use progress_query::stage::project_error;
use progress_query::stage::project_stage;
use progress_query::stage::project_stages;

fn stage(name: &str, index: usize, percent: f64, processing: bool) -> StageRecord {
    StageRecord {
        name: name.to_string(),
        index,
        percent_bits: percent.to_bits(),
        currently_processing: processing,
        errored: None,
    }
}

fn registry_ab() -> SharedRegistry {
    let mut state = RegistryState::new();
    state.insert("a".to_string(), vec![stage("one", 0, 10.0, true)]);
    state.insert("b".to_string(), vec![stage("two", 0, 90.0, false)]);
    SharedRegistry::new(state)
}

#[test]
fn request_absent_means_all() {
    let keys = progress_keys_of(None);
    assert!(keys.is_empty());
}

#[test]
fn request_single_only() {
    let req = GetProgressRequest { single: Some("job1".to_string()), list: None };
    let keys = progress_keys_of(Some(req));
    assert_eq!(keys, vec!["job1".to_string()]);
}

#[test]
fn request_list_only() {
    let req = GetProgressRequest {
        single: None,
        list: Some(vec!["a".to_string(), "b".to_string()]),
    };
    let keys = progress_keys_of(Some(req));
    assert_eq!(keys, vec!["a".to_string(), "b".to_string()]);
}

#[test]
fn request_list_then_single() {
    let req = GetProgressRequest {
        single: Some("c".to_string()),
        list: Some(vec!["a".to_string(), "b".to_string()]),
    };
    let keys = progress_keys_of(Some(req));
    assert_eq!(keys, vec!["a".to_string(), "b".to_string(), "c".to_string()]);
}

#[test]
fn error_projection_round_trip() {
    let record = ErrorRecord {
        name: "stage1".to_string(),
        progress_index: 2,
        error_string: "boom".to_string(),
    };
    let view = project_error(&record);
    assert_eq!(
        view,
        ErrorView {
            name: "stage1".to_string(),
            progress_index: 2,
            error_string: "boom".to_string(),
        }
    );

    let mut record_with_error = stage("stage1", 2, 75.5, false);
    record_with_error.errored = Some(record);
    let stage_view = project_stage(&record_with_error);
    let errored = stage_view.errored.expect("projection must keep the error");
    assert_eq!(errored.name, "stage1");
    assert_eq!(errored.progress_index, 2);
    assert_eq!(errored.error_string, "boom");
}

#[test]
fn stage_projection_copies_all_fields() {
    let record = stage("download", 0, 50.0, true);
    let view = project_stage(&record);
    assert_eq!(view.name, "download");
    assert_eq!(view.index, 0);
    assert_eq!(f64::from_bits(view.percent_bits), 50.0);
    assert!(view.currently_processing);
    assert!(view.errored.is_none());
}

#[test]
fn stages_projection_keeps_order() {
    let records = vec![stage("first", 0, 100.0, false), stage("second", 1, 25.0, true)];
    let views: Vec<StageView> = project_stages(&records);
    assert_eq!(views.len(), 2);
    assert_eq!(views[0].name, "first");
    assert_eq!(views[1].name, "second");
    assert_eq!(views[1].index, 1);
}

#[test]
fn single_key_scenario() {
    let mut state = RegistryState::new();
    state.insert("job1".to_string(), vec![stage("download", 0, 50.0, true)]);
    let shared = SharedRegistry::new(state);

    let req = GetProgressRequest { single: Some("job1".to_string()), list: None };
    let keys = progress_keys_of(Some(req));
    let result = get_progresses_info(keys, &shared).expect("lock is healthy");

    assert_eq!(result.len(), 1);
    let views = result.get(&"job1".to_string()).expect("job1 was requested and tracked");
    assert_eq!(views.len(), 1);
    assert_eq!(views[0].name, "download");
    assert_eq!(views[0].index, 0);
    assert_eq!(f64::from_bits(views[0].percent_bits), 50.0);
    assert!(views[0].currently_processing);
    assert!(views[0].errored.is_none());
}

#[test]
fn absent_request_returns_all_jobs() {
    let shared = registry_ab();
    let keys = progress_keys_of(None);
    let result = get_progresses_info(keys, &shared).expect("lock is healthy");

    assert_eq!(result.len(), 2);
    let a = result.get(&"a".to_string()).expect("a is tracked");
    assert_eq!(a.len(), 1);
    assert_eq!(a[0].name, "one");
    let b = result.get(&"b".to_string()).expect("b is tracked");
    assert_eq!(b.len(), 1);
    assert_eq!(b[0].name, "two");
    assert_eq!(f64::from_bits(b[0].percent_bits), 90.0);
}

#[test]
fn get_all_returns_all_jobs() {
    let shared = registry_ab();
    let result = get_all_progresses_info(&shared).expect("lock is healthy");
    assert_eq!(result.len(), 2);
    assert!(result.get(&"a".to_string()).is_some());
    assert!(result.get(&"b".to_string()).is_some());
}

#[test]
fn absent_keys_yield_empty_mapping_not_error() {
    let shared = registry_ab();
    let result = get_progresses_info(vec!["nope".to_string()], &shared)
        .expect("a missing key is not an error");
    assert_eq!(result.len(), 0);
    assert!(result.get(&"nope".to_string()).is_none());
}

#[test]
fn unknown_keys_are_skipped_known_ones_answered() {
    let shared = registry_ab();
    let result =
        get_progresses_info(vec!["a".to_string(), "zzz".to_string()], &shared).expect("healthy");
    assert_eq!(result.len(), 1);
    assert!(result.get(&"a".to_string()).is_some());
    assert!(result.get(&"zzz".to_string()).is_none());
}

#[test]
fn duplicate_keys_yield_one_entry() {
    let shared = registry_ab();
    let result =
        get_progresses_info(vec!["a".to_string(), "a".to_string()], &shared).expect("healthy");
    assert_eq!(result.len(), 1);
    let a = result.get(&"a".to_string()).expect("a is tracked");
    assert_eq!(a.len(), 1);
    assert_eq!(a[0].name, "one");
}

#[test]
fn repeated_queries_are_identical() {
    let shared = registry_ab();
    let first = get_progresses_info(vec!["a".to_string(), "b".to_string()], &shared)
        .expect("healthy");
    let second = get_progresses_info(vec!["a".to_string(), "b".to_string()], &shared)
        .expect("healthy");
    assert_eq!(first.entries(), second.entries());
}

#[test]
fn registry_state_insert_and_get() {
    let mut state = RegistryState::new();
    assert_eq!(state.len(), 0);
    state.insert("k".to_string(), vec![stage("s", 0, 0.0, false)]);
    assert_eq!(state.len(), 1);
    let found = state.get(&"k".to_string()).expect("k was inserted");
    assert_eq!(found.len(), 1);
    assert_eq!(found[0].name, "s");
    assert!(state.get(&"missing".to_string()).is_none());

    // A duplicate key leaves the state unchanged.
    state.insert("k".to_string(), vec![]);
    assert_eq!(state.len(), 1);
    assert_eq!(state.get(&"k".to_string()).expect("still tracked").len(), 1);
}

#[test]
fn select_on_a_plain_state() {
    let mut state = RegistryState::new();
    state.insert("a".to_string(), vec![stage("one", 0, 10.0, true)]);
    state.insert("b".to_string(), vec![stage("two", 0, 90.0, false)]);

    let keyed = select(&vec!["b".to_string()], &state);
    assert_eq!(keyed.len(), 1);
    assert_eq!(keyed.get(&"b".to_string()).expect("b is tracked")[0].name, "two");
    assert!(keyed.get(&"a".to_string()).is_none());

    let all = select(&Vec::new(), &state);
    assert_eq!(all.len(), 2);
    assert!(all.get(&"a".to_string()).is_some());
    assert!(all.get(&"b".to_string()).is_some());
}

#[test]
fn lock_failure_message_text() {
    assert_eq!(FAILED_TO_ACQUIRE_LOCK, "Failed to acquire lock");
}
