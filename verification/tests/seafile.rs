use searpc::document::{decode_list, decode_optional, optional, required, FromDocument};
use searpc::typed::{
    call_flag, call_optional, call_optional_value, call_record, call_records,
};
use searpc::{
    CloneTask, JsonValue, Repo, SeafileRpc, SearpcClient, SearpcError, SyncTask, TransferTask,
};

type Reply = Result<Vec<u8>, SearpcError>;

fn daemon(expected_req: &'static str, response: &'static str) -> impl FnMut(&[u8]) -> Reply {
    move |req: &[u8]| -> Reply {
        assert_eq!(std::str::from_utf8(req).unwrap(), expected_req);
        Ok(response.as_bytes().to_vec())
    }
}

fn doc(text: &str) -> JsonValue {
    JsonValue::parse(text).unwrap()
}

#[test]
fn repo_is_read_from_its_object() {
    let repo =
        Repo::from_document(&doc(r#"{"id":"r1","name":"Docs","worktree":"/home/docs","x":1}"#))
            .unwrap();
    assert_eq!(repo.id, "r1");
    assert_eq!(repo.name, "Docs");
    assert_eq!(repo.worktree, "/home/docs");
    assert!(!repo.auto_sync);
    let repo =
        Repo::from_document(&doc(r#"{"id":"r1","name":"n","worktree":"w","auto_sync":true}"#))
            .unwrap();
    assert!(repo.auto_sync);
}

#[test]
fn repo_needs_its_required_fields() {
    for text in [
        r#"{"name":"n","worktree":"w"}"#,
        r#"{"id":"r","worktree":"w"}"#,
        r#"{"id":"r","name":"n"}"#,
        r#"{"id":1,"name":"n","worktree":"w"}"#,
        r#"{"id":null,"name":"n","worktree":"w"}"#,
        r#"{"id":"r","name":"n","worktree":"w","auto_sync":1}"#,
        r#"null"#,
        r#"["r","n","w"]"#,
        r#""r""#,
    ] {
        assert!(matches!(Repo::from_document(&doc(text)), Err(SearpcError::TypeError(_))), "{}", text);
    }
}

#[test]
fn tasks_default_their_fields() {
    let task = CloneTask::from_document(&doc("{}")).unwrap();
    assert_eq!((task.repo_id.as_str(), task.repo_name.as_str(), task.state.as_str(), task.error), ("", "", "", 0));
    let task = CloneTask::from_document(&doc(
        r#"{"repo_id":"r","repo_name":"n","state":"fetch","error":3}"#,
    ))
    .unwrap();
    assert_eq!((task.repo_id.as_str(), task.repo_name.as_str(), task.state.as_str(), task.error), ("r", "n", "fetch", 3));
    let task = SyncTask::from_document(&doc(r#"{"state":"error","error":-1}"#)).unwrap();
    assert_eq!((task.repo_id.as_str(), task.state.as_str(), task.error), ("", "error", -1));
    assert!(SyncTask::from_document(&doc(r#"{"error":2147483648}"#)).is_err());
    assert!(CloneTask::from_document(&doc("null")).is_err());
}

#[test]
fn transfer_task_keeps_its_counters() {
    let task = TransferTask::from_document(&doc(
        r#"{"repo_id":"r","block_done":5000000000,"block_total":6000000000,"rate":1024}"#,
    ))
    .unwrap();
    assert_eq!(task.repo_id, "r");
    assert_eq!(task.block_done, 5_000_000_000);
    assert_eq!(task.block_total, 6_000_000_000);
    assert_eq!(task.rate, 1024);
    assert_eq!(task.rt_state, "");
    assert_eq!(task.fs_objects_done, 0);
    assert_eq!(task.fs_objects_total, 0);
    assert!(TransferTask::from_document(&doc(r#"{"repo_id":"r","block_done":1}"#)).is_err());
    assert!(TransferTask::from_document(&doc(
        r#"{"repo_id":"r","block_done":1.5,"block_total":2,"rate":3}"#
    ))
    .is_err());
}

#[test]
fn fields_and_lists_are_read_generically() {
    let object = doc(r#"{"n": 7, "s": "x", "b": true}"#);
    assert_eq!(required::<i32>(&object, "n").unwrap(), 7);
    assert_eq!(required::<i64>(&object, "n").unwrap(), 7);
    assert_eq!(required::<String>(&object, "s").unwrap(), "x");
    assert!(required::<bool>(&object, "b").unwrap());
    assert!(required::<i32>(&object, "missing").is_err());
    assert_eq!(optional::<i32>(&object, "missing", 9).unwrap(), 9);
    assert!(optional::<i32>(&object, "s", 9).is_err());

    let items = vec![doc("1"), doc("2"), doc("3")];
    assert_eq!(decode_list::<i32>(&items).unwrap(), vec![1, 2, 3]);
    let items = vec![doc("1"), doc(r#""two""#)];
    assert!(matches!(decode_list::<i32>(&items), Err(SearpcError::TypeError(_))));
    assert!(decode_list::<String>(&vec![]).unwrap().is_empty());

    assert_eq!(decode_optional::<String>(&doc("null")).unwrap(), None);
    assert_eq!(decode_optional::<String>(&doc(r#""v""#)).unwrap(), Some("v".to_string()));
    assert!(decode_optional::<String>(&doc("5")).is_err());
}

#[test]
fn repo_list_call() {
    let mut client = SearpcClient::new(daemon(
        r#"["seafile_get_repo_list",-1,-1]"#,
        r#"{"ret": [{"id":"a","name":"A","worktree":"/a","auto_sync":true},{"id":"b","name":"B","worktree":"/b"}]}"#,
    ));
    let repos = client.get_repo_list(-1, -1).unwrap();
    assert_eq!(repos.len(), 2);
    assert_eq!(repos[0].name, "A");
    assert!(repos[0].auto_sync);
    assert_eq!(repos[1].worktree, "/b");

    let mut client =
        SearpcClient::new(daemon(r#"["seafile_get_repo_list",0,10]"#, r#"{"ret": null}"#));
    assert!(client.get_repo_list(0, 10).unwrap().is_empty());
    let mut client =
        SearpcClient::new(daemon(r#"["seafile_get_repo_list",0,10]"#, r#"{"ret": [{"id":"a"}]}"#));
    assert!(matches!(client.get_repo_list(0, 10), Err(SearpcError::TypeError(_))));
}

#[test]
fn optional_task_is_absent_for_null() {
    let mut client =
        SearpcClient::new(daemon(r#"["seafile_get_repo_sync_task","r1"]"#, r#"{"ret": null}"#));
    assert!(client.get_repo_sync_task("r1").unwrap().is_none());
    let mut client = SearpcClient::new(daemon(
        r#"["seafile_get_repo_sync_task","r1"]"#,
        r#"{"ret": {"repo_id":"r1","state":"uploading","error":0}}"#,
    ));
    let task = client.get_repo_sync_task("r1").unwrap().unwrap();
    assert_eq!(task.state, "uploading");
    let mut client =
        SearpcClient::new(daemon(r#"["seafile_get_repo_sync_task","r1"]"#, r#"{"ret": 5}"#));
    assert!(matches!(client.get_repo_sync_task("r1"), Err(SearpcError::TypeError(_))));
}

#[test]
fn plain_methods_use_their_wire_names() {
    let mut client = SearpcClient::new(daemon(r#"["seafile_get_clone_tasks"]"#, r#"{"ret": []}"#));
    assert!(client.get_clone_tasks().unwrap().is_empty());
    let mut client = SearpcClient::new(daemon(
        r#"["seafile_find_transfer_task","r"]"#,
        r#"{"ret": {"repo_id":"r","block_done":1,"block_total":2,"rate":3}}"#,
    ));
    assert_eq!(client.find_transfer_task("r").unwrap().block_total, 2);
    let mut client =
        SearpcClient::new(daemon(r#"["seafile_is_auto_sync_enabled"]"#, r#"{"ret": 1}"#));
    assert!(client.is_auto_sync_enabled().unwrap());
    let mut client =
        SearpcClient::new(daemon(r#"["seafile_is_auto_sync_enabled"]"#, r#"{"ret": 0}"#));
    assert!(!client.is_auto_sync_enabled().unwrap());
    let mut client = SearpcClient::new(daemon(
        r#"["seafile_sync_error_id_to_str",3]"#,
        r#"{"ret": "Network error"}"#,
    ));
    assert_eq!(client.sync_error_id_to_str(3).unwrap(), "Network error");
    let mut client =
        SearpcClient::new(daemon(r#"["seafile_get_config","k"]"#, r#"{"ret": "v"}"#));
    assert_eq!(client.get_config("k").unwrap(), "v");
    let mut client =
        SearpcClient::new(daemon(r#"["seafile_set_config","k","v"]"#, r#"{"ret": 0}"#));
    assert_eq!(client.set_config("k", "v").unwrap(), 0);
    let mut client =
        SearpcClient::new(daemon(r#"["seafile_set_config_int","k",5]"#, r#"{"ret": 0}"#));
    assert_eq!(client.set_config_int("k", 5).unwrap(), 0);
    let mut client =
        SearpcClient::new(daemon(r#"["seafile_destroy_repo","r"]"#, r#"{"ret": 0}"#));
    assert_eq!(client.remove_repo("r").unwrap(), 0);
    let mut client = SearpcClient::new(daemon(r#"["seafile_shutdown"]"#, r#"{"ret": 0}"#));
    assert_eq!(client.shutdown().unwrap(), 0);
}

#[test]
fn absent_arguments_travel_as_null() {
    let request = r#"["seafile_download","id",1,"name","/tree","tok",null,null,"me@example.org",null,2,"{}"]"#;
    let mut client = SearpcClient::new(daemon(request, r#"{"ret": null}"#));
    let result = client
        .download("id", 1, "name", "/tree", "tok", None, None, "me@example.org", None, 2, "{}")
        .unwrap();
    assert_eq!(result, None);

    let request = r#"["seafile_clone","id",1,"name","/tree","tok","pw","magic","me@example.org","key",2,"{}"]"#;
    let mut client = SearpcClient::new(daemon(request, r#"{"ret": "task"}"#));
    let result = SeafileRpc::clone(
        &mut client,
        "id",
        1,
        "name",
        "/tree",
        "tok",
        Some("pw"),
        Some("magic"),
        "me@example.org",
        Some("key"),
        2,
        "{}",
    );
    assert_eq!(result.unwrap().as_deref(), Some("task"));

    let mut client = SearpcClient::new(daemon(request, r#"{"ret": {"task": 1}}"#));
    let result = SeafileRpc::clone(
        &mut client,
        "id",
        1,
        "name",
        "/tree",
        "tok",
        Some("pw"),
        Some("magic"),
        "me@example.org",
        Some("key"),
        2,
        "{}",
    );
    assert!(matches!(result, Err(SearpcError::TypeError(_))));
}

#[test]
fn optional_values_are_present_unless_null() {
    let mut client = SearpcClient::new(daemon(r#"["f"]"#, r#"{"ret": "text"}"#));
    let text: Option<String> = call_optional_value(&mut client, "f", vec![]).unwrap();
    assert_eq!(text.as_deref(), Some("text"));
    let mut client = SearpcClient::new(daemon(r#"["f"]"#, r#"{"ret": 12}"#));
    let number: Option<i32> = call_optional_value(&mut client, "f", vec![]).unwrap();
    assert_eq!(number, Some(12));
    let mut client = SearpcClient::new(daemon(r#"["f"]"#, r#"{"ret": null}"#));
    let number: Option<i64> = call_optional_value(&mut client, "f", vec![]).unwrap();
    assert_eq!(number, None);
    let mut client = SearpcClient::new(daemon(r#"["f"]"#, r#"{}"#));
    let text: Option<String> = call_optional_value(&mut client, "f", vec![]).unwrap();
    assert_eq!(text, None);
    let mut client = SearpcClient::new(daemon(r#"["f"]"#, r#"{"ret": 12}"#));
    let text: Result<Option<String>, SearpcError> = call_optional_value(&mut client, "f", vec![]);
    assert!(matches!(text, Err(SearpcError::TypeError(_))));
    let mut client = SearpcClient::new(daemon(r#"["f"]"#, r#"{"ret": {"state": "s"}}"#));
    let task: Option<SyncTask> = call_optional(&mut client, "f", vec![]).unwrap();
    assert_eq!(task.map(|t| t.state).as_deref(), Some("s"));
    let mut client = SearpcClient::new(daemon(r#"["f"]"#, r#"{"ret": null}"#));
    let task: Option<SyncTask> = call_optional(&mut client, "f", vec![]).unwrap();
    assert!(task.is_none());
}

#[test]
fn typed_calls_read_the_reply() {
    let mut client = SearpcClient::new(daemon(r#"["f"]"#, r#"{"ret": 3}"#));
    assert!(call_flag(&mut client, "f", vec![]).unwrap());
    let mut client = SearpcClient::new(daemon(r#"["f"]"#, r#"{"ret": [{"state":"s"}]}"#));
    let tasks: Vec<SyncTask> = call_records(&mut client, "f", vec![]).unwrap();
    assert_eq!(tasks[0].state, "s");
    let mut client = SearpcClient::new(daemon(r#"["f"]"#, r#"{"ret": {"state":"s"}}"#));
    let task: Option<SyncTask> = call_optional(&mut client, "f", vec![]).unwrap();
    assert_eq!(task.unwrap().state, "s");
    let mut client = SearpcClient::new(daemon(r#"["f"]"#, r#"{"ret": null}"#));
    let task: Result<SyncTask, SearpcError> = call_record(&mut client, "f", vec![]);
    assert!(matches!(task, Err(SearpcError::TypeError(_))));
}
