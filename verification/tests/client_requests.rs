//! The compute client core: credential validation, status classification,
//! URL building and the request each operation sends.
use qarnot::compute::ComputeError;
use qarnot::compute::client::{ComputeClient, Method, RequestBody};
use qarnot::compute::task_io::{TaskCreationInput, TaskRedoInput, TaskUpdateInput};

fn client() -> ComputeClient {
    ComputeClient::new(
        "https://api.example.test".to_string(),
        "v1".to_string(),
        "SECRET-REDACTED",
    )
    .expect("a plain credential is accepted")
}

#[test]
fn a_control_byte_in_the_credential_is_unauthorized() {
    let r = ComputeClient::new(
        "https://api.example.test".to_string(),
        "v1".to_string(),
        "bad\nkey",
    );
    assert!(matches!(r, Err(ComputeError::Unauthorized)));
}

#[test]
fn a_plain_credential_is_accepted() {
    let c = client();
    assert_eq!(c.compute_url, "https://api.example.test");
    assert_eq!(c.version, "v1");
}

#[test]
fn full_url_joins_base_version_and_route() {
    let c = client();
    assert_eq!(
        c.full_url("tasks/abc"),
        "https://api.example.test/v1/tasks/abc"
    );
    assert_eq!(c.full_url(""), "https://api.example.test/v1/");
}

#[test]
fn statuses_classify_into_the_error_taxonomy() {
    assert!(matches!(ComputeClient::check_status(200), Ok(())));
    assert!(matches!(
        ComputeClient::check_status(401),
        Err(ComputeError::Unauthorized)
    ));
    assert!(matches!(
        ComputeClient::check_status(403),
        Err(ComputeError::Forbidden)
    ));
    assert!(matches!(
        ComputeClient::check_status(404),
        Err(ComputeError::NotFound)
    ));
    assert!(matches!(
        ComputeClient::check_status(500),
        Err(ComputeError::Generic)
    ));
    assert!(matches!(
        ComputeClient::check_status(201),
        Err(ComputeError::Generic)
    ));
}

#[test]
fn simple_requests_have_their_routes() {
    let c = client();
    let r = c.get_user_info_request();
    assert_eq!(r.method, Method::Get);
    assert_eq!(r.route, "info");
    assert!(r.query.is_empty());
    assert!(matches!(r.body, RequestBody::NoBody));

    assert_eq!(c.get_versions_request().route, "versions");
    assert_eq!(c.get_status_request().route, "");
    assert_eq!(c.get_hardware_constraints_request().route, "hardware-constraints");
    assert_eq!(c.get_profiles_request().route, "profiles");
    assert_eq!(c.get_profile_details_request("blender").route, "profiles/blender");
    assert_eq!(c.get_settings_request().route, "settings");
}

#[test]
fn task_requests_embed_the_task_id() {
    let c = client();
    let id = "52c10b2d-0687-41e1-985e-7279f6dd543a";
    assert_eq!(c.get_task_info_request(id).route, format!("tasks/{id}"));
    let del = c.delete_task_request(id);
    assert_eq!(del.method, Method::Delete);
    assert_eq!(del.route, format!("tasks/{id}"));
    let patch = c.patch_update_task_resources_request(id);
    assert_eq!(patch.method, Method::Patch);
    assert_eq!(patch.route, format!("tasks/{id}"));
    let abort = c.post_abort_task_request(id);
    assert_eq!(abort.method, Method::Post);
    assert_eq!(abort.route, format!("tasks/{id}/abort"));
    assert!(matches!(abort.body, RequestBody::EmptyJson));
}

#[test]
fn log_requests_cover_task_and_instance_streams() {
    let c = client();
    let id = "52c10b2d-0687-41e1-985e-7279f6dd543a";
    let full = c.get_task_stdout_request(id);
    assert_eq!(full.method, Method::Get);
    assert_eq!(full.route, format!("tasks/{id}/stdout"));
    let last = c.post_task_last_stderr_request(id);
    assert_eq!(last.method, Method::Post);
    assert_eq!(last.route, format!("tasks/{id}/stderr"));
    let inst = c.get_instance_stdout_request(id, 2467);
    assert_eq!(inst.route, format!("tasks/{id}/stdout/2467"));
    let inst0 = c.post_instance_last_stderr_request(id, 0);
    assert_eq!(inst0.method, Method::Post);
    assert_eq!(inst0.route, format!("tasks/{id}/stderr/0"));
}

#[test]
fn listing_requests_carry_the_tag_filter() {
    let c = client();
    let bare = c.get_tasks_request(None);
    assert_eq!(bare.route, "/tasks");
    assert!(bare.query.is_empty());

    let tags = vec!["nightly".to_string(), "blend".to_string()];
    let filtered = c.get_tasks_request(Some(&tags));
    assert_eq!(
        filtered.query,
        vec![
            ("tag".to_string(), "nightly".to_string()),
            ("tag".to_string(), "blend".to_string()),
        ]
    );
    let summaries = c.get_tasks_summaries_request(Some(&tags));
    assert_eq!(summaries.route, "/tasks/summaries");
    assert_eq!(summaries.query.len(), 2);
}

#[test]
fn mutation_requests_carry_their_payloads() {
    let c = client();
    let id = "52c10b2d-0687-41e1-985e-7279f6dd543a";

    let submit = c.post_task_request(TaskCreationInput::new("my blend".to_string()));
    assert_eq!(submit.method, Method::Post);
    assert_eq!(submit.route, "tasks");
    match submit.body {
        RequestBody::Task(input) => assert_eq!(input.name, "my blend"),
        other => panic!("wrong body: {:?}", other),
    }

    let retry = c.post_retry_task_request(id, TaskRedoInput::new());
    assert_eq!(retry.route, format!("tasks/{id}/retry"));
    assert!(matches!(retry.body, RequestBody::Redo(_)));
    let recover = c.post_recover_task_request(id, TaskRedoInput::new());
    assert_eq!(recover.route, format!("tasks/{id}/recover"));
    let resume = c.post_resume_task_request(id, TaskRedoInput::new());
    assert_eq!(resume.route, format!("tasks/{id}/resume"));

    let update = c.put_update_task_request(id, TaskUpdateInput::default());
    assert_eq!(update.method, Method::Put);
    assert_eq!(update.route, format!("tasks/{id}"));
    assert!(matches!(update.body, RequestBody::Update(_)));
}
