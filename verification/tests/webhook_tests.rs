use ci_relay::error::{DbError, ServiceError};
use ci_relay::session::{Session, SessionContainer};
use ci_relay::status::DeployStatus;
use ci_relay::store::{JobRecord, RepoRecord, Store};
use ci_relay::webhook::{
    create_job_handler, empty_string_as_none, update_job_handler, update_job_prepare,
    update_status, JobCreationBody, JobStatusBody, StatusQuery,
};

const TOKEN: &str = "0123456789abcdef0123456789abcdef";
const CHAT: i64 = 42;
const NOW: i64 = 1_700_000_000;

fn store_with_repo() -> Store {
    let mut store = Store::new();
    store
        .insert_repo(RepoRecord {
            id: TOKEN.to_string(),
            name: "Foo".to_string(),
            status: DeployStatus::Idle,
            message_id: CHAT,
        })
        .unwrap();
    store
}

fn session() -> SessionContainer {
    SessionContainer(Some(Session { sid: TOKEN.to_string() }))
}

fn creation_body() -> JobCreationBody {
    JobCreationBody { job_id: 9, url: None, description: None, by: None, by_name: None }
}

fn status_body(status: DeployStatus) -> JobStatusBody {
    JobStatusBody { job_id: 9, status, description: None, by: None }
}

#[test]
fn create_job_requires_identity() {
    let mut store = store_with_repo();
    let r = create_job_handler(&mut store, &SessionContainer(None), creation_body(), NOW);
    assert_eq!(r, Err(ServiceError::BadCredential));
    assert!(store.jobs.is_empty());
}

#[test]
fn create_job_unknown_repo_is_not_found() {
    let mut store = Store::new();
    let r = create_job_handler(&mut store, &session(), creation_body(), NOW);
    assert_eq!(r, Err(ServiceError::Sqlx(DbError::RowNotFound)));
    assert!(store.jobs.is_empty());
}

#[test]
fn create_job_persists_row_and_formats_notification() {
    let mut store = store_with_repo();
    let body = JobCreationBody {
        job_id: 9,
        url: Some("https://ci.example/run/9".to_string()),
        description: None,
        by: Some("https://user.example/u".to_string()),
        by_name: Some("Alice".to_string()),
    };
    let note = create_job_handler(&mut store, &session(), body, NOW).unwrap();
    assert_eq!(note.chat_id, CHAT);
    assert_eq!(
        note.text,
        "\u{1f6a7} Foo's job is running...\nby: [Alice](https://user.example/u)\nlink: [Foo](https://ci.example/run/9)"
    );
    assert_eq!(store.jobs.len(), 1);
    let job = &store.jobs[0];
    assert_eq!(job.id, 9);
    assert_eq!(job.status, DeployStatus::Running);
    assert_eq!(job.repo_id, TOKEN);
    assert_eq!(job.started_at, NOW);
    assert_eq!(job.triggered_by.as_deref(), Some("Alice"));
    assert_eq!(job.callback_url.as_deref(), Some("https://ci.example/run/9"));
    assert_eq!(job.elapsed, None);
}

#[test]
fn update_job_atomicity_without_running_job() {
    // no job at all for the repo
    let mut store = store_with_repo();
    let before = store.clone();
    let r = update_job_handler(&mut store, &session(), &status_body(DeployStatus::Success), NOW, true);
    assert_eq!(r, Err(ServiceError::Sqlx(DbError::RowNotFound)));
    assert_eq!(store, before, "the store is left unmodified");

    // a job exists, but none is running
    store.push_job(JobRecord {
        id: 9,
        status: DeployStatus::Success,
        triggered_by: None,
        description: None,
        callback_url: None,
        repo_id: TOKEN.to_string(),
        started_at: NOW - 100,
        elapsed: Some(100),
    });
    let before = store.clone();
    let r = update_job_handler(&mut store, &session(), &status_body(DeployStatus::Failure), NOW, true);
    assert_eq!(r, Err(ServiceError::Sqlx(DbError::RowNotFound)));
    assert_eq!(store, before, "status and elapsed are unchanged");
}

#[test]
fn update_job_retry_after_failed_send() {
    let mut store = store_with_repo();
    store.push_job(JobRecord {
        id: 9,
        status: DeployStatus::Running,
        triggered_by: Some("Alice".to_string()),
        description: None,
        callback_url: None,
        repo_id: TOKEN.to_string(),
        started_at: NOW - 75,
        elapsed: None,
    });
    let before = store.clone();

    // the notify step fails: the transaction rolls back
    let r = update_job_handler(&mut store, &session(), &status_body(DeployStatus::Success), NOW, false);
    match r {
        Err(ServiceError::TeloxideError(_)) => {}
        other => panic!("expected a notify failure, got {:?}", other),
    }
    assert_eq!(store, before, "the job row still has status running");
    assert_eq!(store.jobs[0].status, DeployStatus::Running);

    // the same call retried succeeds and commits a single transition
    let note = update_job_handler(&mut store, &session(), &status_body(DeployStatus::Success), NOW, true)
        .unwrap();
    assert_eq!(note.chat_id, CHAT);
    assert_eq!(note.text, "\u{2705} Foo's job has completed\nelapsed: 1 minute(s)");
    assert_eq!(store.jobs.len(), 1);
    assert_eq!(store.jobs[0].status, DeployStatus::Success);
    assert_eq!(store.jobs[0].elapsed, Some(75));

    // a third call finds no running job: the transition happened once
    let r = update_job_handler(&mut store, &session(), &status_body(DeployStatus::Success), NOW, true);
    assert_eq!(r, Err(ServiceError::Sqlx(DbError::RowNotFound)));
}

#[test]
fn update_job_uses_stored_attribution() {
    let mut store = store_with_repo();
    store.push_job(JobRecord {
        id: 9,
        status: DeployStatus::Running,
        triggered_by: Some("Alice".to_string()),
        description: None,
        callback_url: Some("https://ci.example/run/9".to_string()),
        repo_id: TOKEN.to_string(),
        started_at: NOW - 30,
        elapsed: None,
    });
    let body = JobStatusBody {
        job_id: 9,
        status: DeployStatus::Failure,
        description: None,
        by: Some("https://user.example/u".to_string()),
    };
    let (upd, note) = update_job_prepare(&store, &session(), &body, NOW).unwrap();
    assert_eq!(upd.job_id, 9);
    assert_eq!(upd.repo_id, TOKEN);
    assert_eq!(upd.status, DeployStatus::Failure);
    assert_eq!(upd.elapsed, 30);
    assert_eq!(
        note.text,
        "\u{1f6a8} Foo's job encountered failure\nby: [Alice](https://user.example/u)\nlink: [Foo](https://ci.example/run/9)\nelapsed: 30 second(s)"
    );
}

#[test]
fn update_status_formats_against_previous_status() {
    let mut store = store_with_repo();
    let q = StatusQuery {
        status: DeployStatus::Idle,
        url: None,
        description: None,
        by: None,
        by_name: None,
    };
    // previous status is idle: never transitioned through running
    let note = update_status(&mut store, &session(), q).unwrap();
    assert_eq!(note.chat_id, CHAT);
    assert_eq!(note.text, "repo: Foo is doing nothing \u{1f4a4}");
    assert_eq!(store.repos[0].status, DeployStatus::Idle);

    // move to running, then report idle again: that is a cancellation
    let q = StatusQuery {
        status: DeployStatus::Running,
        url: None,
        description: None,
        by: None,
        by_name: None,
    };
    let note = update_status(&mut store, &session(), q).unwrap();
    assert_eq!(note.text, "repo: Foo is deploying... \u{2699}\u{fe0f}");
    assert_eq!(store.repos[0].status, DeployStatus::Running);

    let q = StatusQuery {
        status: DeployStatus::Idle,
        url: None,
        description: None,
        by: None,
        by_name: None,
    };
    let note = update_status(&mut store, &session(), q).unwrap();
    assert_eq!(note.text, "repo: Foo deployment was cancelled \u{26d4}\u{fe0f}");
    assert_eq!(store.repos[0].status, DeployStatus::Idle);
}

#[test]
fn update_status_requires_identity_and_repo() {
    let mut store = store_with_repo();
    let q = StatusQuery {
        status: DeployStatus::Success,
        url: None,
        description: None,
        by: None,
        by_name: None,
    };
    let r = update_status(&mut store, &SessionContainer(None), q.clone());
    assert_eq!(r, Err(ServiceError::BadCredential));

    let mut empty = Store::new();
    let r = update_status(&mut empty, &session(), q);
    assert_eq!(r, Err(ServiceError::Sqlx(DbError::RowNotFound)));
}

#[test]
fn empty_optional_fields_become_none() {
    assert_eq!(empty_string_as_none(Some("".to_string())), None);
    assert_eq!(empty_string_as_none(Some("x".to_string())), Some("x".to_string()));
    assert_eq!(empty_string_as_none(None), None);
}
