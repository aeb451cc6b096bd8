//! The externally-triggered webhook operations: job creation, job
//! status update, and repo status update.
//!
//! The job-update transaction keeps the load-bearing ordering of the
//! whole system: the job row is mutated, the notification is sent, and
//! only then is the transaction committed.  A failed send leaves the
//! store exactly as it was, so the caller can retry; the price is that
//! a retried notification may be delivered twice, never silently lost.

use vstd::prelude::*;

use crate::error::{DbError, ServiceError};
use crate::format::{
    create_message_spec, duration_spec, format_create_message, format_duration,
    format_telegram_message, format_update_message, opt_view, telegram_message_spec,
    update_message_spec,
};
use crate::session::SessionContainer;
use crate::status::DeployStatus;
use crate::store::{
    dup_opt_string, has_repo, has_running_job, jobs_after_update, repos_after_status, JobRecord,
    Store,
};

verus! {

/// The body of a job-creation request.
#[derive(Debug, Clone, PartialEq)]
pub struct JobCreationBody {
    pub job_id: i32,
    pub url: Option<String>,
    pub description: Option<String>,
    pub by: Option<String>,
    pub by_name: Option<String>,
}

/// The body of a job-update request.
#[derive(Debug, Clone, PartialEq)]
pub struct JobStatusBody {
    pub job_id: i32,
    pub status: DeployStatus,
    pub description: Option<String>,
    pub by: Option<String>,
}

/// The query of a repo-status update request.
#[derive(Debug, Clone, PartialEq)]
pub struct StatusQuery {
    pub status: DeployStatus,
    pub url: Option<String>,
    pub description: Option<String>,
    pub by: Option<String>,
    pub by_name: Option<String>,
}

/// A chat notification a handler asks to be delivered.
#[derive(Debug, Clone, PartialEq)]
pub struct Notification {
    pub chat_id: i64,
    pub text: String,
}

/// The pending mutation of a job-update transaction, computed before
/// the notification is sent and applied only after it succeeds.
#[derive(Debug, Clone, PartialEq)]
pub struct JobUpdate {
    pub job_id: i32,
    pub repo_id: String,
    pub status: DeployStatus,
    pub elapsed: i64,
}

/// Normalizes an optional field: an empty string is no value.
pub fn empty_string_as_none(o: Option<String>) -> (r: Option<String>)
    ensures
        r == (if o matches Some(s) && s@.len() == 0 {
            None::<String>
        } else {
            o
        }),
{
    match o {
        Some(s) => {
            if s.as_str().is_empty() {
                None
            } else {
                Some(s)
            }
        },
        None => None,
    }
}

/// Creates a job: authenticates, looks up the bound repo, inserts the
/// running job row, and asks for the creation notification.  The row is
/// persisted before the notification is attempted; a later send failure
/// does not undo it.
pub fn create_job_handler(
    store: &mut Store,
    session: &SessionContainer,
    body: JobCreationBody,
    now: i64,
) -> (r: Result<Notification, ServiceError>)
    requires
        old(store).wf(),
        now >= 0,
    ensures
        final(store).wf(),
        match r {
            Err(e) => *final(store) == *old(store) && ((session.0 is None && e
                == ServiceError::BadCredential) || (session.0 matches Some(s) && !has_repo(
                old(store).repos@,
                s.sid@,
            ) && e == ServiceError::Sqlx(DbError::RowNotFound))),
            Ok(note) => session.0 matches Some(s) && has_repo(old(store).repos@, s.sid@) && {
                &&& final(store).repos == old(store).repos
                &&& final(store).jobs@ == old(store).jobs@.push(
                    JobRecord {
                        id: body.job_id,
                        status: DeployStatus::Running,
                        triggered_by: body.by_name,
                        description: body.description,
                        callback_url: body.url,
                        repo_id: s.sid,
                        started_at: now,
                        elapsed: None,
                    },
                )
                &&& exists|ri: int|
                    0 <= ri < old(store).repos@.len() && (#[trigger] old(store).repos@[ri]).id@
                        == s.sid@ && note.chat_id == old(store).repos@[ri].message_id && note.text@
                        == create_message_spec(
                        old(store).repos@[ri].name@,
                        opt_view(body.url),
                        opt_view(body.description),
                        opt_view(body.by),
                        opt_view(body.by_name),
                    )
            },
        },
{
    let sid = match &session.0 {
        Some(s) => s.sid.clone(),
        None => {
            return Err(ServiceError::BadCredential);
        },
    };
    let ri = match store.find_repo(sid.as_str()) {
        Some(i) => i,
        None => {
            return Err(ServiceError::Sqlx(DbError::RowNotFound));
        },
    };
    let repo_name = store.repos[ri].name.clone();
    let chat_id = store.repos[ri].message_id;
    let text = format_create_message(&repo_name, &body.url, &body.description, &body.by, &body.by_name);
    let rec = JobRecord {
        id: body.job_id,
        status: DeployStatus::Running,
        triggered_by: body.by_name,
        description: body.description,
        callback_url: body.url,
        repo_id: sid,
        started_at: now,
        elapsed: None,
    };
    store.push_job(rec);
    Ok(Notification { chat_id, text })
}

/// Whether `ji` is the first running job of repo `sid`: the row the
/// update transaction selects.
pub open spec fn first_running_job(jobs: Seq<JobRecord>, sid: Seq<char>, ji: int) -> bool {
    &&& 0 <= ji < jobs.len()
    &&& jobs[ji].repo_id@ == sid
    &&& jobs[ji].status == DeployStatus::Running
    &&& forall|k: int|
        0 <= k < ji ==> !((#[trigger] jobs[k]).repo_id@ == sid && jobs[k].status
            == DeployStatus::Running)
}

/// The select-and-compute phase of the job-update transaction: resolves
/// the identity, selects the repo's running job, computes the elapsed
/// time and the notification text.  Reads only; the mutation it
/// prepares is applied by `Store::update_jobs` once the notification
/// was delivered.
pub fn update_job_prepare(
    store: &Store,
    session: &SessionContainer,
    body: &JobStatusBody,
    now: i64,
) -> (r: Result<(JobUpdate, Notification), ServiceError>)
    requires
        store.wf(),
        now >= 0,
    ensures
        r is Ok <==> (session.0 matches Some(s) && has_repo(store.repos@, s.sid@)
            && has_running_job(store.jobs@, s.sid@)),
        match r {
            Err(e) => (session.0 is None && e == ServiceError::BadCredential) || (
            session.0 is Some && e == ServiceError::Sqlx(DbError::RowNotFound)),
            Ok((upd, note)) => session.0 matches Some(s) && {
                &&& upd.job_id == body.job_id
                &&& upd.repo_id == s.sid
                &&& upd.status == body.status
                &&& exists|ji: int|
                    #[trigger] first_running_job(store.jobs@, s.sid@, ji) && upd.elapsed == now
                        - store.jobs@[ji].started_at && note.text@ == update_message_spec(
                        chosen_repo_name(store.repos@, s.sid@),
                        body.status,
                        duration_spec(now - store.jobs@[ji].started_at),
                        opt_view(store.jobs@[ji].callback_url),
                        opt_view(body.description),
                        opt_view(body.by),
                        opt_view(store.jobs@[ji].triggered_by),
                    )
                &&& exists|ri: int|
                    0 <= ri < store.repos@.len() && (#[trigger] store.repos@[ri]).id@ == s.sid@
                        && note.chat_id == store.repos@[ri].message_id
            },
        },
{
    let sid = match &session.0 {
        Some(s) => s.sid.clone(),
        None => {
            return Err(ServiceError::BadCredential);
        },
    };
    let ri = match store.find_repo(sid.as_str()) {
        Some(i) => i,
        None => {
            return Err(ServiceError::Sqlx(DbError::RowNotFound));
        },
    };
    let ji = match store.find_running_job(sid.as_str()) {
        Some(i) => i,
        None => {
            return Err(ServiceError::Sqlx(DbError::RowNotFound));
        },
    };
    proof {
        lemma_chosen_repo_name(store.repos@, sid@, ri as int);
        assert(first_running_job(store.jobs@, sid@, ji as int));
    }
    let elapsed = now - store.jobs[ji].started_at;
    let elapsed_text = format_duration(elapsed);
    let text = format_update_message(
        &store.repos[ri].name,
        body.status,
        &elapsed_text,
        &dup_opt_string(&store.jobs[ji].callback_url),
        &dup_opt_string(&body.description),
        &dup_opt_string(&body.by),
        &dup_opt_string(&store.jobs[ji].triggered_by),
    );
    let upd = JobUpdate { job_id: body.job_id, repo_id: sid, status: body.status, elapsed };
    Ok((upd, Notification { chat_id: store.repos[ri].message_id, text }))
}

/// The name of the repo with id `sid`, which under well-formedness is
/// the name of every repo with that id.
pub open spec fn chosen_repo_name(repos: Seq<crate::store::RepoRecord>, sid: Seq<char>) -> Seq<
    char,
> {
    let ri = choose|ri: int| 0 <= ri < repos.len() && (#[trigger] repos[ri]).id@ == sid;
    repos[ri].name@
}

/// Under unique repo ids, the chosen name is the name at any matching
/// index.
pub proof fn lemma_chosen_repo_name(repos: Seq<crate::store::RepoRecord>, sid: Seq<char>, ri: int)
    requires
        crate::store::repo_ids_unique(repos),
        0 <= ri < repos.len(),
        repos[ri].id@ == sid,
    ensures
        chosen_repo_name(repos, sid) == repos[ri].name@,
{
    let c = choose|c: int| 0 <= c < repos.len() && (#[trigger] repos[c]).id@ == sid;
    if c != ri {
        if c < ri {
            assert(repos[c].id@ != repos[ri].id@);
        } else {
            assert(repos[ri].id@ != repos[c].id@);
        }
    }
}

/// The whole job-update transaction: select, mutate, notify, commit.
///
/// `send_ok` is the outcome of the notification send, which happens
/// inside the transaction: when it is false the transaction rolls back,
/// the store is untouched, the job stays running, and the same call can
/// be retried.  On no input does a failure leave a partial mutation
/// behind.
pub fn update_job_handler(
    store: &mut Store,
    session: &SessionContainer,
    body: &JobStatusBody,
    now: i64,
    send_ok: bool,
) -> (r: Result<Notification, ServiceError>)
    requires
        old(store).wf(),
        now >= 0,
    ensures
        final(store).wf(),
        r is Err ==> *final(store) == *old(store),
        session.0 is None ==> r == Err::<Notification, ServiceError>(ServiceError::BadCredential),
        session.0 matches Some(s) ==> {
            &&& !(has_repo(old(store).repos@, s.sid@) && has_running_job(old(store).jobs@, s.sid@))
                ==> r == Err::<Notification, ServiceError>(ServiceError::Sqlx(DbError::RowNotFound))
            &&& (has_repo(old(store).repos@, s.sid@) && has_running_job(old(store).jobs@, s.sid@)
                && !send_ok) ==> (r matches Err(e) && e is TeloxideError)
            &&& (has_repo(old(store).repos@, s.sid@) && has_running_job(old(store).jobs@, s.sid@)
                && send_ok) ==> (r matches Ok(note) && final(store).repos == old(store).repos
                && exists|ji: int|
                {
                    &&& #[trigger] first_running_job(old(store).jobs@, s.sid@, ji)
                    &&& final(store).jobs@ == jobs_after_update(
                        old(store).jobs@,
                        body.job_id,
                        s.sid@,
                        body.status,
                        (now - old(store).jobs@[ji].started_at) as i64,
                    )
                    &&& note.text@ == update_message_spec(
                        chosen_repo_name(old(store).repos@, s.sid@),
                        body.status,
                        duration_spec(now - old(store).jobs@[ji].started_at),
                        opt_view(old(store).jobs@[ji].callback_url),
                        opt_view(body.description),
                        opt_view(body.by),
                        opt_view(old(store).jobs@[ji].triggered_by),
                    )
                })
        },
{
    let (upd, note) = match update_job_prepare(store, session, body, now) {
        Ok(p) => p,
        Err(e) => {
            return Err(e);
        },
    };
    if !send_ok {
        return Err(
            ServiceError::TeloxideError(
                "notification send failed; transaction rolled back".to_owned(),
            ),
        );
    }
    store.update_jobs(upd.job_id, upd.repo_id.as_str(), upd.status, upd.elapsed);
    Ok(note)
}

/// Updates a repo's deployment status and asks for the status-change
/// notification, formatted against the status the repo held before.
pub fn update_status(store: &mut Store, session: &SessionContainer, q: StatusQuery) -> (r: Result<
    Notification,
    ServiceError,
>)
    requires
        old(store).wf(),
    ensures
        final(store).wf(),
        r is Err ==> *final(store) == *old(store),
        match r {
            Err(e) => (session.0 is None && e == ServiceError::BadCredential) || (
            session.0 matches Some(s) && !has_repo(old(store).repos@, s.sid@) && e
                == ServiceError::Sqlx(DbError::RowNotFound)),
            Ok(note) => session.0 matches Some(s) && has_repo(old(store).repos@, s.sid@) && {
                &&& final(store).jobs == old(store).jobs
                &&& final(store).repos@ == repos_after_status(old(store).repos@, s.sid@, q.status)
                &&& exists|ri: int|
                    0 <= ri < old(store).repos@.len() && (#[trigger] old(store).repos@[ri]).id@
                        == s.sid@ && note.chat_id == old(store).repos@[ri].message_id && note.text@
                        == telegram_message_spec(
                        q.status,
                        old(store).repos@[ri].name@,
                        old(store).repos@[ri].status,
                        opt_view(q.url),
                        opt_view(q.description),
                        opt_view(q.by),
                        opt_view(q.by_name),
                    )
            },
        },
{
    let sid = match &session.0 {
        Some(s) => s.sid.clone(),
        None => {
            return Err(ServiceError::BadCredential);
        },
    };
    let ri = match store.find_repo(sid.as_str()) {
        Some(i) => i,
        None => {
            return Err(ServiceError::Sqlx(DbError::RowNotFound));
        },
    };
    let repo_name = store.repos[ri].name.clone();
    let chat_id = store.repos[ri].message_id;
    let last_status = store.repos[ri].status;
    let text = format_telegram_message(
        q.status,
        &repo_name,
        last_status,
        &q.url,
        &q.description,
        &q.by,
        &q.by_name,
    );
    store.set_repo_status(sid.as_str(), q.status);
    Ok(Notification { chat_id, text })
}

/// Retry safety of the job update: when exactly the repo's single
/// running job carries the updated job number and the new status is not
/// running itself, committing the update transitions that one row, no
/// other row changes, and no running job remains — so a retried call
/// after a failed send commits exactly one transition.
pub proof fn lemma_update_job_retry_safe(
    jobs: Seq<JobRecord>,
    sid: Seq<char>,
    job_id: i32,
    status: DeployStatus,
    elapsed: i64,
    ji: int,
)
    requires
        status != DeployStatus::Running,
        first_running_job(jobs, sid, ji),
        jobs[ji].id == job_id,
        // no second running job for the repo
        forall|k: int|
            0 <= k < jobs.len() && (#[trigger] jobs[k]).repo_id@ == sid && jobs[k].status
                == DeployStatus::Running ==> k == ji,
        // the update's where-clause hits no other row
        forall|k: int|
            0 <= k < jobs.len() && (#[trigger] jobs[k]).id == job_id && jobs[k].repo_id@ == sid
                ==> k == ji,
    ensures
        jobs_after_update(jobs, job_id, sid, status, elapsed).len() == jobs.len(),
        jobs_after_update(jobs, job_id, sid, status, elapsed)[ji].status == status,
        jobs_after_update(jobs, job_id, sid, status, elapsed)[ji].elapsed == Some(elapsed),
        forall|k: int|
            0 <= k < jobs.len() && k != ji ==> jobs_after_update(jobs, job_id, sid, status, elapsed)[k]
                == jobs[k],
        !has_running_job(jobs_after_update(jobs, job_id, sid, status, elapsed), sid),
{
    let after = jobs_after_update(jobs, job_id, sid, status, elapsed);
    assert forall|k: int| 0 <= k < jobs.len() && k != ji implies after[k] == jobs[k] by {
        assert(!(jobs[k].id == job_id && jobs[k].repo_id@ == sid));
    }
    assert forall|k: int| 0 <= k < after.len() implies !((#[trigger] after[k]).repo_id@ == sid
        && after[k].status == DeployStatus::Running) by {
        if jobs[k].id == job_id && jobs[k].repo_id@ == sid {
            assert(after[k].status == status);
        } else {
            assert(after[k] == jobs[k]);
        }
    }
}

} // verus!
