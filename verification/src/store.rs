//! In-memory model of the relational store: the `repos` and `jobs`
//! tables as vectors of records.  Every handler mutation is specified
//! against this model; the surrounding binary mirrors each mutation to
//! the real database inside the same transaction boundaries.

use vstd::prelude::*;

use crate::error::{DbError, ServiceError};
use crate::status::DeployStatus;
use crate::text::str_eq;

verus! {

/// One row of the repos table: a deployable unit, its chat binding and
/// its last known deployment status.  `id` is the bearer token and the
/// primary key; `message_id` is the chat the repo reports to.
#[derive(Debug, Clone, PartialEq)]
pub struct RepoRecord {
    pub id: String,
    pub name: String,
    pub status: DeployStatus,
    pub message_id: i64,
}

/// One row of the jobs table: a single deployment run.  `id` is the
/// caller-supplied job number, unique only within a repo's history;
/// `elapsed` is set once, at the transition away from running.
#[derive(Debug, Clone, PartialEq)]
pub struct JobRecord {
    pub id: i32,
    pub status: DeployStatus,
    pub triggered_by: Option<String>,
    pub description: Option<String>,
    pub callback_url: Option<String>,
    pub repo_id: String,
    pub started_at: i64,
    pub elapsed: Option<i64>,
}

impl RepoRecord {
    /// An exact copy of the record.
    pub fn duplicate(&self) -> (r: RepoRecord)
        ensures
            r == *self,
    {
        RepoRecord {
            id: self.id.clone(),
            name: self.name.clone(),
            status: self.status,
            message_id: self.message_id,
        }
    }
}

/// An exact copy of an optional string.
pub fn dup_opt_string(o: &Option<String>) -> (r: Option<String>)
    ensures
        r == *o,
{
    match o {
        Some(s) => Some(s.clone()),
        None => None,
    }
}

/// Whether no two repos share an id: the primary-key property.
pub open spec fn repo_ids_unique(repos: Seq<RepoRecord>) -> bool {
    forall|i: int, j: int|
        0 <= i < j < repos.len() ==> (#[trigger] repos[i]).id@ != (#[trigger] repos[j]).id@
}

/// Whether every job carries a sane creation timestamp.
pub open spec fn jobs_wf(jobs: Seq<JobRecord>) -> bool {
    forall|i: int| 0 <= i < jobs.len() ==> (#[trigger] jobs[i]).started_at >= 0
}

/// Whether some repo has id `sid`.
pub open spec fn has_repo(repos: Seq<RepoRecord>, sid: Seq<char>) -> bool {
    exists|i: int| 0 <= i < repos.len() && (#[trigger] repos[i]).id@ == sid
}

/// Whether some job of repo `sid` is running.
pub open spec fn has_running_job(jobs: Seq<JobRecord>, sid: Seq<char>) -> bool {
    exists|i: int|
        0 <= i < jobs.len() && (#[trigger] jobs[i]).repo_id@ == sid && jobs[i].status
            == DeployStatus::Running
}

/// Whether a job row is hit by an update of job `job_id` of repo `sid`.
pub open spec fn job_update_hits(j: JobRecord, job_id: i32, sid: Seq<char>) -> bool {
    j.id == job_id && j.repo_id@ == sid
}

/// The jobs table after an update sets status and elapsed on every row
/// of repo `sid` carrying job number `job_id`.
pub open spec fn jobs_after_update(
    jobs: Seq<JobRecord>,
    job_id: i32,
    sid: Seq<char>,
    status: DeployStatus,
    elapsed: i64,
) -> Seq<JobRecord> {
    Seq::new(
        jobs.len(),
        |k: int|
            if job_update_hits(jobs[k], job_id, sid) {
                JobRecord { status, elapsed: Some(elapsed), ..jobs[k] }
            } else {
                jobs[k]
            },
    )
}

/// The repos table after every repo with id `sid` is given `status`.
pub open spec fn repos_after_status(
    repos: Seq<RepoRecord>,
    sid: Seq<char>,
    status: DeployStatus,
) -> Seq<RepoRecord> {
    Seq::new(
        repos.len(),
        |k: int|
            if repos[k].id@ == sid {
                RepoRecord { status, ..repos[k] }
            } else {
                repos[k]
            },
    )
}

/// The repos table with every repo of id `sid` removed.
pub open spec fn repos_without_id(repos: Seq<RepoRecord>, sid: Seq<char>) -> Seq<RepoRecord>
    decreases repos.len(),
{
    if repos.len() == 0 {
        Seq::empty()
    } else {
        let rest = repos_without_id(repos.drop_last(), sid);
        if repos.last().id@ == sid {
            rest
        } else {
            rest.push(repos.last())
        }
    }
}

/// The repos table with every repo bound to chat `chat` removed.
pub open spec fn repos_without_chat(repos: Seq<RepoRecord>, chat: i64) -> Seq<RepoRecord>
    decreases repos.len(),
{
    if repos.len() == 0 {
        Seq::empty()
    } else {
        let rest = repos_without_chat(repos.drop_last(), chat);
        if repos.last().message_id == chat {
            rest
        } else {
            rest.push(repos.last())
        }
    }
}

/// Every record retained by `repos_without_id` is a record of `repos`.
proof fn lemma_without_id_sub(repos: Seq<RepoRecord>, sid: Seq<char>)
    ensures
        forall|k: int|
            0 <= k < repos_without_id(repos, sid).len() ==> exists|m: int|
                0 <= m < repos.len() && #[trigger] repos_without_id(repos, sid)[k] == repos[m],
    decreases repos.len(),
{
    if repos.len() > 0 {
        lemma_without_id_sub(repos.drop_last(), sid);
        let rest = repos_without_id(repos.drop_last(), sid);
        assert forall|k: int| 0 <= k < repos_without_id(repos, sid).len() implies exists|m: int|
            0 <= m < repos.len() && #[trigger] repos_without_id(repos, sid)[k] == repos[m] by {
            if k < rest.len() {
                let m = choose|m: int|
                    0 <= m < repos.drop_last().len() && #[trigger] rest[k] == repos.drop_last()[m];
                assert(repos_without_id(repos, sid)[k] == repos[m]);
            } else {
                assert(repos_without_id(repos, sid)[k] == repos[repos.len() - 1]);
            }
        }
    }
}

/// Removing repos keeps the primary-key property.
proof fn lemma_without_id_unique(repos: Seq<RepoRecord>, sid: Seq<char>)
    requires
        repo_ids_unique(repos),
    ensures
        repo_ids_unique(repos_without_id(repos, sid)),
    decreases repos.len(),
{
    if repos.len() > 0 {
        assert(repo_ids_unique(repos.drop_last()));
        lemma_without_id_unique(repos.drop_last(), sid);
        lemma_without_id_sub(repos.drop_last(), sid);
        let rest = repos_without_id(repos.drop_last(), sid);
        let whole = repos_without_id(repos, sid);
        if repos.last().id@ != sid {
            assert forall|i: int, j: int| 0 <= i < j < whole.len() implies (#[trigger] whole[i]).id@
                != (#[trigger] whole[j]).id@ by {
                if j < rest.len() {
                } else {
                    let m = choose|m: int|
                        0 <= m < repos.drop_last().len() && #[trigger] rest[i]
                            == repos.drop_last()[m];
                    assert(repos[m].id@ != repos.last().id@);
                }
            }
        }
    }
}

/// Every record retained by `repos_without_chat` is a record of
/// `repos`.
proof fn lemma_without_chat_sub(repos: Seq<RepoRecord>, chat: i64)
    ensures
        forall|k: int|
            0 <= k < repos_without_chat(repos, chat).len() ==> exists|m: int|
                0 <= m < repos.len() && #[trigger] repos_without_chat(repos, chat)[k] == repos[m],
    decreases repos.len(),
{
    if repos.len() > 0 {
        lemma_without_chat_sub(repos.drop_last(), chat);
        let rest = repos_without_chat(repos.drop_last(), chat);
        assert forall|k: int| 0 <= k < repos_without_chat(repos, chat).len() implies exists|m: int|
            0 <= m < repos.len() && #[trigger] repos_without_chat(repos, chat)[k] == repos[m] by {
            if k < rest.len() {
                let m = choose|m: int|
                    0 <= m < repos.drop_last().len() && #[trigger] rest[k] == repos.drop_last()[m];
                assert(repos_without_chat(repos, chat)[k] == repos[m]);
            } else {
                assert(repos_without_chat(repos, chat)[k] == repos[repos.len() - 1]);
            }
        }
    }
}

/// Removing a chat's repos keeps the primary-key property.
proof fn lemma_without_chat_unique(repos: Seq<RepoRecord>, chat: i64)
    requires
        repo_ids_unique(repos),
    ensures
        repo_ids_unique(repos_without_chat(repos, chat)),
    decreases repos.len(),
{
    if repos.len() > 0 {
        assert(repo_ids_unique(repos.drop_last()));
        lemma_without_chat_unique(repos.drop_last(), chat);
        lemma_without_chat_sub(repos.drop_last(), chat);
        let rest = repos_without_chat(repos.drop_last(), chat);
        let whole = repos_without_chat(repos, chat);
        if repos.last().message_id != chat {
            assert forall|i: int, j: int| 0 <= i < j < whole.len() implies (#[trigger] whole[i]).id@
                != (#[trigger] whole[j]).id@ by {
                if j < rest.len() {
                } else {
                    let m = choose|m: int|
                        0 <= m < repos.drop_last().len() && #[trigger] rest[i]
                            == repos.drop_last()[m];
                    assert(repos[m].id@ != repos.last().id@);
                }
            }
        }
    }
}

/// The in-memory model of the relational store.
#[derive(Debug, Clone, PartialEq)]
pub struct Store {
    pub repos: Vec<RepoRecord>,
    pub jobs: Vec<JobRecord>,
}

impl Store {
    /// Well-formedness: repo ids are unique (the primary key) and job
    /// timestamps are sane.
    pub open spec fn wf(&self) -> bool {
        repo_ids_unique(self.repos@) && jobs_wf(self.jobs@)
    }

    /// An empty store.
    pub fn new() -> (r: Store)
        ensures
            r.repos@ == Seq::<RepoRecord>::empty(),
            r.jobs@ == Seq::<JobRecord>::empty(),
            r.wf(),
    {
        Store { repos: Vec::new(), jobs: Vec::new() }
    }

    /// The index of the repo with id `sid`: the first match, and under
    /// well-formedness the only one.
    pub fn find_repo(&self, sid: &str) -> (r: Option<usize>)
        ensures
            match r {
                Some(i) => i < self.repos@.len() && self.repos@[i as int].id@ == sid@ && forall|
                    k: int,
                |
                    0 <= k < i ==> (#[trigger] self.repos@[k]).id@ != sid@,
                None => !has_repo(self.repos@, sid@),
            },
    {
        let n = self.repos.len();
        let mut i: usize = 0;
        while i < n
            invariant
                0 <= i <= n,
                n == self.repos@.len(),
                forall|k: int| 0 <= k < i ==> (#[trigger] self.repos@[k]).id@ != sid@,
            decreases n - i,
        {
            if str_eq(self.repos[i].id.as_str(), sid) {
                return Some(i);
            }
            i = i + 1;
        }
        None
    }

    /// The index of the first running job of repo `sid`.
    pub fn find_running_job(&self, sid: &str) -> (r: Option<usize>)
        ensures
            match r {
                Some(i) => i < self.jobs@.len() && self.jobs@[i as int].repo_id@ == sid@
                    && self.jobs@[i as int].status == DeployStatus::Running && forall|k: int|
                    0 <= k < i ==> !((#[trigger] self.jobs@[k]).repo_id@ == sid@ && self.jobs@[k].status
                        == DeployStatus::Running),
                None => !has_running_job(self.jobs@, sid@),
            },
    {
        let n = self.jobs.len();
        let mut i: usize = 0;
        while i < n
            invariant
                0 <= i <= n,
                n == self.jobs@.len(),
                forall|k: int|
                    0 <= k < i ==> !((#[trigger] self.jobs@[k]).repo_id@ == sid@ && self.jobs@[k].status
                        == DeployStatus::Running),
            decreases n - i,
        {
            let running = matches!(self.jobs[i].status, DeployStatus::Running);
            if running && str_eq(self.jobs[i].repo_id.as_str(), sid) {
                return Some(i);
            }
            i = i + 1;
        }
        None
    }

    /// Inserts a repo row; a duplicate id violates the primary key and
    /// is rejected by the store.
    pub fn insert_repo(&mut self, rec: RepoRecord) -> (r: Result<(), ServiceError>)
        requires
            old(self).wf(),
        ensures
            final(self).wf(),
            final(self).jobs == old(self).jobs,
            match r {
                Ok(()) => !has_repo(old(self).repos@, rec.id@) && final(self).repos@ == old(
                    self,
                ).repos@.push(rec),
                Err(e) => has_repo(old(self).repos@, rec.id@) && *final(self) == *old(self)
                    && e matches ServiceError::Sqlx(DbError::Database { .. }),
            },
    {
        match self.find_repo(rec.id.as_str()) {
            Some(_) => Err(
                ServiceError::Sqlx(
                    DbError::Database {
                        code: Some("1555".to_owned()),
                        message: "UNIQUE constraint failed: repos.id".to_owned(),
                    },
                ),
            ),
            None => {
                let ghost old_repos = self.repos@;
                self.repos.push(rec);
                proof {
                    assert forall|i: int, j: int| 0 <= i < j < self.repos@.len() implies (
                    #[trigger] self.repos@[i]).id@ != (#[trigger] self.repos@[j]).id@ by {
                        if j < old_repos.len() {
                        } else {
                            assert(self.repos@[j] == rec);
                            assert(!has_repo(old_repos, rec.id@));
                            assert(self.repos@[i] == old_repos[i]);
                        }
                    }
                }
                Ok(())
            },
        }
    }

    /// Appends a job row.
    pub fn push_job(&mut self, rec: JobRecord)
        requires
            old(self).wf(),
            rec.started_at >= 0,
        ensures
            final(self).wf(),
            final(self).repos == old(self).repos,
            final(self).jobs@ == old(self).jobs@.push(rec),
    {
        self.jobs.push(rec);
    }

    /// Sets status and elapsed on every job row of repo `sid` carrying
    /// job number `job_id`: the update step of the job-update
    /// transaction.
    pub fn update_jobs(&mut self, job_id: i32, sid: &str, status: DeployStatus, elapsed: i64)
        requires
            old(self).wf(),
        ensures
            final(self).wf(),
            final(self).repos == old(self).repos,
            final(self).jobs@ == jobs_after_update(old(self).jobs@, job_id, sid@, status, elapsed),
    {
        let ghost orig = self.jobs@;
        let n = self.jobs.len();
        let mut i: usize = 0;
        while i < n
            invariant
                0 <= i <= n,
                n == orig.len(),
                self.jobs@.len() == n,
                self.repos == old(self).repos,
                jobs_wf(orig),
                forall|k: int|
                    0 <= k < i ==> self.jobs@[k] == jobs_after_update(
                        orig,
                        job_id,
                        sid@,
                        status,
                        elapsed,
                    )[k],
                forall|k: int| i <= k < n ==> self.jobs@[k] == orig[k],
            decreases n - i,
        {
            if self.jobs[i].id == job_id && str_eq(self.jobs[i].repo_id.as_str(), sid) {
                let ghost before = self.jobs@;
                let rec = self.jobs.remove(i);
                let updated = JobRecord { status, elapsed: Some(elapsed), ..rec };
                self.jobs.insert(i, updated);
                proof {
                    assert(self.jobs@ =~= before.update(i as int, updated));
                }
            }
            i = i + 1;
        }
        proof {
            assert(self.jobs@ =~= jobs_after_update(orig, job_id, sid@, status, elapsed));
            assert forall|k: int| 0 <= k < self.jobs@.len() implies (#[trigger] self.jobs@[k]).started_at
                >= 0 by {
                assert(orig[k].started_at >= 0);
            }
        }
    }

    /// Sets the stored status of every repo with id `sid`.
    pub fn set_repo_status(&mut self, sid: &str, status: DeployStatus)
        requires
            old(self).wf(),
        ensures
            final(self).wf(),
            final(self).jobs == old(self).jobs,
            final(self).repos@ == repos_after_status(old(self).repos@, sid@, status),
    {
        let ghost orig = self.repos@;
        let n = self.repos.len();
        let mut i: usize = 0;
        while i < n
            invariant
                0 <= i <= n,
                n == orig.len(),
                self.repos@.len() == n,
                self.jobs == old(self).jobs,
                repo_ids_unique(orig),
                forall|k: int|
                    0 <= k < i ==> self.repos@[k] == repos_after_status(orig, sid@, status)[k],
                forall|k: int| i <= k < n ==> self.repos@[k] == orig[k],
            decreases n - i,
        {
            if str_eq(self.repos[i].id.as_str(), sid) {
                let ghost before = self.repos@;
                let rec = self.repos.remove(i);
                let updated = RepoRecord { status, ..rec };
                self.repos.insert(i, updated);
                proof {
                    assert(self.repos@ =~= before.update(i as int, updated));
                }
            }
            i = i + 1;
        }
        proof {
            assert(self.repos@ =~= repos_after_status(orig, sid@, status));
            assert forall|i: int, j: int| 0 <= i < j < self.repos@.len() implies (
            #[trigger] self.repos@[i]).id@ != (#[trigger] self.repos@[j]).id@ by {
                assert(self.repos@[i].id@ == orig[i].id@);
                assert(self.repos@[j].id@ == orig[j].id@);
            }
        }
    }

    /// Renames every repo with id `sid`.
    pub fn rename_repo(&mut self, sid: &str, name: &String)
        requires
            old(self).wf(),
        ensures
            final(self).wf(),
            final(self).jobs == old(self).jobs,
            final(self).repos@.len() == old(self).repos@.len(),
            forall|k: int|
                0 <= k < final(self).repos@.len() ==> if old(self).repos@[k].id@ == sid@ {
                    (#[trigger] final(self).repos@[k]).id == old(self).repos@[k].id
                        && final(self).repos@[k].name@ == name@
                        && final(self).repos@[k].status == old(self).repos@[k].status
                        && final(self).repos@[k].message_id == old(self).repos@[k].message_id
                } else {
                    final(self).repos@[k] == old(self).repos@[k]
                },
    {
        let ghost orig = self.repos@;
        let n = self.repos.len();
        let mut i: usize = 0;
        while i < n
            invariant
                0 <= i <= n,
                n == orig.len(),
                self.repos@.len() == n,
                self.jobs == old(self).jobs,
                repo_ids_unique(orig),
                forall|k: int|
                    0 <= k < i ==> if orig[k].id@ == sid@ {
                        (#[trigger] self.repos@[k]).id == orig[k].id && self.repos@[k].name@
                            == name@ && self.repos@[k].status == orig[k].status
                            && self.repos@[k].message_id == orig[k].message_id
                    } else {
                        self.repos@[k] == orig[k]
                    },
                forall|k: int| i <= k < n ==> self.repos@[k] == orig[k],
            decreases n - i,
        {
            if str_eq(self.repos[i].id.as_str(), sid) {
                let ghost before = self.repos@;
                let rec = self.repos.remove(i);
                let updated = RepoRecord { name: name.clone(), ..rec };
                self.repos.insert(i, updated);
                proof {
                    assert(self.repos@ =~= before.update(i as int, updated));
                }
            }
            i = i + 1;
        }
        proof {
            assert forall|i: int, j: int| 0 <= i < j < self.repos@.len() implies (
            #[trigger] self.repos@[i]).id@ != (#[trigger] self.repos@[j]).id@ by {
                assert(self.repos@[i].id@ == orig[i].id@);
                assert(self.repos@[j].id@ == orig[j].id@);
            }
        }
    }

    /// Deletes every repo with id `sid`.
    pub fn delete_repos_by_id(&mut self, sid: &str)
        requires
            old(self).wf(),
        ensures
            final(self).wf(),
            final(self).jobs == old(self).jobs,
            final(self).repos@ == repos_without_id(old(self).repos@, sid@),
    {
        let ghost orig = self.repos@;
        let n = self.repos.len();
        let mut out: Vec<RepoRecord> = Vec::new();
        let mut i: usize = 0;
        while i < n
            invariant
                0 <= i <= n,
                n == self.repos@.len(),
                self.repos@ == orig,
                out@ == repos_without_id(orig.take(i as int), sid@),
            decreases n - i,
        {
            proof {
                assert(orig.take(i as int + 1).drop_last() =~= orig.take(i as int));
                assert(orig.take(i as int + 1).last() == orig[i as int]);
            }
            if !str_eq(self.repos[i].id.as_str(), sid) {
                out.push(self.repos[i].duplicate());
            }
            i = i + 1;
        }
        proof {
            assert(orig.take(n as int) =~= orig);
        }
        self.repos = out;
        proof {
            lemma_without_id_unique(orig, sid@);
        }
    }

    /// Deletes every repo bound to chat `chat`: the reset command.
    pub fn delete_repos_by_chat(&mut self, chat: i64)
        requires
            old(self).wf(),
        ensures
            final(self).wf(),
            final(self).jobs == old(self).jobs,
            final(self).repos@ == repos_without_chat(old(self).repos@, chat),
    {
        let ghost orig = self.repos@;
        let n = self.repos.len();
        let mut out: Vec<RepoRecord> = Vec::new();
        let mut i: usize = 0;
        while i < n
            invariant
                0 <= i <= n,
                n == self.repos@.len(),
                self.repos@ == orig,
                out@ == repos_without_chat(orig.take(i as int), chat),
            decreases n - i,
        {
            proof {
                assert(orig.take(i as int + 1).drop_last() =~= orig.take(i as int));
                assert(orig.take(i as int + 1).last() == orig[i as int]);
            }
            if self.repos[i].message_id != chat {
                out.push(self.repos[i].duplicate());
            }
            i = i + 1;
        }
        proof {
            assert(orig.take(n as int) =~= orig);
        }
        self.repos = out;
        proof {
            lemma_without_chat_unique(orig, chat);
        }
    }
}

} // verus!
