//! The per-chat dialogue state machine.
//!
//! Each chat holds one `BotState`, persisted by the surrounding binary
//! and mutated only here.  A handler takes the current state's data,
//! the store and the parsed command, and returns the next state (when
//! it changes) together with the chat actions to perform.  State
//! transitions are computed only after the store mutation they depend
//! on has succeeded, so a store failure leaves the conversation where
//! it was.

use vstd::prelude::*;
use vstd::string::StringExecFns;

use crate::command::{GeneralCommand, RepoCommand};
use crate::error::{DbError, ServiceError};
use crate::status::DeployStatus;
use crate::store::{
    has_repo, repos_without_chat, repos_without_id, JobRecord, RepoRecord, Store,
};
use crate::text::{int_str, str_eq};
use crate::token::token_like;

verus! {

/// The conversational state of one chat.
#[derive(Debug, Clone, PartialEq)]
pub enum BotState {
    /// Nothing configured yet; the first message triggers the welcome.
    Start,
    /// A repo is selected: its token, beside the chat's repo set.
    ConfigMode(Vec<String>, String),
    /// The chat is configuring its repo set.
    NormalMode(Vec<String>),
}

/// One chat-side effect a handler asks the transport to perform.
#[derive(Debug, Clone, PartialEq)]
pub enum ChatAction {
    /// Send this text to the chat.
    SendMessage(String),
    /// Show the command menu button.
    SetCommandMenu,
}

/// Whether the action list is a single message with the given text.
pub open spec fn one_message(acts: Seq<ChatAction>, text: Seq<char>) -> bool {
    &&& acts.len() == 1
    &&& acts[0] matches ChatAction::SendMessage(m) && m@ == text
}

/// Whether the action list is exactly two messages with the given
/// texts.
pub open spec fn two_messages(acts: Seq<ChatAction>, t1: Seq<char>, t2: Seq<char>) -> bool {
    &&& acts.len() == 2
    &&& acts[0] matches ChatAction::SendMessage(m1) && m1@ == t1
    &&& acts[1] matches ChatAction::SendMessage(m2) && m2@ == t2
}

/// Whether `id` is one of the chat's configured repo ids.
pub open spec fn id_in(ids: Seq<String>, id: Seq<char>) -> bool {
    exists|k: int| 0 <= k < ids.len() && (#[trigger] ids[k])@ == id
}

/// The chat's repo set without `key`.
pub open spec fn ids_without(ids: Seq<String>, key: Seq<char>) -> Seq<String>
    decreases ids.len(),
{
    if ids.len() == 0 {
        Seq::empty()
    } else {
        let rest = ids_without(ids.drop_last(), key);
        if ids.last()@ == key {
            rest
        } else {
            rest.push(ids.last())
        }
    }
}

/// One line of a repo listing.
pub open spec fn repo_line(r: RepoRecord) -> Seq<char> {
    r.name@ + ": "@ + r.id@ + "\n"@
}

/// One line of a job listing.
pub open spec fn job_line(j: JobRecord) -> Seq<char> {
    "job "@ + int_str(j.id as int) + ": "@ + j.status.code_spec() + "\n"@
}

/// The listing of the chat's configured repos, in store order.
pub open spec fn list_report(repos: Seq<RepoRecord>, ids: Seq<String>) -> Seq<char>
    decreases repos.len(),
{
    if repos.len() == 0 {
        Seq::empty()
    } else {
        let rest = list_report(repos.drop_last(), ids);
        if id_in(ids, repos.last().id@) {
            rest + repo_line(repos.last())
        } else {
            rest
        }
    }
}

/// The listing of the chat's jobs created at or after `since`.
pub open spec fn today_set_report(jobs: Seq<JobRecord>, ids: Seq<String>, since: int) -> Seq<char>
    decreases jobs.len(),
{
    if jobs.len() == 0 {
        Seq::empty()
    } else {
        let rest = today_set_report(jobs.drop_last(), ids, since);
        if id_in(ids, jobs.last().repo_id@) && jobs.last().started_at >= since {
            rest + job_line(jobs.last())
        } else {
            rest
        }
    }
}

/// The listing of one repo's jobs created at or after `since`.
pub open spec fn today_repo_report(jobs: Seq<JobRecord>, key: Seq<char>, since: int) -> Seq<char>
    decreases jobs.len(),
{
    if jobs.len() == 0 {
        Seq::empty()
    } else {
        let rest = today_repo_report(jobs.drop_last(), key, since);
        if jobs.last().repo_id@ == key && jobs.last().started_at >= since {
            rest + job_line(jobs.last())
        } else {
            rest
        }
    }
}

/// The listing of one repo's running jobs.
pub open spec fn running_report(jobs: Seq<JobRecord>, key: Seq<char>) -> Seq<char>
    decreases jobs.len(),
{
    if jobs.len() == 0 {
        Seq::empty()
    } else {
        let rest = running_report(jobs.drop_last(), key);
        if jobs.last().repo_id@ == key && jobs.last().status == DeployStatus::Running {
            rest + job_line(jobs.last())
        } else {
            rest
        }
    }
}

/// The first second of the day `now` falls in.
pub open spec fn day_start(now: int) -> int {
    now - (now % 86400)
}

/// Computes the first second of the current day.
pub fn day_start_exec(now: i64) -> (r: i64)
    requires
        now >= 0,
    ensures
        r == day_start(now as int),
        0 <= r <= now,
{
    now - now % 86400
}

/// Whether `id` is one of the chat's configured repo ids.
fn ids_contain(ids: &Vec<String>, id: &str) -> (r: bool)
    ensures
        r == id_in(ids@, id@),
{
    let n = ids.len();
    let mut i: usize = 0;
    while i < n
        invariant
            0 <= i <= n,
            n == ids@.len(),
            forall|k: int| 0 <= k < i ==> (#[trigger] ids@[k])@ != id@,
        decreases n - i,
    {
        if str_eq(ids[i].as_str(), id) {
            return true;
        }
        i = i + 1;
    }
    false
}

/// Renders one line of a repo listing.
fn render_repo_line(r: &RepoRecord) -> (out: String)
    ensures
        out@ == repo_line(*r),
{
    let mut s = r.name.clone();
    s.append(": ");
    s.append(r.id.as_str());
    s.append("\n");
    proof {
        assert(s@ =~= repo_line(*r));
    }
    s
}

/// Renders one line of a job listing.
fn render_job_line(j: &JobRecord) -> (out: String)
    ensures
        out@ == job_line(*j),
{
    let mut s = "job ".to_owned();
    let num = crate::text::i64_to_string(j.id as i64);
    s.append(num.as_str());
    s.append(": ");
    let code = j.status.code_string();
    s.append(code.as_str());
    s.append("\n");
    proof {
        assert(s@ =~= job_line(*j));
    }
    s
}

/// Builds the listing of the chat's configured repos.
fn build_list_report(repos: &Vec<RepoRecord>, ids: &Vec<String>) -> (out: String)
    ensures
        out@ == list_report(repos@, ids@),
{
    let n = repos.len();
    let mut out = String::new();
    let mut i: usize = 0;
    while i < n
        invariant
            0 <= i <= n,
            n == repos@.len(),
            out@ == list_report(repos@.take(i as int), ids@),
        decreases n - i,
    {
        proof {
            assert(repos@.take(i as int + 1).drop_last() =~= repos@.take(i as int));
            assert(repos@.take(i as int + 1).last() == repos@[i as int]);
        }
        if ids_contain(ids, repos[i].id.as_str()) {
            let line = render_repo_line(&repos[i]);
            out.append(line.as_str());
        }
        i = i + 1;
    }
    proof {
        assert(repos@.take(n as int) =~= repos@);
    }
    out
}

/// Builds the listing of the chat's jobs created at or after `since`.
fn build_today_set_report(jobs: &Vec<JobRecord>, ids: &Vec<String>, since: i64) -> (out: String)
    ensures
        out@ == today_set_report(jobs@, ids@, since as int),
{
    let n = jobs.len();
    let mut out = String::new();
    let mut i: usize = 0;
    while i < n
        invariant
            0 <= i <= n,
            n == jobs@.len(),
            out@ == today_set_report(jobs@.take(i as int), ids@, since as int),
        decreases n - i,
    {
        proof {
            assert(jobs@.take(i as int + 1).drop_last() =~= jobs@.take(i as int));
            assert(jobs@.take(i as int + 1).last() == jobs@[i as int]);
        }
        if jobs[i].started_at >= since && ids_contain(ids, jobs[i].repo_id.as_str()) {
            let line = render_job_line(&jobs[i]);
            out.append(line.as_str());
        }
        i = i + 1;
    }
    proof {
        assert(jobs@.take(n as int) =~= jobs@);
    }
    out
}

/// Builds the listing of one repo's jobs created at or after `since`.
fn build_today_repo_report(jobs: &Vec<JobRecord>, key: &str, since: i64) -> (out: String)
    ensures
        out@ == today_repo_report(jobs@, key@, since as int),
{
    let n = jobs.len();
    let mut out = String::new();
    let mut i: usize = 0;
    while i < n
        invariant
            0 <= i <= n,
            n == jobs@.len(),
            out@ == today_repo_report(jobs@.take(i as int), key@, since as int),
        decreases n - i,
    {
        proof {
            assert(jobs@.take(i as int + 1).drop_last() =~= jobs@.take(i as int));
            assert(jobs@.take(i as int + 1).last() == jobs@[i as int]);
        }
        if jobs[i].started_at >= since && str_eq(jobs[i].repo_id.as_str(), key) {
            let line = render_job_line(&jobs[i]);
            out.append(line.as_str());
        }
        i = i + 1;
    }
    proof {
        assert(jobs@.take(n as int) =~= jobs@);
    }
    out
}

/// Builds the listing of one repo's running jobs.
fn build_running_report(jobs: &Vec<JobRecord>, key: &str) -> (out: String)
    ensures
        out@ == running_report(jobs@, key@),
{
    let n = jobs.len();
    let mut out = String::new();
    let mut i: usize = 0;
    while i < n
        invariant
            0 <= i <= n,
            n == jobs@.len(),
            out@ == running_report(jobs@.take(i as int), key@),
        decreases n - i,
    {
        proof {
            assert(jobs@.take(i as int + 1).drop_last() =~= jobs@.take(i as int));
            assert(jobs@.take(i as int + 1).last() == jobs@[i as int]);
        }
        let running = matches!(jobs[i].status, DeployStatus::Running);
        if running && str_eq(jobs[i].repo_id.as_str(), key) {
            let line = render_job_line(&jobs[i]);
            out.append(line.as_str());
        }
        i = i + 1;
    }
    proof {
        assert(jobs@.take(n as int) =~= jobs@);
    }
    out
}

/// Copies the chat's repo set without `key`.
fn remove_id(ids: &Vec<String>, key: &str) -> (out: Vec<String>)
    ensures
        out@ == ids_without(ids@, key@),
{
    let n = ids.len();
    let mut out: Vec<String> = Vec::new();
    let mut i: usize = 0;
    while i < n
        invariant
            0 <= i <= n,
            n == ids@.len(),
            out@ == ids_without(ids@.take(i as int), key@),
        decreases n - i,
    {
        proof {
            assert(ids@.take(i as int + 1).drop_last() =~= ids@.take(i as int));
            assert(ids@.take(i as int + 1).last() == ids@[i as int]);
        }
        if !str_eq(ids[i].as_str(), key) {
            out.push(ids[i].clone());
        }
        i = i + 1;
    }
    proof {
        assert(ids@.take(n as int) =~= ids@);
    }
    out
}

/// Whether `li` is the index of the repo's most recent job: the
/// earliest index carrying the greatest creation time.
pub open spec fn latest_job_index(jobs: Seq<JobRecord>, key: Seq<char>, li: int) -> bool {
    &&& 0 <= li < jobs.len()
    &&& jobs[li].repo_id@ == key
    &&& forall|k: int|
        0 <= k < jobs.len() && (#[trigger] jobs[k]).repo_id@ == key ==> jobs[k].started_at
            <= jobs[li].started_at
    &&& forall|k: int|
        0 <= k < li && (#[trigger] jobs[k]).repo_id@ == key ==> jobs[k].started_at
            < jobs[li].started_at
}

/// The index of the repo's most recent job, earliest such index on
/// ties.
fn find_latest_job(jobs: &Vec<JobRecord>, key: &str) -> (r: Option<usize>)
    ensures
        match r {
            Some(i) => latest_job_index(jobs@, key@, i as int),
            None => forall|k: int| 0 <= k < jobs@.len() ==> (#[trigger] jobs@[k]).repo_id@ != key@,
        },
{
    let n = jobs.len();
    let mut best: Option<usize> = None;
    let mut i: usize = 0;
    while i < n
        invariant
            0 <= i <= n,
            n == jobs@.len(),
            match best {
                Some(b) => b < i && jobs@[b as int].repo_id@ == key@ && (forall|k: int|
                    0 <= k < i && (#[trigger] jobs@[k]).repo_id@ == key@ ==> jobs@[k].started_at
                        <= jobs@[b as int].started_at) && (forall|k: int|
                    0 <= k < b && (#[trigger] jobs@[k]).repo_id@ == key@ ==> jobs@[k].started_at
                        < jobs@[b as int].started_at),
                None => forall|k: int| 0 <= k < i ==> (#[trigger] jobs@[k]).repo_id@ != key@,
            },
        decreases n - i,
    {
        if str_eq(jobs[i].repo_id.as_str(), key) {
            match best {
                Some(b) => {
                    if jobs[i].started_at > jobs[b].started_at {
                        best = Some(i);
                    }
                },
                None => {
                    best = Some(i);
                },
            }
        }
        i = i + 1;
    }
    best
}

/// The help text of the configuring vocabulary.
pub open spec fn general_help_spec() -> Seq<char> {
    "These commands are supported:\n/help - display this text.\n/list - display all configured repos.\n/today - display all jobs that was created today.\n/create <repo_name> - create new repo.\n/select_repo <index> - select repo for manipulation by index.\n/reset - reset all state."@
}

/// The help text of the repo-selected vocabulary.
pub open spec fn repo_help_spec() -> Seq<char> {
    "These commands are supported:\n/help - display this text.\n/get_info - display current repo info.\n/today - display all jobs that was created today for current repo.\n/running - display all running jobs for current repo.\n/latest - get latest jobs created for this repo.\n/rename <name> - rename current repo.\n/delete - delete selected repo.\n/cancel - deselect current repo."@
}

/// Renders the help text of the configuring vocabulary.
pub fn general_help_text() -> (r: String)
    ensures
        r@ == general_help_spec(),
{
    "These commands are supported:\n/help - display this text.\n/list - display all configured repos.\n/today - display all jobs that was created today.\n/create <repo_name> - create new repo.\n/select_repo <index> - select repo for manipulation by index.\n/reset - reset all state.".to_owned()
}

/// Renders the help text of the repo-selected vocabulary.
pub fn repo_help_text() -> (r: String)
    ensures
        r@ == repo_help_spec(),
{
    "These commands are supported:\n/help - display this text.\n/get_info - display current repo info.\n/today - display all jobs that was created today for current repo.\n/running - display all running jobs for current repo.\n/latest - get latest jobs created for this repo.\n/rename <name> - rename current repo.\n/delete - delete selected repo.\n/cancel - deselect current repo.".to_owned()
}

/// The first interaction of a chat: the welcome prompt, the command
/// menu, and the transition to the configuring state with an empty
/// repo set.
pub fn start() -> (r: (BotState, Vec<ChatAction>))
    ensures
        r.0 matches BotState::NormalMode(v) && v@.len() == 0,
        r.1@.len() == 2,
        r.1@[0] matches ChatAction::SendMessage(m) && m@
            == "Let's start by configuring your first repo. Type /help for more info"@,
        r.1@[1] is SetCommandMenu,
{
    let mut acts: Vec<ChatAction> = Vec::new();
    acts.push(
        ChatAction::SendMessage(
            "Let's start by configuring your first repo. Type /help for more info".to_owned(),
        ),
    );
    acts.push(ChatAction::SetCommandMenu);
    (BotState::NormalMode(Vec::new()), acts)
}

/// The reply to text that is no command of the current vocabulary; the
/// state never changes.
pub fn invalid_command() -> (r: String)
    ensures
        r@ == "Invalid command. see /help for more info."@,
{
    "Invalid command. see /help for more info.".to_owned()
}

/// Handles a command of the configuring vocabulary: queries are
/// read-only, create inserts the repo before the state gains its
/// token, select moves to the repo-selected state, and reset deletes
/// the chat's repos before returning to the start state.
#[verifier::rlimit(80)]
pub fn normal_mode_handler(
    store: &mut Store,
    repos: Vec<String>,
    chat_id: i64,
    now: i64,
    cmd: GeneralCommand,
) -> (r: Result<(Option<BotState>, Vec<ChatAction>), ServiceError>)
    requires
        old(store).wf(),
        now >= 0,
    ensures
        final(store).wf(),
        match cmd {
            GeneralCommand::Help => r matches Ok((st, acts)) && *final(store) == *old(store)
                && st is None && one_message(acts@, general_help_spec()),
            GeneralCommand::List => r matches Ok((st, acts)) && *final(store) == *old(store)
                && st is None && one_message(
                acts@,
                if list_report(old(store).repos@, repos@).len() == 0 {
                    "No repo configured. Type /help to get started."@
                } else {
                    list_report(old(store).repos@, repos@)
                },
            ),
            GeneralCommand::Today => r matches Ok((st, acts)) && *final(store) == *old(store)
                && st is None && one_message(
                acts@,
                if today_set_report(old(store).jobs@, repos@, day_start(now as int)).len() == 0 {
                    "No running job today. Start running job to see them here."@
                } else {
                    today_set_report(old(store).jobs@, repos@, day_start(now as int))
                },
            ),
            GeneralCommand::Create(name) => match r {
                Ok((st, acts)) => exists|rec: RepoRecord|
                    {
                        &&& #[trigger] token_like(rec.id@)
                        &&& !has_repo(old(store).repos@, rec.id@)
                        &&& rec.name == name
                        &&& rec.status == DeployStatus::Running
                        &&& rec.message_id == chat_id
                        &&& final(store).repos@ == old(store).repos@.push(rec)
                        &&& final(store).jobs == old(store).jobs
                        &&& st matches Some(b) && b matches BotState::NormalMode(v) && v@ == repos@.push(rec.id)
                        &&& two_messages(
                            acts@,
                            "Successfully added repo: "@ + name@,
                            "key: "@ + rec.id@,
                        )
                    },
                Err(e) => *final(store) == *old(store) && e matches ServiceError::Sqlx(
                    DbError::Database { .. },
                ),
            },
            GeneralCommand::SelectRepo(ix) => match r {
                Ok((st, acts)) => if 1 <= ix && ix <= repos@.len() {
                    &&& *final(store) == *old(store)
                    &&& exists|ri: int|
                        0 <= ri < old(store).repos@.len() && (#[trigger] old(store).repos@[ri]).id@
                            == repos@[ix - 1]@ && one_message(
                            acts@,
                            "Selecting repo name: "@ + old(store).repos@[ri].name@,
                        )
                    &&& st matches Some(b) && b matches BotState::ConfigMode(v, key) && v@ == repos@
                        && key@ == repos@[ix - 1]@
                } else {
                    &&& *final(store) == *old(store)
                    &&& st is None
                    &&& one_message(acts@, "Requested repo does not exists."@)
                },
                Err(e) => 1 <= ix <= repos@.len() && !has_repo(old(store).repos@, repos@[ix - 1]@)
                    && *final(store) == *old(store) && e == ServiceError::Sqlx(DbError::RowNotFound),
            },
            GeneralCommand::Reset => r matches Ok((st, acts)) && final(store).repos@
                == repos_without_chat(old(store).repos@, chat_id) && final(store).jobs == old(
                store,
            ).jobs && st == Some(BotState::Start) && one_message(
                acts@,
                "[DEBUG] Successfully reset all state"@,
            ),
        },
{
    match cmd {
        GeneralCommand::Help => {
            let mut acts: Vec<ChatAction> = Vec::new();
            acts.push(ChatAction::SendMessage(general_help_text()));
            Ok((None, acts))
        },
        GeneralCommand::List => {
            let report = build_list_report(&store.repos, &repos);
            let text = if report.as_str().is_empty() {
                "No repo configured. Type /help to get started.".to_owned()
            } else {
                report
            };
            let mut acts: Vec<ChatAction> = Vec::new();
            acts.push(ChatAction::SendMessage(text));
            Ok((None, acts))
        },
        GeneralCommand::Today => {
            let since = day_start_exec(now);
            let report = build_today_set_report(&store.jobs, &repos, since);
            let text = if report.as_str().is_empty() {
                "No running job today. Start running job to see them here.".to_owned()
            } else {
                report
            };
            let mut acts: Vec<ChatAction> = Vec::new();
            acts.push(ChatAction::SendMessage(text));
            Ok((None, acts))
        },
        GeneralCommand::Create(name) => {
            let token = crate::token::new_repo_token();
            proof {
                crate::token::lemma_lower_hex_token(token@);
            }
            let rec = RepoRecord {
                id: token.clone(),
                name: name.clone(),
                status: DeployStatus::Running,
                message_id: chat_id,
            };
            let ghost grec = rec;
            match store.insert_repo(rec) {
                Ok(()) => {
                    let mut msg1 = "Successfully added repo: ".to_owned();
                    msg1.append(name.as_str());
                    let mut msg2 = "key: ".to_owned();
                    msg2.append(token.as_str());
                    let mut acts: Vec<ChatAction> = Vec::new();
                    acts.push(ChatAction::SendMessage(msg1));
                    acts.push(ChatAction::SendMessage(msg2));
                    let mut v = repos;
                    v.push(token);
                    proof {
                        assert(token_like(grec.id@));
                    }
                    Ok((Some(BotState::NormalMode(v)), acts))
                },
                Err(e) => Err(e),
            }
        },
        GeneralCommand::SelectRepo(ix) => {
            if ix < 1 || ix > repos.len() {
                let mut acts: Vec<ChatAction> = Vec::new();
                acts.push(ChatAction::SendMessage("Requested repo does not exists.".to_owned()));
                Ok((None, acts))
            } else {
                match store.find_repo(repos[ix - 1].as_str()) {
                    Some(ri) => {
                        let mut msg = "Selecting repo name: ".to_owned();
                        msg.append(store.repos[ri].name.as_str());
                        let key = store.repos[ri].id.clone();
                        let mut acts: Vec<ChatAction> = Vec::new();
                        acts.push(ChatAction::SendMessage(msg));
                        Ok((Some(BotState::ConfigMode(repos, key)), acts))
                    },
                    None => Err(ServiceError::Sqlx(DbError::RowNotFound)),
                }
            }
        },
        GeneralCommand::Reset => {
            store.delete_repos_by_chat(chat_id);
            let mut acts: Vec<ChatAction> = Vec::new();
            acts.push(
                ChatAction::SendMessage("[DEBUG] Successfully reset all state".to_owned()),
            );
            Ok((Some(BotState::Start), acts))
        },
    }
}

/// Handles a command of the repo-selected vocabulary: queries are
/// read-only, rename and delete mutate the store before the reply and
/// the state transition, and cancel returns to the configuring state
/// without touching the store.
#[verifier::rlimit(80)]
pub fn config_mode_handler(
    store: &mut Store,
    repos: Vec<String>,
    repo_key: String,
    now: i64,
    cmd: RepoCommand,
) -> (r: Result<(Option<BotState>, Vec<ChatAction>), ServiceError>)
    requires
        old(store).wf(),
        now >= 0,
    ensures
        final(store).wf(),
        match cmd {
            RepoCommand::Help => r matches Ok((st, acts)) && *final(store) == *old(store)
                && st is None && one_message(acts@, repo_help_spec()),
            RepoCommand::GetInfo => match r {
                Ok((st, acts)) => *final(store) == *old(store) && st is None && exists|ri: int|
                    0 <= ri < old(store).repos@.len() && (#[trigger] old(store).repos@[ri]).id@
                        == repo_key@ && two_messages(
                        acts@,
                        "name: "@ + old(store).repos@[ri].name@,
                        "key: ||"@ + old(store).repos@[ri].id@ + "||"@,
                    ),
                Err(e) => !has_repo(old(store).repos@, repo_key@) && *final(store) == *old(store)
                    && e == ServiceError::Sqlx(DbError::RowNotFound),
            },
            RepoCommand::Today => r matches Ok((st, acts)) && *final(store) == *old(store)
                && st is None && one_message(
                acts@,
                if today_repo_report(old(store).jobs@, repo_key@, day_start(now as int)).len()
                    == 0 {
                    "No running job today. Start running job to see them here."@
                } else {
                    today_repo_report(old(store).jobs@, repo_key@, day_start(now as int))
                },
            ),
            RepoCommand::Running => r matches Ok((st, acts)) && *final(store) == *old(store)
                && st is None && one_message(
                acts@,
                if running_report(old(store).jobs@, repo_key@).len() == 0 {
                    "No running job configured. Start running job to see them here."@
                } else {
                    running_report(old(store).jobs@, repo_key@)
                },
            ),
            RepoCommand::Latest => {
                &&& r matches Ok((st, acts)) && st is None && (if (exists|k: int|
                    0 <= k < old(store).jobs@.len() && (#[trigger] old(store).jobs@[k]).repo_id@
                        == repo_key@) {
                    exists|li: int|
                        #[trigger] latest_job_index(old(store).jobs@, repo_key@, li)
                            && one_message(acts@, job_line(old(store).jobs@[li]))
                } else {
                    one_message(
                        acts@,
                        "No latest running job. Start running job to see them here."@,
                    )
                })
                &&& *final(store) == *old(store)
            },
            RepoCommand::Rename(new_name) => {
                &&& r matches Ok((st, acts)) && st is None && one_message(
                    acts@,
                    "Successfully updated repo name"@,
                )
                &&& final(store).jobs == old(store).jobs
                &&& final(store).repos@.len() == old(store).repos@.len()
                &&& forall|k: int|
                    0 <= k < final(store).repos@.len() ==> if (#[trigger] old(store).repos@[k]).id@
                        == repo_key@ {
                        final(store).repos@[k].id == old(store).repos@[k].id
                            && final(store).repos@[k].name@ == new_name@
                            && final(store).repos@[k].status == old(store).repos@[k].status
                            && final(store).repos@[k].message_id == old(store).repos@[k].message_id
                    } else {
                        final(store).repos@[k] == old(store).repos@[k]
                    }
            },
            RepoCommand::Delete => {
                &&& r matches Ok((st, acts)) && st matches Some(b) && b matches BotState::NormalMode(
                    v,
                ) && v@ == ids_without(repos@, repo_key@) && one_message(
                    acts@,
                    "Successfully deleted repo."@,
                )
                &&& final(store).repos@ == repos_without_id(old(store).repos@, repo_key@)
                &&& final(store).jobs == old(store).jobs
            },
            RepoCommand::Cancel => {
                &&& r matches Ok((st, acts)) && st matches Some(b) && b matches BotState::NormalMode(
                    v,
                ) && v@ == repos@ && acts@.len() == 1 && acts@[0] is SetCommandMenu
                &&& *final(store) == *old(store)
            },
        },
{
    match cmd {
        RepoCommand::Help => {
            let mut acts: Vec<ChatAction> = Vec::new();
            acts.push(ChatAction::SendMessage(repo_help_text()));
            Ok((None, acts))
        },
        RepoCommand::GetInfo => {
            match store.find_repo(repo_key.as_str()) {
                Some(ri) => {
                    let mut msg1 = "name: ".to_owned();
                    msg1.append(store.repos[ri].name.as_str());
                    let mut msg2 = "key: ||".to_owned();
                    msg2.append(store.repos[ri].id.as_str());
                    msg2.append("||");
                    let mut acts: Vec<ChatAction> = Vec::new();
                    acts.push(ChatAction::SendMessage(msg1));
                    acts.push(ChatAction::SendMessage(msg2));
                    Ok((None, acts))
                },
                None => Err(ServiceError::Sqlx(DbError::RowNotFound)),
            }
        },
        RepoCommand::Today => {
            let since = day_start_exec(now);
            let report = build_today_repo_report(&store.jobs, repo_key.as_str(), since);
            let text = if report.as_str().is_empty() {
                "No running job today. Start running job to see them here.".to_owned()
            } else {
                report
            };
            let mut acts: Vec<ChatAction> = Vec::new();
            acts.push(ChatAction::SendMessage(text));
            Ok((None, acts))
        },
        RepoCommand::Running => {
            let report = build_running_report(&store.jobs, repo_key.as_str());
            let text = if report.as_str().is_empty() {
                "No running job configured. Start running job to see them here.".to_owned()
            } else {
                report
            };
            let mut acts: Vec<ChatAction> = Vec::new();
            acts.push(ChatAction::SendMessage(text));
            Ok((None, acts))
        },
        RepoCommand::Latest => {
            let text = match find_latest_job(&store.jobs, repo_key.as_str()) {
                Some(li) => render_job_line(&store.jobs[li]),
                None => "No latest running job. Start running job to see them here.".to_owned(),
            };
            let mut acts: Vec<ChatAction> = Vec::new();
            acts.push(ChatAction::SendMessage(text));
            Ok((None, acts))
        },
        RepoCommand::Rename(new_name) => {
            store.rename_repo(repo_key.as_str(), &new_name);
            let mut acts: Vec<ChatAction> = Vec::new();
            acts.push(ChatAction::SendMessage("Successfully updated repo name".to_owned()));
            Ok((None, acts))
        },
        RepoCommand::Delete => {
            store.delete_repos_by_id(repo_key.as_str());
            let v = remove_id(&repos, repo_key.as_str());
            let mut acts: Vec<ChatAction> = Vec::new();
            acts.push(ChatAction::SendMessage("Successfully deleted repo.".to_owned()));
            Ok((Some(BotState::NormalMode(v)), acts))
        },
        RepoCommand::Cancel => {
            let mut acts: Vec<ChatAction> = Vec::new();
            acts.push(ChatAction::SetCommandMenu);
            Ok((Some(BotState::NormalMode(repos)), acts))
        },
    }
}

} // verus!
