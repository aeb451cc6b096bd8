use ci_relay::command::{parse_general_command, parse_repo_command, GeneralCommand, RepoCommand};
use ci_relay::dialogue::{
    config_mode_handler, invalid_command, normal_mode_handler, start, BotState, ChatAction,
};
use ci_relay::status::DeployStatus;
use ci_relay::store::{JobRecord, RepoRecord, Store};

const CHAT: i64 = 42;
const NOON: i64 = 1_700_000_000;

fn message_texts(acts: &[ChatAction]) -> Vec<String> {
    acts.iter()
        .filter_map(|a| match a {
            ChatAction::SendMessage(m) => Some(m.clone()),
            ChatAction::SetCommandMenu => None,
        })
        .collect()
}

#[test]
fn parse_general_keywords() {
    assert_eq!(parse_general_command("/help"), Some(GeneralCommand::Help));
    assert_eq!(parse_general_command("/list"), Some(GeneralCommand::List));
    assert_eq!(parse_general_command("/today"), Some(GeneralCommand::Today));
    assert_eq!(parse_general_command("/reset"), Some(GeneralCommand::Reset));
    assert_eq!(
        parse_general_command("/create Turbo Incubator Prototype"),
        Some(GeneralCommand::Create("Turbo Incubator Prototype".to_string()))
    );
    assert_eq!(parse_general_command("/select_repo 1"), Some(GeneralCommand::SelectRepo(1)));
    assert_eq!(parse_general_command("/select_repo 12"), Some(GeneralCommand::SelectRepo(12)));
}

#[test]
fn parse_general_rejects_malformed() {
    assert_eq!(parse_general_command(""), None);
    assert_eq!(parse_general_command("hello"), None);
    assert_eq!(parse_general_command("/create"), None);
    assert_eq!(parse_general_command("/select_repo"), None);
    assert_eq!(parse_general_command("/select_repo x"), None);
    assert_eq!(parse_general_command("/select_repo "), None);
    assert_eq!(parse_general_command("/help me"), None);
    assert_eq!(parse_general_command("/delete"), None);
}

#[test]
fn parse_repo_keywords() {
    assert_eq!(parse_repo_command("/help"), Some(RepoCommand::Help));
    assert_eq!(parse_repo_command("/get_info"), Some(RepoCommand::GetInfo));
    assert_eq!(parse_repo_command("/today"), Some(RepoCommand::Today));
    assert_eq!(parse_repo_command("/running"), Some(RepoCommand::Running));
    assert_eq!(parse_repo_command("/latest"), Some(RepoCommand::Latest));
    assert_eq!(parse_repo_command("/delete"), Some(RepoCommand::Delete));
    assert_eq!(parse_repo_command("/cancel"), Some(RepoCommand::Cancel));
    assert_eq!(
        parse_repo_command("/rename New Name"),
        Some(RepoCommand::Rename("New Name".to_string()))
    );
    assert_eq!(parse_repo_command("/rename"), None);
    assert_eq!(parse_repo_command("/list"), None);
}

#[test]
fn start_welcomes_and_enters_configuring_state() {
    let (state, acts) = start();
    assert_eq!(state, BotState::NormalMode(vec![]));
    assert_eq!(acts.len(), 2);
    assert_eq!(
        acts[0],
        ChatAction::SendMessage(
            "Let's start by configuring your first repo. Type /help for more info".to_string()
        )
    );
    assert_eq!(acts[1], ChatAction::SetCommandMenu);
}

#[test]
fn invalid_command_reply() {
    assert_eq!(invalid_command(), "Invalid command. see /help for more info.");
}

#[test]
fn dialogue_scenario_create_select_out_of_range() {
    let mut store = Store::new();

    // chat sends: create Foo
    let r = normal_mode_handler(
        &mut store,
        vec![],
        CHAT,
        NOON,
        GeneralCommand::Create("Foo".to_string()),
    )
    .unwrap();
    let (state, acts) = r;
    let texts = message_texts(&acts);
    assert_eq!(texts.len(), 2);
    assert!(texts[0].contains("Foo"), "reply should name the repo: {}", texts[0]);
    assert!(texts[1].starts_with("key: "));
    let token = texts[1]["key: ".len()..].to_string();
    assert_eq!(token.chars().count(), 32, "token has a fixed length");
    let repos = match state {
        Some(BotState::NormalMode(v)) => v,
        other => panic!("expected the configuring state, got {:?}", other),
    };
    assert_eq!(repos, vec![token.clone()]);
    assert_eq!(store.repos.len(), 1);
    assert_eq!(store.repos[0].id, token);
    assert_eq!(store.repos[0].name, "Foo");
    assert_eq!(store.repos[0].message_id, CHAT);

    // chat sends: select_repo 1
    let r = normal_mode_handler(
        &mut store,
        repos.clone(),
        CHAT,
        NOON,
        GeneralCommand::SelectRepo(1),
    )
    .unwrap();
    let (state, acts) = r;
    match state {
        Some(BotState::ConfigMode(v, key)) => {
            assert_eq!(v, repos);
            assert_eq!(key, token);
        }
        other => panic!("expected the selected state, got {:?}", other),
    }
    let texts = message_texts(&acts);
    assert_eq!(texts, vec![format!("Selecting repo name: Foo")]);

    // chat sends: select_repo 2 (out of range)
    let r = normal_mode_handler(
        &mut store,
        repos.clone(),
        CHAT,
        NOON,
        GeneralCommand::SelectRepo(2),
    )
    .unwrap();
    let (state, acts) = r;
    assert!(state.is_none(), "an out-of-range index changes no state");
    assert_eq!(message_texts(&acts), vec!["Requested repo does not exists.".to_string()]);
    assert_eq!(store.repos.len(), 1, "the store is untouched");
}

#[test]
fn select_repo_index_zero_is_out_of_range() {
    let mut store = Store::new();
    let r = normal_mode_handler(
        &mut store,
        vec!["0123456789abcdef0123456789abcdef".to_string()],
        CHAT,
        NOON,
        GeneralCommand::SelectRepo(0),
    )
    .unwrap();
    let (state, acts) = r;
    assert!(state.is_none());
    assert_eq!(message_texts(&acts), vec!["Requested repo does not exists.".to_string()]);
}

#[test]
fn list_reports_only_this_chats_repos() {
    let mut store = Store::new();
    store
        .insert_repo(RepoRecord {
            id: "a".repeat(32),
            name: "Mine".to_string(),
            status: DeployStatus::Running,
            message_id: CHAT,
        })
        .unwrap();
    store
        .insert_repo(RepoRecord {
            id: "b".repeat(32),
            name: "Other".to_string(),
            status: DeployStatus::Running,
            message_id: 7,
        })
        .unwrap();
    let (state, acts) = normal_mode_handler(
        &mut store,
        vec!["a".repeat(32)],
        CHAT,
        NOON,
        GeneralCommand::List,
    )
    .unwrap();
    assert!(state.is_none());
    assert_eq!(message_texts(&acts), vec![format!("Mine: {}\n", "a".repeat(32))]);
}

#[test]
fn list_with_no_repos_is_friendly() {
    let mut store = Store::new();
    let (_, acts) =
        normal_mode_handler(&mut store, vec![], CHAT, NOON, GeneralCommand::List).unwrap();
    assert_eq!(
        message_texts(&acts),
        vec!["No repo configured. Type /help to get started.".to_string()]
    );
}

#[test]
fn today_filters_by_day_boundary() {
    let mut store = Store::new();
    let id = "c".repeat(32);
    store
        .insert_repo(RepoRecord {
            id: id.clone(),
            name: "Foo".to_string(),
            status: DeployStatus::Running,
            message_id: CHAT,
        })
        .unwrap();
    let day_start = NOON - NOON % 86400;
    store.push_job(JobRecord {
        id: 1,
        status: DeployStatus::Success,
        triggered_by: None,
        description: None,
        callback_url: None,
        repo_id: id.clone(),
        started_at: day_start - 1,
        elapsed: Some(10),
    });
    store.push_job(JobRecord {
        id: 2,
        status: DeployStatus::Running,
        triggered_by: None,
        description: None,
        callback_url: None,
        repo_id: id.clone(),
        started_at: day_start,
        elapsed: None,
    });
    let (_, acts) =
        normal_mode_handler(&mut store, vec![id.clone()], CHAT, NOON, GeneralCommand::Today)
            .unwrap();
    assert_eq!(message_texts(&acts), vec!["job 2: RUNNING\n".to_string()]);

    let (_, acts) =
        config_mode_handler(&mut store, vec![id.clone()], id.clone(), NOON, RepoCommand::Today)
            .unwrap();
    assert_eq!(message_texts(&acts), vec!["job 2: RUNNING\n".to_string()]);
}

#[test]
fn reset_deletes_this_chats_repos_and_returns_to_start() {
    let mut store = Store::new();
    store
        .insert_repo(RepoRecord {
            id: "a".repeat(32),
            name: "Mine".to_string(),
            status: DeployStatus::Running,
            message_id: CHAT,
        })
        .unwrap();
    store
        .insert_repo(RepoRecord {
            id: "b".repeat(32),
            name: "Other".to_string(),
            status: DeployStatus::Running,
            message_id: 7,
        })
        .unwrap();
    let (state, acts) = normal_mode_handler(
        &mut store,
        vec!["a".repeat(32)],
        CHAT,
        NOON,
        GeneralCommand::Reset,
    )
    .unwrap();
    assert_eq!(state, Some(BotState::Start));
    assert_eq!(message_texts(&acts), vec!["[DEBUG] Successfully reset all state".to_string()]);
    assert_eq!(store.repos.len(), 1);
    assert_eq!(store.repos[0].name, "Other");
}

#[test]
fn get_info_reports_name_and_key() {
    let mut store = Store::new();
    let id = "d".repeat(32);
    store
        .insert_repo(RepoRecord {
            id: id.clone(),
            name: "Foo".to_string(),
            status: DeployStatus::Running,
            message_id: CHAT,
        })
        .unwrap();
    let (state, acts) =
        config_mode_handler(&mut store, vec![id.clone()], id.clone(), NOON, RepoCommand::GetInfo)
            .unwrap();
    assert!(state.is_none());
    assert_eq!(
        message_texts(&acts),
        vec!["name: Foo".to_string(), format!("key: ||{}||", id)]
    );
}

#[test]
fn rename_updates_the_repo_name() {
    let mut store = Store::new();
    let id = "e".repeat(32);
    store
        .insert_repo(RepoRecord {
            id: id.clone(),
            name: "Old".to_string(),
            status: DeployStatus::Running,
            message_id: CHAT,
        })
        .unwrap();
    let (state, acts) = config_mode_handler(
        &mut store,
        vec![id.clone()],
        id.clone(),
        NOON,
        RepoCommand::Rename("New".to_string()),
    )
    .unwrap();
    assert!(state.is_none());
    assert_eq!(message_texts(&acts), vec!["Successfully updated repo name".to_string()]);
    assert_eq!(store.repos[0].name, "New");
}

#[test]
fn delete_removes_repo_and_returns_to_configuring() {
    let mut store = Store::new();
    let id = "f".repeat(32);
    let other = "a".repeat(32);
    store
        .insert_repo(RepoRecord {
            id: id.clone(),
            name: "Doomed".to_string(),
            status: DeployStatus::Running,
            message_id: CHAT,
        })
        .unwrap();
    store
        .insert_repo(RepoRecord {
            id: other.clone(),
            name: "Kept".to_string(),
            status: DeployStatus::Running,
            message_id: CHAT,
        })
        .unwrap();
    let (state, acts) = config_mode_handler(
        &mut store,
        vec![id.clone(), other.clone()],
        id.clone(),
        NOON,
        RepoCommand::Delete,
    )
    .unwrap();
    assert_eq!(state, Some(BotState::NormalMode(vec![other.clone()])));
    assert_eq!(message_texts(&acts), vec!["Successfully deleted repo.".to_string()]);
    assert_eq!(store.repos.len(), 1);
    assert_eq!(store.repos[0].name, "Kept");
}

#[test]
fn cancel_keeps_store_and_returns_to_configuring() {
    let mut store = Store::new();
    let id = "1".repeat(32);
    let (state, acts) = config_mode_handler(
        &mut store,
        vec![id.clone()],
        id.clone(),
        NOON,
        RepoCommand::Cancel,
    )
    .unwrap();
    assert_eq!(state, Some(BotState::NormalMode(vec![id])));
    assert_eq!(acts, vec![ChatAction::SetCommandMenu]);
}

#[test]
fn latest_picks_most_recent_job() {
    let mut store = Store::new();
    let id = "2".repeat(32);
    store
        .insert_repo(RepoRecord {
            id: id.clone(),
            name: "Foo".to_string(),
            status: DeployStatus::Running,
            message_id: CHAT,
        })
        .unwrap();
    for (job_id, at, status) in [
        (1, 100, DeployStatus::Success),
        (3, 300, DeployStatus::Failure),
        (2, 200, DeployStatus::Success),
    ] {
        store.push_job(JobRecord {
            id: job_id,
            status,
            triggered_by: None,
            description: None,
            callback_url: None,
            repo_id: id.clone(),
            started_at: at,
            elapsed: Some(1),
        });
    }
    let (_, acts) =
        config_mode_handler(&mut store, vec![id.clone()], id.clone(), NOON, RepoCommand::Latest)
            .unwrap();
    assert_eq!(message_texts(&acts), vec!["job 3: FAILURE\n".to_string()]);
}

#[test]
fn latest_with_no_jobs_is_friendly() {
    let mut store = Store::new();
    let id = "3".repeat(32);
    let (_, acts) =
        config_mode_handler(&mut store, vec![id.clone()], id, NOON, RepoCommand::Latest).unwrap();
    assert_eq!(
        message_texts(&acts),
        vec!["No latest running job. Start running job to see them here.".to_string()]
    );
}

#[test]
fn running_lists_only_running_jobs() {
    let mut store = Store::new();
    let id = "4".repeat(32);
    store
        .insert_repo(RepoRecord {
            id: id.clone(),
            name: "Foo".to_string(),
            status: DeployStatus::Running,
            message_id: CHAT,
        })
        .unwrap();
    store.push_job(JobRecord {
        id: 7,
        status: DeployStatus::Running,
        triggered_by: None,
        description: None,
        callback_url: None,
        repo_id: id.clone(),
        started_at: 5,
        elapsed: None,
    });
    store.push_job(JobRecord {
        id: 8,
        status: DeployStatus::Success,
        triggered_by: None,
        description: None,
        callback_url: None,
        repo_id: id.clone(),
        started_at: 6,
        elapsed: Some(9),
    });
    let (_, acts) =
        config_mode_handler(&mut store, vec![id.clone()], id.clone(), NOON, RepoCommand::Running)
            .unwrap();
    assert_eq!(message_texts(&acts), vec!["job 7: RUNNING\n".to_string()]);

    let mut empty = Store::new();
    let (_, acts) = config_mode_handler(
        &mut empty,
        vec!["5".repeat(32)],
        "5".repeat(32),
        NOON,
        RepoCommand::Running,
    )
    .unwrap();
    assert_eq!(
        message_texts(&acts),
        vec!["No running job configured. Start running job to see them here.".to_string()]
    );
}

#[test]
fn help_texts_list_the_vocabulary() {
    let mut store = Store::new();
    let (_, acts) =
        normal_mode_handler(&mut store, vec![], CHAT, NOON, GeneralCommand::Help).unwrap();
    let texts = message_texts(&acts);
    assert!(texts[0].contains("/select_repo"));
    let (_, acts) = config_mode_handler(
        &mut store,
        vec![],
        "6".repeat(32),
        NOON,
        RepoCommand::Help,
    )
    .unwrap();
    let texts = message_texts(&acts);
    assert!(texts[0].contains("/rename"));
}
