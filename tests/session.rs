use git_snapshot::answer::{is_yes, normalized_answer_is_yes};
use git_snapshot::commit::{
    git_args, ignore_file_contents, plan_commit, platform_commands, username_or_unknown,
    GitCommand, IGNORE_TEMPLATE,
};
use git_snapshot::session::{start, step, Action, Event, Phase};

#[test]
fn answers_starting_with_y_mean_yes() {
    assert!(is_yes("y"));
    assert!(is_yes("Y"));
    assert!(is_yes("yes\n"));
    assert!(is_yes("  YES  \r\n"));
    assert!(is_yes("Yep"));
}

#[test]
fn other_answers_mean_no() {
    assert!(!is_yes(""));
    assert!(!is_yes("\n"));
    assert!(!is_yes("n"));
    assert!(!is_yes("no"));
    assert!(!is_yes("ok y"));
}

#[test]
fn normalized_answer_checks_first_character() {
    assert!(normalized_answer_is_yes("yes"));
    assert!(!normalized_answer_is_yes("Yes"));
    assert!(!normalized_answer_is_yes(" y"));
    assert!(!normalized_answer_is_yes(""));
}

#[test]
fn empty_status_plans_no_commit() {
    assert!(plan_commit(b"", "alice", "2023-12-01_22-13-20").is_none());
}

#[test]
fn non_empty_status_plans_one_commit() {
    let plan = plan_commit(b"?? new.txt\n", "alice", "2023-12-01_22-13-20").unwrap();
    assert_eq!(plan.message, "alice 2023-12-01_22-13-20");
    assert_eq!(plan.log_path, "log/2023-12-01_22-13-20.log");
    assert_eq!(plan.log_line, "Commit by alice at 2023-12-01_22-13-20\n");
    assert_eq!(plan.status_message, "Changes committed successfully by alice");
}

#[test]
fn ignore_file_has_fixed_contents() {
    let contents = ignore_file_contents();
    assert_eq!(contents, "log/\nrun.command\ngit_snapshot\n.DS_Store\nnul\n");
    assert_eq!(contents, IGNORE_TEMPLATE);
}

#[test]
fn username_falls_back_to_unknown() {
    assert_eq!(username_or_unknown(Some("bob".to_string())), "bob");
    assert_eq!(username_or_unknown(None), "unknown");
}

#[test]
fn platform_table() {
    let w = platform_commands(true);
    assert_eq!((w.clear_command, w.user_variable), ("cls", "USERNAME"));
    let u = platform_commands(false);
    assert_eq!((u.clear_command, u.user_variable), ("clear", "USER"));
}

#[test]
fn git_argument_lists() {
    assert_eq!(git_args(&GitCommand::Version), vec!["--version"]);
    assert_eq!(git_args(&GitCommand::Init), vec!["init"]);
    assert_eq!(git_args(&GitCommand::AddAll), vec!["add", "."]);
    assert_eq!(git_args(&GitCommand::StatusPorcelain), vec!["status", "--porcelain"]);
    assert_eq!(
        git_args(&GitCommand::Commit("alice 1970-01-01_00-00-00".to_string())),
        vec!["commit", "-m", "alice 1970-01-01_00-00-00"]
    );
    assert_eq!(
        git_args(&GitCommand::InitialCommit),
        vec!["commit", "--allow-empty", "-m", "Initial commit"]
    );
}

#[test]
fn run_starts_by_probing_git() {
    let (phase, action) = start();
    assert_eq!(phase, Phase::CheckingGit);
    assert!(matches!(action, Action::ProbeGit));
}

#[test]
fn missing_git_finishes_the_run() {
    let (phase, action) = step(Phase::CheckingGit, Event::GitProbed(false));
    assert_eq!(phase, Phase::Finished);
    assert!(matches!(action, Action::ReportMissingGit));
}

#[test]
fn existing_repository_goes_straight_to_staging() {
    let (phase, action) = step(Phase::CheckingGit, Event::GitProbed(true));
    assert_eq!(phase, Phase::CheckingRepository);
    assert!(matches!(action, Action::ProbeRepository));
    let (phase, action) = step(phase, Event::RepositoryProbed(true));
    assert_eq!(phase, Phase::CheckingChanges);
    assert!(matches!(action, Action::StageAndList));
}

#[test]
fn declining_initialization_cancels_without_init() {
    for answer in ["", "n", "no", "\n", "maybe yes"] {
        let (phase, action) = step(Phase::CheckingRepository, Event::RepositoryProbed(false));
        assert_eq!(phase, Phase::AwaitingAnswer);
        assert!(matches!(action, Action::AskInit));
        let (phase, action) = step(phase, Event::Answered(answer.to_string()));
        assert_eq!(phase, Phase::Finished);
        assert!(matches!(action, Action::ReportCancelled));
        let (phase, action) = step(phase, Event::Initialized);
        assert_eq!(phase, Phase::Finished);
        assert!(matches!(action, Action::Nothing));
    }
}

#[test]
fn accepting_initialization_creates_then_stages() {
    let (phase, action) = step(Phase::AwaitingAnswer, Event::Answered("Y\n".to_string()));
    assert_eq!(phase, Phase::Initializing);
    assert!(matches!(action, Action::InitRepository));
    let (phase, action) = step(phase, Event::Initialized);
    assert_eq!(phase, Phase::CheckingChanges);
    assert!(matches!(action, Action::StageAndList));
}

#[test]
fn clean_tree_reports_no_changes() {
    let event = Event::ChangesListed {
        status: Vec::new(),
        user: "alice".to_string(),
        timestamp: "2023-12-01_22-13-20".to_string(),
    };
    let (phase, action) = step(Phase::CheckingChanges, event);
    assert_eq!(phase, Phase::Finished);
    assert!(matches!(action, Action::ReportNoChanges));
}

#[test]
fn changed_tree_commits_once() {
    let event = Event::ChangesListed {
        status: b" M src/lib.rs\n D old.txt\n".to_vec(),
        user: "alice".to_string(),
        timestamp: "2023-12-01_22-13-20".to_string(),
    };
    let (phase, action) = step(Phase::CheckingChanges, event);
    assert_eq!(phase, Phase::Finished);
    match action {
        Action::Commit(plan) => {
            assert_eq!(plan.message, "alice 2023-12-01_22-13-20");
            assert_eq!(plan.log_path, "log/2023-12-01_22-13-20.log");
        }
        other => panic!("expected a commit, got {:?}", other),
    }
    let (phase, action) = step(phase, Event::GitProbed(true));
    assert_eq!(phase, Phase::Finished);
    assert!(matches!(action, Action::Nothing));
}

#[test]
fn out_of_order_event_is_ignored() {
    let (phase, action) = step(Phase::CheckingGit, Event::Initialized);
    assert_eq!(phase, Phase::CheckingGit);
    assert!(matches!(action, Action::Nothing));
}
