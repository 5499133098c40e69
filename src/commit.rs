use vstd::prelude::*;

verus! {

/// Directory, relative to the working tree, that holds one log file per
/// commit.
pub const LOG_DIR: &'static str = "log";

/// Exact contents written to the ignore file when a repository is created:
/// the log directory, the run script, the tool's binary and two operating
/// system artifacts.
pub const IGNORE_TEMPLATE: &'static str = "log/\nrun.command\ngit_snapshot\n.DS_Store\nnul\n";

/// Name of the ignore file.
pub const IGNORE_FILE: &'static str = ".gitignore";

/// Message of the empty commit made when a repository is created.
pub const INITIAL_COMMIT_MESSAGE: &'static str = "Initial commit";

/// User name used when the environment holds none.
pub const UNKNOWN_USER: &'static str = "unknown";

/// Start of a log file's path.
pub const LOG_PATH_PREFIX: &'static str = "log/";

/// End of a log file's path.
pub const LOG_PATH_SUFFIX: &'static str = ".log";

/// Start of a log file's line.
pub const LOG_LINE_PREFIX: &'static str = "Commit by ";

/// Text between the user name and the timestamp in a log file's line.
pub const LOG_LINE_MIDDLE: &'static str = " at ";

/// Start of the message shown after a commit.
pub const COMMITTED_PREFIX: &'static str = "Changes committed successfully by ";

/// The commit message: the user name, a space, the timestamp.
pub open spec fn commit_message_text(user: Seq<char>, timestamp: Seq<char>) -> Seq<char> {
    user + seq![' '] + timestamp
}

/// The path of the log file of a commit: `log/<timestamp>.log`.
pub open spec fn log_path_text(timestamp: Seq<char>) -> Seq<char> {
    LOG_PATH_PREFIX@ + timestamp + LOG_PATH_SUFFIX@
}

/// The single line of a log file: `Commit by <user> at <timestamp>`, with its
/// line break.
pub open spec fn log_line_text(user: Seq<char>, timestamp: Seq<char>) -> Seq<char> {
    LOG_LINE_PREFIX@ + user + LOG_LINE_MIDDLE@ + timestamp + seq!['\n']
}

/// The message of the box shown after a commit.
pub open spec fn committed_text(user: Seq<char>) -> Seq<char> {
    COMMITTED_PREFIX@ + user
}

/// What a commit writes: the commit message, the log file's path and line,
/// and the message shown afterwards.
#[derive(Debug)]
pub struct CommitPlan {
    pub message: String,
    pub log_path: String,
    pub log_line: String,
    pub status_message: String,
}

impl CommitPlan {
    /// Whether this is the plan of a commit by `user` at `timestamp`.
    pub open spec fn is_plan_for(&self, user: Seq<char>, timestamp: Seq<char>) -> bool {
        &&& self.message@ == commit_message_text(user, timestamp)
        &&& self.log_path@ == log_path_text(timestamp)
        &&& self.log_line@ == log_line_text(user, timestamp)
        &&& self.status_message@ == committed_text(user)
    }
}

fn concat3(a: &str, b: &str, c: &str) -> (r: String)
    ensures
        r@ == a@ + b@ + c@,
{
    let mut out = String::from_str(a);
    out.append(b);
    out.append(c);
    out
}

/// Decides the commit from the machine-readable status listing taken after
/// every change was staged: no commit when the listing is empty, else the
/// plan of one commit by `user` at `timestamp`.
pub fn plan_commit(status: &[u8], user: &str, timestamp: &str) -> (r: Option<CommitPlan>)
    ensures
        r is None <==> status@.len() == 0,
        r matches Some(p) ==> p.is_plan_for(user@, timestamp@),
{
    if status.len() == 0 {
        return None;
    }
    proof {
        reveal_strlit(" ");
        reveal_strlit("\n");
    }
    let message = concat3(user, " ", timestamp);
    let log_path = concat3(LOG_PATH_PREFIX, timestamp, LOG_PATH_SUFFIX);
    let mut log_line = concat3(LOG_LINE_PREFIX, user, LOG_LINE_MIDDLE);
    log_line.append(timestamp);
    log_line.append("\n");
    let mut status_message = String::from_str(COMMITTED_PREFIX);
    status_message.append(user);
    assert(message@ =~= commit_message_text(user@, timestamp@));
    assert(log_line@ =~= log_line_text(user@, timestamp@));
    Some(CommitPlan { message, log_path, log_line, status_message })
}

/// The contents written to the ignore file; they replace whatever the file
/// held.
pub fn ignore_file_contents() -> (r: String)
    ensures
        r@ == IGNORE_TEMPLATE@,
{
    String::from_str(IGNORE_TEMPLATE)
}

/// The user name that names commits: the environment's value, or `unknown`
/// when it holds none.
pub fn username_or_unknown(value: Option<String>) -> (r: String)
    ensures
        r@ == match value {
            Some(s) => s@,
            None => UNKNOWN_USER@,
        },
{
    match value {
        Some(s) => s,
        None => String::from_str(UNKNOWN_USER),
    }
}

/// The command that clears the screen and the environment variable that
/// holds the user name, for one family of platforms.
#[derive(Debug)]
pub struct PlatformCommands {
    pub clear_command: &'static str,
    pub user_variable: &'static str,
}

/// The screen-clearing command and user-name variable of Windows
/// (`cls`, `USERNAME`) or of the other platforms (`clear`, `USER`).
pub fn platform_commands(windows: bool) -> (r: PlatformCommands)
    ensures
        windows ==> r.clear_command@ == "cls"@ && r.user_variable@ == "USERNAME"@,
        !windows ==> r.clear_command@ == "clear"@ && r.user_variable@ == "USER"@,
{
    if windows {
        PlatformCommands { clear_command: "cls", user_variable: "USERNAME" }
    } else {
        PlatformCommands { clear_command: "clear", user_variable: "USER" }
    }
}

/// An invocation of the version-control client.
#[derive(Debug)]
pub enum GitCommand {
    /// Probe that the client is installed.
    Version,
    /// Create a repository in the working directory.
    Init,
    /// Stage every change of the working tree.
    AddAll,
    /// List the working tree's changes in machine-readable form.
    StatusPorcelain,
    /// Commit the staged changes with the given message.
    Commit(String),
    /// Make the first commit of a new repository, empty if need be.
    InitialCommit,
}

/// The arguments, one per element, that the client receives for `command`.
pub open spec fn git_args_text(command: GitCommand) -> Seq<Seq<char>> {
    match command {
        GitCommand::Version => seq!["--version"@],
        GitCommand::Init => seq!["init"@],
        GitCommand::AddAll => seq!["add"@, "."@],
        GitCommand::StatusPorcelain => seq!["status"@, "--porcelain"@],
        GitCommand::Commit(m) => seq!["commit"@, "-m"@, m@],
        GitCommand::InitialCommit => seq![
            "commit"@,
            "--allow-empty"@,
            "-m"@,
            INITIAL_COMMIT_MESSAGE@,
        ],
    }
}

/// The arguments that the client receives for `command`.
pub fn git_args(command: &GitCommand) -> (r: Vec<String>)
    ensures
        r@.len() == git_args_text(*command).len(),
        forall|i: int| 0 <= i < r@.len() ==> #[trigger] r@[i]@ == git_args_text(*command)[i],
{
    let mut args: Vec<String> = Vec::new();
    match command {
        GitCommand::Version => {
            args.push(String::from_str("--version"));
        },
        GitCommand::Init => {
            args.push(String::from_str("init"));
        },
        GitCommand::AddAll => {
            args.push(String::from_str("add"));
            args.push(String::from_str("."));
        },
        GitCommand::StatusPorcelain => {
            args.push(String::from_str("status"));
            args.push(String::from_str("--porcelain"));
        },
        GitCommand::Commit(m) => {
            args.push(String::from_str("commit"));
            args.push(String::from_str("-m"));
            args.push(m.clone());
        },
        GitCommand::InitialCommit => {
            args.push(String::from_str("commit"));
            args.push(String::from_str("--allow-empty"));
            args.push(String::from_str("-m"));
            args.push(String::from_str(INITIAL_COMMIT_MESSAGE));
        },
    }
    args
}

} // verus!
