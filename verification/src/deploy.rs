//! Deploying a ticket that is ready: what is run, in which order, and what the ticket
//! is told afterwards.

use vstd::prelude::*;
use crate::encoding::{decimal_signed, i64_to_string};
use crate::env::{lookup, nonempty_value, opt_view, Env};
use crate::opencode::{nonempty_or, setting_or};
use crate::text::{ends_with_char, trim, trim_str};
use crate::tickets::{status_after, status_after_event, TicketEvent};

verus! {

/// The file the release build produces, relative to the repository.
pub const RELEASE_BINARY: &'static str = "target/release/ticketing-app-1";

/// Where and how to deploy.
pub struct DeployConfig {
    pub repo_dir: String,
    pub remote: String,
    pub git_ref: String,
    pub bin_path: Option<String>,
    pub service: Option<String>,
}

/// The deploy settings, present when `LYRA_REPO_DIR` is set: the remote and ref
/// fall back to `origin` and `main`; the binary path and service are optional.
pub fn deploy_config(env: &Env) -> (r: Option<DeployConfig>)
    ensures
        match nonempty_value(lookup(env.vars@, "LYRA_REPO_DIR"@)) {
            None => r is None,
            Some(dir) => r matches Some(c) && {
                &&& c.repo_dir@ == dir
                &&& c.remote@ == setting_or(*env, "LYRA_DEPLOY_GIT_REMOTE"@, "origin"@)
                &&& c.git_ref@ == setting_or(*env, "LYRA_DEPLOY_GIT_REF"@, "main"@)
                &&& opt_view(c.bin_path) == nonempty_value(lookup(env.vars@, "LYRA_BIN_PATH"@))
                &&& opt_view(c.service) == nonempty_value(
                    lookup(env.vars@, "LYRA_SERVICE_NAME"@),
                )
            },
        },
{
    let repo_dir: String = env.nonempty("LYRA_REPO_DIR")?;
    Some(
        DeployConfig {
            repo_dir,
            remote: nonempty_or(env, "LYRA_DEPLOY_GIT_REMOTE", "origin"),
            git_ref: nonempty_or(env, "LYRA_DEPLOY_GIT_REF", "main"),
            bin_path: env.nonempty("LYRA_BIN_PATH"),
            service: env.nonempty("LYRA_SERVICE_NAME"),
        },
    )
}

/// Where a binary is kept before it is replaced: `{bin_path}.bak`.
pub fn bak_path(bin_path: &str) -> (r: String)
    ensures
        r@ == bin_path@ + ".bak"@,
{
    let mut r: String = String::from_str(bin_path);
    r.append(".bak");
    r
}

/// `dir` joined with a relative path (`Path::join`): a `/` is put between them
/// unless `dir` is empty or already ends with one.
pub open spec fn join_path(dir: Seq<char>, rel: Seq<char>) -> Seq<char> {
    if dir.len() == 0 || dir.last() == '/' {
        dir + rel
    } else {
        dir + "/"@ + rel
    }
}

/// Where the release build leaves the binary.
pub fn release_binary_path(repo_dir: &str) -> (r: String)
    ensures
        r@ == join_path(repo_dir@, RELEASE_BINARY@),
{
    let mut r: String = String::from_str(repo_dir);
    if repo_dir.unicode_len() > 0 && !ends_with_char(repo_dir, '/') {
        r.append("/");
    }
    r.append(RELEASE_BINARY);
    r
}

/// One step of a deploy.
pub enum DeployStep {
    /// Keep a copy of the running binary at `bin_path.bak`, if it exists.
    Snapshot { bin_path: String },
    /// Run `git -C repo_dir <args>` (reported as `step`).
    Git { step: String, args: Vec<String> },
    /// Run `cargo build --release` in the repository.
    Build,
    /// Apply pending schema migrations.
    Migrate,
    /// Copy the release binary over `bin_path`.
    Install { bin_path: String },
}

/// The steps of a deploy, in order: snapshot (with a binary path), fetch, pull,
/// release build, migrations, install (with a binary path). The first step that
/// fails ends the deploy.
pub fn deploy_steps(cfg: &DeployConfig) -> (r: Vec<DeployStep>)
    ensures
        r@.len() == (if cfg.bin_path is Some { 6int } else { 4int }),
        ({
            let k: int = if cfg.bin_path is Some { 1 } else { 0 };
            &&& cfg.bin_path matches Some(b) ==> r@[0] matches DeployStep::Snapshot { bin_path }
                && bin_path@ == b@
            &&& r@[k] matches DeployStep::Git { step, args } && step@ == "git fetch"@
                && args@.len() == 2 && args@[0]@ == "fetch"@ && args@[1]@ == cfg.remote@
            &&& r@[k + 1] matches DeployStep::Git { step, args } && step@ == "git pull"@
                && args@.len() == 3 && args@[0]@ == "pull"@ && args@[1]@ == cfg.remote@
                && args@[2]@ == cfg.git_ref@
            &&& r@[k + 2] is Build
            &&& r@[k + 3] is Migrate
            &&& cfg.bin_path matches Some(b) ==> r@[5] matches DeployStep::Install { bin_path }
                && bin_path@ == b@
        }),
{
    let mut steps: Vec<DeployStep> = Vec::new();
    match &cfg.bin_path {
        Some(b) => steps.push(DeployStep::Snapshot { bin_path: b.clone() }),
        None => {},
    }
    let mut fetch: Vec<String> = Vec::new();
    fetch.push(String::from_str("fetch"));
    fetch.push(cfg.remote.clone());
    steps.push(DeployStep::Git { step: String::from_str("git fetch"), args: fetch });
    let mut pull: Vec<String> = Vec::new();
    pull.push(String::from_str("pull"));
    pull.push(cfg.remote.clone());
    pull.push(cfg.git_ref.clone());
    steps.push(DeployStep::Git { step: String::from_str("git pull"), args: pull });
    steps.push(DeployStep::Build);
    steps.push(DeployStep::Migrate);
    match &cfg.bin_path {
        Some(b) => steps.push(DeployStep::Install { bin_path: b.clone() }),
        None => {},
    }
    steps
}

/// What was deployed: `{remote}/{ref}`.
pub fn deployed_ref(cfg: &DeployConfig) -> (r: String)
    ensures
        r@ == cfg.remote@ + "/"@ + cfg.git_ref@,
{
    let mut r: String = cfg.remote.clone();
    r.append("/");
    r.append(cfg.git_ref.as_str());
    r
}

/// The report of a deploy that was not configured.
pub fn skipped_message() -> (r: String)
    ensures
        r@ == "Deploy skipped: LYRA_REPO_DIR is not set."@,
{
    String::from_str("Deploy skipped: LYRA_REPO_DIR is not set.")
}

/// The report of a deploy that went through.
pub fn success_message(git_ref: &str) -> (r: String)
    ensures
        r@ == "Deploy succeeded (`"@ + git_ref@ + "`)."@,
{
    let mut r: String = String::from_str("Deploy succeeded (`");
    r.append(git_ref);
    r.append("`).");
    r
}

/// The report of a deploy that failed, with the error of restoring the old binary
/// if that failed too.
pub fn failure_message(err: &str, restore_err: Option<&str>) -> (r: String)
    ensures
        r@ == "Deploy failed: "@ + err@ + (match restore_err {
            Some(e) => " Binary restore failed: "@ + e@,
            None => Seq::empty(),
        }),
{
    let mut r: String = String::from_str("Deploy failed: ");
    r.append(err);
    match restore_err {
        Some(e) => {
            r.append(" Binary restore failed: ");
            r.append(e);
        },
        None => {},
    }
    r
}

/// What a failed command reports: the trimmed standard error, or else the trimmed
/// standard output, after the step and its exit code when it has one.
pub open spec fn command_failure_text(
    step: Seq<char>,
    code: Option<i32>,
    stderr: Seq<char>,
    stdout: Seq<char>,
) -> Seq<char> {
    let detail = if trim(stderr).len() == 0 {
        trim(stdout)
    } else {
        trim(stderr)
    };
    match code {
        Some(c) => if detail.len() == 0 {
            step + " failed (exit "@ + decimal_signed(c as int) + ")"@
        } else {
            step + " failed (exit "@ + decimal_signed(c as int) + "): "@ + detail
        },
        None => if detail.len() == 0 {
            step + " failed"@
        } else {
            step + " failed: "@ + detail
        },
    }
}

/// The error of a command that exited unsuccessfully.
pub fn command_failure(step: &str, code: Option<i32>, stderr: &str, stdout: &str) -> (r: String)
    ensures
        r@ == command_failure_text(step@, code, stderr@, stdout@),
{
    let e: String = trim_str(stderr);
    let detail: String = if e.as_str().unicode_len() == 0 {
        trim_str(stdout)
    } else {
        e
    };
    let mut r: String = String::from_str(step);
    match code {
        Some(c) => {
            r.append(" failed (exit ");
            let n: String = i64_to_string(c as i64);
            r.append(n.as_str());
            if detail.as_str().unicode_len() == 0 {
                r.append(")");
            } else {
                r.append("): ");
                r.append(detail.as_str());
            }
        },
        None => {
            if detail.as_str().unicode_len() == 0 {
                r.append(" failed");
            } else {
                r.append(" failed: ");
                r.append(detail.as_str());
            }
        },
    }
    r
}

// ---------------------------------------------------------------------------
// Running a deploy
// ---------------------------------------------------------------------------

/// Where a deploy run stands.
pub enum DeployPhase {
    /// Running the step at position `index` of the plan.
    Step { index: usize },
    /// Every step went through: the success is reported.
    Report,
    /// Restarting `service` after the success was reported.
    Restart { service: String },
    /// Putting the old binary back (if a snapshot was kept) after `error`.
    Restore { error: String },
    /// Reporting the failure `error`, with the error of the restore if it failed.
    Fail { error: String, restore_error: Option<String> },
    /// Finished.
    Done,
}

/// What the runner does in a phase; it reports back whether that went through.
pub enum DeployAction {
    /// Perform the step at position `index` of the plan.
    Run { index: usize },
    /// Post `comment` on the ticket as the system, then set its status.
    Post { comment: String, status: String },
    /// Restart the service (`systemctl restart`).
    RestartService { service: String },
    /// Copy the snapshot back over the binary, if a snapshot was kept.
    RestoreBinary,
    /// Nothing is left to do.
    Stop,
}

/// The phase a run starts in: the first step of the plan.
pub fn deploy_start() -> (p: DeployPhase)
    ensures
        p == (DeployPhase::Step { index: 0 }),
{
    DeployPhase::Step { index: 0 }
}

/// Whether `phase` fits a plan of `plan_len` steps.
pub open spec fn phase_in_plan(phase: DeployPhase, plan_len: nat) -> bool {
    match phase {
        DeployPhase::Step { index } => index < plan_len,
        _ => true,
    }
}

/// The phase a run moves to once the action of `phase` gave `outcome`: the next
/// step, or the report after the last one; any failed step or restart goes to
/// restoring the binary, and restoring to reporting the failure. The success
/// report leads to the restart when a service is configured.
pub open spec fn next_phase(
    cfg: DeployConfig,
    plan_len: nat,
    phase: DeployPhase,
    outcome: Result<(), String>,
) -> DeployPhase {
    match phase {
        DeployPhase::Step { index } => match outcome {
            Ok(_) => if index + 1 < plan_len {
                DeployPhase::Step { index: (index + 1) as usize }
            } else {
                DeployPhase::Report
            },
            Err(e) => DeployPhase::Restore { error: e },
        },
        DeployPhase::Report => match cfg.service {
            Some(s) => DeployPhase::Restart { service: s },
            None => DeployPhase::Done,
        },
        DeployPhase::Restart { .. } => match outcome {
            Ok(_) => DeployPhase::Done,
            Err(e) => DeployPhase::Restore { error: e },
        },
        DeployPhase::Restore { error } => DeployPhase::Fail {
            error,
            restore_error: match outcome {
                Ok(_) => None,
                Err(e) => Some(e),
            },
        },
        DeployPhase::Fail { .. } => DeployPhase::Done,
        DeployPhase::Done => DeployPhase::Done,
    }
}

/// What to do in `phase`.
pub fn deploy_action(cfg: &DeployConfig, phase: &DeployPhase) -> (a: DeployAction)
    ensures
        match *phase {
            DeployPhase::Step { index } => a == (DeployAction::Run { index }),
            DeployPhase::Report => a matches DeployAction::Post { comment, status } && comment@
                == "Deploy succeeded (`"@ + cfg.remote@ + "/"@ + cfg.git_ref@ + "`)."@ && status@
                == status_after_event(TicketEvent::DeploySucceeded),
            DeployPhase::Restart { service } => a matches DeployAction::RestartService {
                service: s,
            } && s@ == service@,
            DeployPhase::Restore { .. } => a is RestoreBinary,
            DeployPhase::Fail { error, restore_error } => a matches DeployAction::Post {
                comment,
                status,
            } && comment@ == "Deploy failed: "@ + error@ + (match restore_error {
                Some(e) => " Binary restore failed: "@ + e@,
                None => Seq::empty(),
            }) && status@ == status_after_event(TicketEvent::DeployFailed),
            DeployPhase::Done => a is Stop,
        },
{
    match phase {
        DeployPhase::Step { index } => DeployAction::Run { index: *index },
        DeployPhase::Report => {
            let git_ref: String = deployed_ref(cfg);
            DeployAction::Post {
                comment: success_message(git_ref.as_str()),
                status: status_after(TicketEvent::DeploySucceeded),
            }
        },
        DeployPhase::Restart { service } => DeployAction::RestartService { service: service.clone() },
        DeployPhase::Restore { .. } => DeployAction::RestoreBinary,
        DeployPhase::Fail { error, restore_error } => {
            let comment: String = match restore_error {
                Some(e) => failure_message(error.as_str(), Some(e.as_str())),
                None => failure_message(error.as_str(), None),
            };
            DeployAction::Post { comment, status: status_after(TicketEvent::DeployFailed) }
        },
        DeployPhase::Done => DeployAction::Stop,
    }
}

/// The phase after the action of `phase` gave `outcome`, as `next_phase` says.
pub fn deploy_after(
    cfg: &DeployConfig,
    plan_len: usize,
    phase: DeployPhase,
    outcome: Result<(), String>,
) -> (next: DeployPhase)
    requires
        phase_in_plan(phase, plan_len as nat),
    ensures
        next == next_phase(*cfg, plan_len as nat, phase, outcome),
        phase_in_plan(next, plan_len as nat),
{
    match phase {
        DeployPhase::Step { index } => match outcome {
            Ok(_) => if index + 1 < plan_len {
                DeployPhase::Step { index: index + 1 }
            } else {
                DeployPhase::Report
            },
            Err(e) => DeployPhase::Restore { error: e },
        },
        DeployPhase::Report => match &cfg.service {
            Some(s) => DeployPhase::Restart { service: s.clone() },
            None => DeployPhase::Done,
        },
        DeployPhase::Restart { .. } => match outcome {
            Ok(_) => DeployPhase::Done,
            Err(e) => DeployPhase::Restore { error: e },
        },
        DeployPhase::Restore { error } => DeployPhase::Fail {
            error,
            restore_error: match outcome {
                Ok(_) => None,
                Err(e) => Some(e),
            },
        },
        DeployPhase::Fail { .. } => DeployPhase::Done,
        DeployPhase::Done => DeployPhase::Done,
    }
}

/// How far a phase is from the end of the run.
pub open spec fn phases_left(phase: DeployPhase, plan_len: nat) -> int {
    match phase {
        DeployPhase::Step { index } => 5 + plan_len - index,
        DeployPhase::Report => 4,
        DeployPhase::Restart { .. } => 3,
        DeployPhase::Restore { .. } => 2,
        DeployPhase::Fail { .. } => 1,
        DeployPhase::Done => 0,
    }
}

/// Every deploy run finishes: each action moves it strictly closer to the end,
/// so a plan of `n` steps takes at most `n + 5` actions.
pub proof fn deploy_runs_finish(
    cfg: DeployConfig,
    plan_len: nat,
    phase: DeployPhase,
    outcome: Result<(), String>,
)
    requires
        plan_len <= usize::MAX,
        phase_in_plan(phase, plan_len),
        phase !is Done,
    ensures
        0 <= phases_left(next_phase(cfg, plan_len, phase, outcome), plan_len) < phases_left(
            phase,
            plan_len,
        ),
        phases_left(phase, plan_len) <= plan_len + 5,
{
}

/// Success is reported only once every step of the plan went through: the
/// report follows the last step, and only when it succeeded.
pub proof fn success_only_after_every_step(
    cfg: DeployConfig,
    plan_len: nat,
    phase: DeployPhase,
    outcome: Result<(), String>,
)
    requires
        phase_in_plan(phase, plan_len),
        next_phase(cfg, plan_len, phase, outcome) is Report,
    ensures
        phase == (DeployPhase::Step { index: (plan_len - 1) as usize }),
        outcome is Ok,
{
}

/// A failed step, or a failed restart, is followed by restoring the binary and
/// then by reporting that same error, whatever the restore gave.
pub proof fn failures_are_reported(
    cfg: DeployConfig,
    plan_len: nat,
    phase: DeployPhase,
    error: String,
    restored: Result<(), String>,
)
    requires
        phase_in_plan(phase, plan_len),
        phase is Step || phase is Restart,
    ensures
        next_phase(cfg, plan_len, phase, Err(error)) == (DeployPhase::Restore { error }),
        next_phase(cfg, plan_len, DeployPhase::Restore { error }, restored) matches
            DeployPhase::Fail { error: e, .. } && e == error,
{
}

} // verus!
