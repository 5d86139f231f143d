//! Deployment decisions for the remote agent.
//!
//! Deploying runs in fixed steps: detect the remote architecture, resolve
//! the matching bundled binary, probe the deployed version to decide whether
//! an upload is needed, conditionally upload and mark executable, start the
//! agent, and handshake.  The steps that touch the remote host are plain
//! commands run by the caller; every decision between them is taken here,
//! under contract: what counts as a detected architecture, which
//! architectures are supported, when an upload is needed, and which commands
//! run in which order.

use vstd::prelude::*;
use vstd::string::StringSliceAdditionalSpecFns;
use crate::util::{
    ascii_chars, lossy_string, spec_contains, spec_trim, trim_bytes, utf8_lossy_of,
};

verus! {

/// Deployment errors; each step's failure is distinguishable so the caller
/// can decide whether retrying makes sense.
#[derive(Debug, Clone, PartialEq, Eq)]
pub enum DeployError {
    /// The identity command failed or returned nothing.
    ArchDetection(String),
    /// The remote architecture has no bundled binary; never worth retrying.
    UnsupportedArch(String),
    /// No bundled binary resource for the resolved target.
    BinaryNotFound(String),
    /// Reading the local binary failed.
    LocalIo(String),
    /// Transferring the binary failed.
    Upload(String),
    /// A remote command could not be executed at all.
    ExecFailed(String),
    /// Opening the channel or starting the agent process failed.
    StartFailed(String),
    /// The started agent did not answer the handshake correctly.
    Handshake(String),
}

/// Lifecycle label of a deployment attempt.
#[derive(Debug, Clone)]
pub enum AgentStatus {
    NotDeployed,
    Deploying,
    Ready { version: String, arch: String, pid: u32 },
    Failed { reason: String },
    UnsupportedArch { arch: String },
}

/// Whether a status is terminal for one deployment attempt.
pub open spec fn status_is_terminal(s: AgentStatus) -> bool {
    match s {
        AgentStatus::NotDeployed => false,
        AgentStatus::Deploying => false,
        AgentStatus::Ready { .. } => true,
        AgentStatus::Failed { .. } => true,
        AgentStatus::UnsupportedArch { .. } => true,
    }
}

/// The allowed status moves: NotDeployed to Deploying, Deploying to one of
/// the terminal states, and a restart from a terminal state back to
/// NotDeployed or Deploying.  Within one attempt the status is monotonic.
pub open spec fn status_can_step(from: AgentStatus, to: AgentStatus) -> bool {
    match (from, to) {
        (AgentStatus::NotDeployed, AgentStatus::Deploying) => true,
        (AgentStatus::Deploying, AgentStatus::Ready { .. }) => true,
        (AgentStatus::Deploying, AgentStatus::Failed { .. }) => true,
        (AgentStatus::Deploying, AgentStatus::UnsupportedArch { .. }) => true,
        (f, AgentStatus::NotDeployed) => status_is_terminal(f),
        (f, AgentStatus::Deploying) => status_is_terminal(f),
        _ => false,
    }
}

/// Holder of a deployment attempt's status that only ever moves along the
/// allowed edges.
pub struct DeployProgress {
    status: AgentStatus,
}

impl DeployProgress {
    /// The current status.
    pub closed spec fn spec_status(&self) -> AgentStatus {
        self.status
    }

    /// A fresh attempt starts undeployed.
    pub fn new() -> (r: Self)
        ensures
            r.spec_status() is NotDeployed,
    {
        DeployProgress { status: AgentStatus::NotDeployed }
    }

    /// Read the current status.
    pub fn status(&self) -> (r: &AgentStatus)
        ensures
            *r == self.spec_status(),
    {
        &self.status
    }

    /// Move to `to`; only the allowed monotonic edges are accepted.
    pub fn advance(&mut self, to: AgentStatus)
        requires
            status_can_step(old(self).spec_status(), to),
        ensures
            final(self).spec_status() == to,
    {
        self.status = to;
    }
}

/// The commands and calls of a deployment, in the order they may run.
#[derive(Debug, Clone, Copy, PartialEq, Eq, Structural)]
pub enum DeployAction {
    /// `mkdir -p` for the remote agent directory.
    Mkdir,
    /// Transfer the binary's bytes.
    Upload,
    /// `chmod +x` on the uploaded binary.
    Chmod,
    /// Open a channel and execute the agent.
    StartAgent,
    /// Handshake: bounded-timeout `sys/ping`.
    Ping,
    /// Handshake: bounded-timeout `sys/info`.
    SysInfo,
}

/// Deployer for the remote agent; the methods are its decision points.
pub struct AgentDeployer;

/// Where the agent lives on the remote host.
pub fn agent_remote_dir() -> (r: String)
    ensures
        r@ == "~/.oxideterm"@,
{
    "~/.oxideterm".to_owned()
}

/// Full remote path of the agent binary.
pub fn agent_remote_path() -> (r: String)
    ensures
        r@ == "~/.oxideterm/oxideterm-agent"@,
{
    "~/.oxideterm/oxideterm-agent".to_owned()
}

/// Concatenate two pieces of text.
pub fn concat_str(a: &str, b: &str) -> (r: String)
    ensures
        r@ == utf8_lossy_of(a.spec_bytes() + b.spec_bytes()),
        (forall|i: int|
            0 <= i < a.spec_bytes().len() + b.spec_bytes().len() ==> (a.spec_bytes()
                + b.spec_bytes())[i] < 128) ==> r@ == ascii_chars(a.spec_bytes() + b.spec_bytes()),
{
    let mut buf: Vec<u8> = Vec::new();
    buf.extend_from_slice(a.as_bytes());
    buf.extend_from_slice(b.as_bytes());
    proof {
        assert(buf@ =~= a.spec_bytes() + b.spec_bytes());
    }
    lossy_string(buf.as_slice())
}

/// The resource name of the bundled binary for a target.
pub fn binary_name_for_target(target: &str) -> (r: String)
    ensures
        r@ == utf8_lossy_of("agents/oxideterm-agent-".spec_bytes() + target.spec_bytes()),
{
    concat_str("agents/oxideterm-agent-", target)
}

/// The `mkdir -p` command for a remote directory.
pub fn mkdir_command(dir: &str) -> (r: String)
    ensures
        r@ == utf8_lossy_of("mkdir -p ".spec_bytes() + dir.spec_bytes()),
{
    concat_str("mkdir -p ", dir)
}

/// The `chmod +x` command for a remote path.
pub fn chmod_command(path: &str) -> (r: String)
    ensures
        r@ == utf8_lossy_of("chmod +x ".spec_bytes() + path.spec_bytes()),
{
    concat_str("chmod +x ", path)
}

/// The version-probe command: run the candidate binary with `--version`,
/// printing a marker when it is not there.
pub fn version_probe_command(path: &str) -> (r: String)
    ensures
        r@ == utf8_lossy_of(
            path.spec_bytes() + " --version 2>/dev/null || echo 'NOT_FOUND'".spec_bytes(),
        ),
{
    concat_str(path, " --version 2>/dev/null || echo 'NOT_FOUND'")
}

impl AgentDeployer {
    /// Read the detected architecture out of the identity command's output:
    /// the trimmed text, which must be non-empty; empty output is a terminal
    /// detection failure.
    pub fn parse_arch_output(stdout: &str) -> (r: Result<String, DeployError>)
        ensures
            r is Ok <==> spec_trim(stdout.spec_bytes()).len() > 0,
            r is Ok ==> r->Ok_0@ == utf8_lossy_of(spec_trim(stdout.spec_bytes())),
            r is Err ==> r->Err_0 is ArchDetection,
    {
        let trimmed = trim_bytes(stdout.as_bytes());
        if trimmed.len() == 0 {
            return Err(
                DeployError::ArchDetection("identity command returned empty output".to_owned()),
            );
        }
        Ok(lossy_string(trimmed.as_slice()))
    }

    /// The closed set of supported targets: which binary suffix a reported
    /// machine name maps to, if any.
    pub open spec fn spec_arch_target(arch: Seq<u8>) -> Option<&'static str> {
        if arch == "x86_64".spec_bytes() || arch == "amd64".spec_bytes() {
            Some("x86_64-linux-musl")
        } else if arch == "aarch64".spec_bytes() || arch == "arm64".spec_bytes() {
            Some("aarch64-linux-musl")
        } else {
            None
        }
    }

    /// Map a machine name to the bundled binary suffix.  An unrecognized
    /// architecture is a terminal `UnsupportedArch` error: there is no
    /// generic fallback binary.
    pub fn arch_to_target(arch: &str) -> (r: Result<&'static str, DeployError>)
        ensures
            r is Ok <==> Self::spec_arch_target(arch.spec_bytes()) is Some,
            r is Ok ==> Some(r->Ok_0) == Self::spec_arch_target(arch.spec_bytes()),
            r is Err ==> (r->Err_0 matches DeployError::UnsupportedArch(a) && a@ == arch@),
    {
        let b = arch.as_bytes();
        if crate::util::bytes_eq(b, "x86_64".as_bytes()) || crate::util::bytes_eq(
            b,
            "amd64".as_bytes(),
        ) {
            Ok("x86_64-linux-musl")
        } else if crate::util::bytes_eq(b, "aarch64".as_bytes()) || crate::util::bytes_eq(
            b,
            "arm64".as_bytes(),
        ) {
            Ok("aarch64-linux-musl")
        } else {
            Err(DeployError::UnsupportedArch(arch.to_owned()))
        }
    }

    /// Whether the probe's outcome calls for an upload: a failed probe, a
    /// missing binary, empty output, and a version mismatch all do; only
    /// output carrying the exact current version skips it.
    pub open spec fn spec_needs_upload(probe: Option<Seq<u8>>, version: Seq<u8>) -> bool {
        match probe {
            None => true,
            Some(raw) => {
                let out = spec_trim(raw);
                if spec_contains(out, "NOT_FOUND".spec_bytes()) || out.len() == 0 {
                    true
                } else if spec_contains(out, version) {
                    false
                } else {
                    true
                }
            },
        }
    }

    /// Decide from the version probe whether the binary must be uploaded.
    /// `probe_stdout` is the probe's standard output, `None` when the probe
    /// itself could not run — treated conservatively as "needs upload".
    pub fn needs_upload(probe_stdout: Option<&str>, current_version: &str) -> (r: bool)
        ensures
            probe_stdout is None ==> r,
            probe_stdout matches Some(out) ==> r == Self::spec_needs_upload(
                Some(out.spec_bytes()),
                current_version.spec_bytes(),
            ),
    {
        match probe_stdout {
            None => true,
            Some(out) => {
                let trimmed = trim_bytes(out.as_bytes());
                if crate::util::contains_sub(trimmed.as_slice(), "NOT_FOUND".as_bytes()) {
                    true
                } else if trimmed.len() == 0 {
                    true
                } else if crate::util::contains_sub(
                    trimmed.as_slice(),
                    current_version.as_bytes(),
                ) {
                    false
                } else {
                    true
                }
            },
        }
    }

    /// Whether a non-fatal step-4 command outcome deserves a warning: an
    /// explicit non-zero exit code, or no exit code with non-empty stderr.
    /// Neither aborts the deployment; only communication-level failures do.
    pub fn command_warns(exit_code: Option<i64>, stderr: &str) -> (r: bool)
        ensures
            r == match exit_code {
                Some(code) => code != 0,
                None => spec_trim(stderr.spec_bytes()).len() > 0,
            },
    {
        match exit_code {
            Some(code) => code != 0,
            None => {
                let trimmed = trim_bytes(stderr.as_bytes());
                trimmed.len() > 0
            },
        }
    }

    /// The commands and calls that follow the upload decision, in order:
    /// with an upload, the full `mkdir -p`, transfer, `chmod +x`, start,
    /// ping, `sys/info` sequence; without one, start and handshake alone.
    pub open spec fn spec_deploy_plan(needs_upload: bool) -> Seq<DeployAction> {
        if needs_upload {
            seq![
                DeployAction::Mkdir,
                DeployAction::Upload,
                DeployAction::Chmod,
                DeployAction::StartAgent,
                DeployAction::Ping,
                DeployAction::SysInfo,
            ]
        } else {
            seq![DeployAction::StartAgent, DeployAction::Ping, DeployAction::SysInfo]
        }
    }

    /// Lay out the rest of the deployment after the upload decision.
    pub fn deploy_plan(needs_upload: bool) -> (r: Vec<DeployAction>)
        ensures
            r@ == Self::spec_deploy_plan(needs_upload),
    {
        let mut v: Vec<DeployAction> = Vec::new();
        if needs_upload {
            v.push(DeployAction::Mkdir);
            v.push(DeployAction::Upload);
            v.push(DeployAction::Chmod);
        }
        v.push(DeployAction::StartAgent);
        v.push(DeployAction::Ping);
        v.push(DeployAction::SysInfo);
        proof {
            assert(v@ =~= Self::spec_deploy_plan(needs_upload));
        }
        v
    }

    /// Decide the whole pre-start phase from the two remote observations:
    /// the identity command's output and the version probe's output.  An
    /// empty identity is a detection failure; an unrecognized architecture
    /// is terminal, with no binary resolution and no upload step; otherwise
    /// the target and the ordered action plan come back.
    /// The architecture name as the planner sees it: the identity output,
    /// trimmed and decoded.
    pub open spec fn spec_detected_arch(arch_stdout: Seq<u8>) -> Seq<u8> {
        vstd::utf8::encode_utf8(utf8_lossy_of(spec_trim(arch_stdout)))
    }

    pub fn plan_deployment(arch_stdout: &str, probe_stdout: Option<&str>, current_version: &str)
        -> (r: Result<(&'static str, Vec<DeployAction>), DeployError>)
        ensures
            spec_trim(arch_stdout.spec_bytes()).len() == 0 <==> (r is Err && r->Err_0
                is ArchDetection),
            (spec_trim(arch_stdout.spec_bytes()).len() > 0 && Self::spec_arch_target(
                Self::spec_detected_arch(arch_stdout.spec_bytes()),
            ) is None) <==> (r is Err && r->Err_0 is UnsupportedArch),
            r is Ok ==> Some(r->Ok_0.0) == Self::spec_arch_target(
                Self::spec_detected_arch(arch_stdout.spec_bytes()),
            ),
            r is Ok ==> r->Ok_0.1@ == Self::spec_deploy_plan(
                match probe_stdout {
                    Some(out) => Self::spec_needs_upload(
                        Some(out.spec_bytes()),
                        current_version.spec_bytes(),
                    ),
                    None => true,
                },
            ),
            (spec_trim(arch_stdout.spec_bytes()).len() > 0 && Self::spec_arch_target(
                Self::spec_detected_arch(arch_stdout.spec_bytes()),
            ) is Some) ==> r is Ok,
    {
        let arch = Self::parse_arch_output(arch_stdout)?;
        let target = Self::arch_to_target(arch.as_str())?;
        let needs = Self::needs_upload(probe_stdout, current_version);
        Ok((target, Self::deploy_plan(needs)))
    }
}

/// Law: when the version probe's output carries the exact current version
/// (and no missing-binary marker), no upload command is planned — no
/// `mkdir`, no transfer, no `chmod` — and the start proceeds directly,
/// followed by the two handshake calls.
pub proof fn lemma_version_match_skips_upload(raw: Seq<u8>, version: Seq<u8>)
    requires
        spec_contains(spec_trim(raw), version),
        !spec_contains(spec_trim(raw), "NOT_FOUND".spec_bytes()),
        spec_trim(raw).len() > 0,
    ensures
        !AgentDeployer::spec_needs_upload(Some(raw), version),
        AgentDeployer::spec_deploy_plan(AgentDeployer::spec_needs_upload(Some(raw), version))
            =~= seq![DeployAction::StartAgent, DeployAction::Ping, DeployAction::SysInfo],
        !AgentDeployer::spec_deploy_plan(
            AgentDeployer::spec_needs_upload(Some(raw), version),
        ).contains(DeployAction::Mkdir),
        !AgentDeployer::spec_deploy_plan(
            AgentDeployer::spec_needs_upload(Some(raw), version),
        ).contains(DeployAction::Upload),
        !AgentDeployer::spec_deploy_plan(
            AgentDeployer::spec_needs_upload(Some(raw), version),
        ).contains(DeployAction::Chmod),
{
    let plan = AgentDeployer::spec_deploy_plan(false);
    assert(plan.len() == 3);
    assert forall|a: DeployAction| plan.contains(a) implies (a == DeployAction::StartAgent || a
        == DeployAction::Ping || a == DeployAction::SysInfo) by {
        let i = choose|i: int| 0 <= i < plan.len() && plan[i] == a;
    }
}

/// Law: when the probe returns empty output, the full sequence — `mkdir -p`,
/// upload, `chmod +x`, start, ping, `sys/info` — is planned, in that order.
pub proof fn lemma_empty_probe_runs_full_sequence(raw: Seq<u8>, version: Seq<u8>)
    requires
        spec_trim(raw).len() == 0,
    ensures
        AgentDeployer::spec_needs_upload(Some(raw), version),
        AgentDeployer::spec_deploy_plan(AgentDeployer::spec_needs_upload(Some(raw), version))
            =~= seq![
            DeployAction::Mkdir,
            DeployAction::Upload,
            DeployAction::Chmod,
            DeployAction::StartAgent,
            DeployAction::Ping,
            DeployAction::SysInfo,
        ],
{
}

/// Law: an architecture outside the supported set maps to no target, so the
/// deployment ends in `UnsupportedArch` before any binary is resolved or any
/// upload command is planned; retrying cannot help.
pub proof fn lemma_unrecognized_arch_is_terminal(arch: Seq<u8>)
    requires
        arch != "x86_64".spec_bytes(),
        arch != "amd64".spec_bytes(),
        arch != "aarch64".spec_bytes(),
        arch != "arm64".spec_bytes(),
    ensures
        AgentDeployer::spec_arch_target(arch) is None,
{
}

} // verus!

verus! {

/// The display text of a deployment status.
pub open spec fn status_text_bytes(s: AgentStatus) -> Seq<u8> {
    match s {
        AgentStatus::NotDeployed => "Not deployed".spec_bytes(),
        AgentStatus::Deploying => "Deploying...".spec_bytes(),
        AgentStatus::Ready { version, arch, pid } => "Ready v".spec_bytes()
            + vstd::utf8::encode_utf8(version@) + " ".spec_bytes() + vstd::utf8::encode_utf8(
            arch@,
        ) + " (pid ".spec_bytes() + crate::util::dec_bytes(pid as int) + ")".spec_bytes(),
        AgentStatus::Failed { reason } => "Failed: ".spec_bytes() + vstd::utf8::encode_utf8(
            reason@,
        ),
        AgentStatus::UnsupportedArch { arch } => "Unsupported arch: ".spec_bytes()
            + vstd::utf8::encode_utf8(arch@),
    }
}

impl AgentStatus {
    /// Render the status for display.
    pub fn status_text(&self) -> (r: String)
        ensures
            r@ == utf8_lossy_of(status_text_bytes(*self)),
    {
        let mut buf: Vec<u8> = Vec::new();
        match self {
            AgentStatus::NotDeployed => {
                buf.extend_from_slice("Not deployed".as_bytes());
            },
            AgentStatus::Deploying => {
                buf.extend_from_slice("Deploying...".as_bytes());
            },
            AgentStatus::Ready { version, arch, pid } => {
                buf.extend_from_slice("Ready v".as_bytes());
                buf.extend_from_slice(version.as_str().as_bytes());
                buf.extend_from_slice(" ".as_bytes());
                buf.extend_from_slice(arch.as_str().as_bytes());
                buf.extend_from_slice(" (pid ".as_bytes());
                let digits = crate::util::u64_to_dec(*pid as u64);
                buf.extend_from_slice(digits.as_slice());
                buf.extend_from_slice(")".as_bytes());
            },
            AgentStatus::Failed { reason } => {
                buf.extend_from_slice("Failed: ".as_bytes());
                buf.extend_from_slice(reason.as_str().as_bytes());
            },
            AgentStatus::UnsupportedArch { arch } => {
                buf.extend_from_slice("Unsupported arch: ".as_bytes());
                buf.extend_from_slice(arch.as_str().as_bytes());
            },
        }
        proof {
            assert(buf@ =~= status_text_bytes(*self));
        }
        lossy_string(buf.as_slice())
    }
}

} // verus!
