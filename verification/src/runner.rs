//! The orchestrator itself, written as a state machine.
//!
//! A run walks a fixed sequence: select the active environment, resolve
//! its network, provision the signing accounts, then drive every contract
//! flagged for deployment through install, instantiate, bind and import,
//! in the order the entries are stored.  All outward work is delegated:
//! each [`Runner::step`] consumes the outcome of the previous effect and
//! decides the notices to print and the next effect to perform.  The
//! caller loops: perform the effect, report the outcome, step again,
//! until the effect is [`Effect::Finish`] or [`Effect::Fail`].
//!
//! The first error ends the run: the machine moves to a terminal phase
//! that accepts no further event, so a failed contract is never installed,
//! instantiated, bound or imported, and neither is any contract after it.

use vstd::prelude::*;
use vstd::pervasive::unreached;
use crate::build_clients::{Cmd, Error, LoamEnv, NetworkPlan};
use crate::build_clients::{default_account, flagged_names, loam_env_text, plan_network};
use crate::env_toml;
use crate::env_toml::{Account, ContractEntry, Environment, Environments, clone_string, lookup};
use crate::text;

verus! {

/// What the caller must do next.  Effects that produce a value are
/// answered by the matching [`Event`]; the others are acknowledged with
/// [`Event::Ack`].
pub enum Effect {
    /// Look the named network up in the network registry.
    LookupNetwork { name: String },
    /// Publish the resolved endpoint and passphrase to the process-wide
    /// slots every later toolchain call reads.
    PublishNetwork { rpc_url: String, passphrase: String },
    /// Generate keys for the named account.
    GenerateKey { name: String },
    /// Publish the default signer's name to its process-wide slot.
    PublishDefaultAccount { name: String },
    /// Report whether a compiled bytecode artifact exists at `path`.
    CheckArtifact { path: String },
    /// Install the bytecode at `wasm_path` on-chain.
    Install { wasm_path: String },
    /// Instantiate the contract installed under `wasm_hash`.
    Deploy { wasm_hash: String },
    /// Generate client bindings for `contract_id` into `output_dir`.
    Bind { contract_id: String, output_dir: String },
    /// Write the generated import stub.
    WriteImport { path: String, contents: String },
    /// The run is complete.
    Finish,
    /// The run failed; no further step follows.
    Fail(Error),
}

/// One step's output: progress notices to print, in order, then an effect
/// to perform.
pub struct Command {
    pub notices: Vec<String>,
    pub effect: Effect,
}

/// The outcome of an effect, reported back by the caller.
pub enum Event {
    /// Starts the run; answers no effect.
    Start,
    /// Acknowledges an effect that produces no value.
    Ack,
    NetworkResolved { rpc_url: String, passphrase: String },
    NetworkLookupFailed { message: String },
    KeyGenerated,
    KeyGenerationFailed { message: String },
    ArtifactStatus { exists: bool },
    Installed { hash: String },
    InstallFailed { message: String },
    Deployed { contract_id: String },
    DeployFailed { message: String },
    Bound,
    BindFailed { message: String },
}

/// Where a run stands: which effect is outstanding.
#[derive(Clone, Copy, Debug, Eq, PartialEq, Structural)]
pub enum Phase {
    Start,
    AwaitLookup,
    AwaitNetPublish,
    AwaitKey { i: usize },
    AwaitAccountPublish,
    AwaitArtifact { c: usize },
    AwaitInstall { c: usize },
    AwaitDeploy { c: usize },
    AwaitBind { c: usize },
    AwaitImport { c: usize },
    Finished,
    Failed,
}

/// Whether a contract entry takes part in the deployment pipeline.
pub open spec fn eligible(e: ContractEntry) -> bool {
    e.contract.workspace == Some(true)
}

/// The first index at or after `from` whose entry takes part in the
/// pipeline; the length if there is none.
pub open spec fn first_eligible(cs: Seq<ContractEntry>, from: int) -> int
    decreases cs.len() - from,
{
    if from < 0 || from >= cs.len() {
        cs.len() as int
    } else if eligible(cs[from]) {
        from
    } else {
        first_eligible(cs, from + 1)
    }
}

pub proof fn lemma_first_eligible(cs: Seq<ContractEntry>, from: int)
    requires
        0 <= from <= cs.len(),
    ensures
        from <= first_eligible(cs, from) <= cs.len(),
        first_eligible(cs, from) < cs.len() ==> eligible(cs[first_eligible(cs, from)]),
    decreases cs.len() - from,
{
    if from < cs.len() && !eligible(cs[from]) {
        lemma_first_eligible(cs, from + 1);
    }
}

/// Finds the first pipeline-eligible contract entry at or after `from`.
#[verifier::loop_isolation(false)]
fn next_eligible(cs: &Vec<ContractEntry>, from: usize) -> (k: usize)
    requires
        from <= cs.len(),
    ensures
        k as int == first_eligible(cs@, from as int),
{
    let mut i = from;
    while i < cs.len()
        invariant
            from <= i <= cs.len(),
            first_eligible(cs@, from as int) == first_eligible(cs@, i as int),
        decreases cs.len() - i,
    {
        let w = match cs[i].contract.workspace {
            Some(b) => b,
            None => false,
        };
        if w {
            return i;
        }
        i = i + 1;
    }
    cs.len()
}

/// The orchestrator's state.  Build one with [`Runner::new`], then call
/// [`Runner::step`] with [`Event::Start`] and keep stepping with each
/// effect's outcome.
pub struct Runner {
    pub workspace_root: String,
    /// Whether the development environment is active (the import stub
    /// then permits insecure local transport).
    pub dev: bool,
    /// The lower-case name of the selected environment.
    pub loam_env_name: String,
    /// The parsed configuration document, until the run starts.
    pub config: Option<Environments>,
    /// The active environment, once selected.
    pub env: Option<Environment>,
    /// The chosen default signer, once selected.
    pub default_name: Option<String>,
    /// The resolved network passphrase, once published.
    pub passphrase: Option<String>,
    /// The current contract's identifier, once deployed.
    pub contract_id: Option<String>,
    /// A notice carried over to the next command.
    pub pending_notice: Option<String>,
    pub phase: Phase,
}

impl Runner {
    /// The account list of the active environment; meaningful under
    /// [`Runner::inv`] in the account phases.
    pub open spec fn accounts_of(self) -> Seq<Account> {
        self.env->Some_0.accounts->Some_0@
    }

    /// The contract entries of the active environment; meaningful under
    /// [`Runner::inv`] in the contract phases.
    pub open spec fn contracts_of(self) -> Seq<ContractEntry> {
        self.env->Some_0.contracts->Some_0@
    }

    /// What must hold of a contract phase at entry index `c`.
    pub open spec fn contract_inv(self, c: int) -> bool {
        &&& self.env is Some
        &&& self.env->Some_0.contracts is Some
        &&& 0 <= c < self.contracts_of().len()
        &&& eligible(self.contracts_of()[c])
    }

    /// The machine's well-formedness: what each phase guarantees about
    /// the stored state.
    pub open spec fn inv(self) -> bool {
        match self.phase {
            Phase::Start => self.env is None && self.pending_notice is None,
            Phase::AwaitLookup => self.env is Some && self.env->Some_0.network.name is Some
                && self.pending_notice is None,
            Phase::AwaitNetPublish => self.env is Some,
            Phase::AwaitKey { i } => self.env is Some && self.env->Some_0.accounts is Some && (
            i as int) < self.accounts_of().len() && self.default_name is Some,
            Phase::AwaitAccountPublish => self.env is Some,
            Phase::AwaitArtifact { c } => self.contract_inv(c as int),
            Phase::AwaitInstall { c } => self.contract_inv(c as int),
            Phase::AwaitDeploy { c } => self.contract_inv(c as int),
            Phase::AwaitBind { c } => self.contract_inv(c as int) && self.contract_id is Some,
            Phase::AwaitImport { c } => self.contract_inv(c as int),
            Phase::Finished => true,
            Phase::Failed => true,
        }
    }

    /// Which events the current phase accepts.  The terminal phases
    /// accept none: a finished or failed run takes no further step.
    pub open spec fn expects(self, ev: Event) -> bool {
        match self.phase {
            Phase::Start => ev is Start,
            Phase::AwaitLookup => ev is NetworkResolved || ev is NetworkLookupFailed,
            Phase::AwaitNetPublish => ev is Ack,
            Phase::AwaitKey { i } => ev is KeyGenerated || ev is KeyGenerationFailed,
            Phase::AwaitAccountPublish => ev is Ack,
            Phase::AwaitArtifact { c } => ev is ArtifactStatus,
            Phase::AwaitInstall { c } => ev is Installed || ev is InstallFailed,
            Phase::AwaitDeploy { c } => ev is Deployed || ev is DeployFailed,
            Phase::AwaitBind { c } => ev is Bound || ev is BindFailed,
            Phase::AwaitImport { c } => ev is Ack,
            Phase::Finished => false,
            Phase::Failed => false,
        }
    }

    /// The import stub embeds the published network passphrase, so once
    /// bindings complete one must be at hand.  An environment that skips
    /// network resolution but still deploys a workspace contract has
    /// none, and a run of it cannot pass this point.
    pub open spec fn bind_ready(self, ev: Event) -> bool {
        self.phase is AwaitBind && ev is Bound ==> self.passphrase is Some
    }
}

/// The default-signer selection rule of an environment whose account list
/// is present, non-empty and has at most one flagged account: the flagged
/// account's name, or, with none flagged, the first account's.
pub open spec fn selection_of(e: Environment) -> String {
    let accs = e.accounts->Some_0@;
    let f = flagged_names(accs);
    if f.len() == 1 {
        f[0]
    } else {
        accs[0].name
    }
}

/// `states`, `evs` and `cmds` chained by [`step_rel`] form one run.
pub open spec fn run_of(states: Seq<Runner>, evs: Seq<Event>, cmds: Seq<Command>) -> bool {
    &&& states.len() == evs.len() + 1
    &&& cmds.len() == evs.len()
    &&& states[0].phase == Phase::Start
    &&& forall|j: int|
        0 <= j < evs.len() ==> #[trigger] step_rel(states[j], evs[j], states[j + 1], cmds[j])
}

/// Along any run, whenever the machine stands in the account stage, the
/// stored default name is exactly the selection rule's choice for the
/// active environment.
pub proof fn lemma_selection_invariant(
    states: Seq<Runner>,
    evs: Seq<Event>,
    cmds: Seq<Command>,
    m: int,
)
    requires
        run_of(states, evs, cmds),
        0 <= m < states.len(),
    ensures
        states[m].phase is AwaitKey || states[m].phase == Phase::AwaitAccountPublish ==> {
            let s = states[m];
            &&& s.env is Some
            &&& s.env->Some_0.accounts is Some
            &&& s.env->Some_0.accounts->Some_0@.len() > 0
            &&& flagged_names(s.env->Some_0.accounts->Some_0@).len() <= 1
            &&& s.default_name == Some(selection_of(s.env->Some_0))
        },
    decreases m,
{
    if m > 0 {
        lemma_selection_invariant(states, evs, cmds, m - 1);
        let j = m - 1;
        assert(step_rel(states[j], evs[j], states[j + 1], cmds[j]));
    }
}

/// Wherever in the list the single flagged account stands — or, with no
/// account flagged, whichever account is declared first — that account's
/// name and no other is the one a run publishes as the default signer.
pub proof fn lemma_published_default_is_the_selection(
    states: Seq<Runner>,
    evs: Seq<Event>,
    cmds: Seq<Command>,
    m: int,
)
    requires
        run_of(states, evs, cmds),
        0 <= m < cmds.len(),
        cmds[m].effect is PublishDefaultAccount,
    ensures
        states[m].env is Some,
        cmds[m].effect->PublishDefaultAccount_name == selection_of(states[m].env->Some_0),
{
    lemma_selection_invariant(states, evs, cmds, m);
    let j = m;
    assert(step_rel(states[j], evs[j], states[j + 1], cmds[j]));
}

/// A run only ever asks for an install in answer to a report that the
/// contract's compiled artifact exists; together with the terminal failed
/// phase, a contract whose artifact is missing is never installed,
/// instantiated, bound or imported.
pub proof fn lemma_install_only_after_artifact_seen(
    states: Seq<Runner>,
    evs: Seq<Event>,
    cmds: Seq<Command>,
    m: int,
)
    requires
        run_of(states, evs, cmds),
        0 <= m < cmds.len(),
        cmds[m].effect is Install,
    ensures
        states[m].phase is AwaitArtifact,
        evs[m] matches Event::ArtifactStatus { exists } && exists,
{
    let j = m;
    assert(step_rel(states[j], evs[j], states[j + 1], cmds[j]));
}

/// With no configuration document present, the run's first step finishes
/// it at once: no notice is printed and nothing but [`Effect::Finish`] is
/// requested, so the caller performs no outward work at all.
pub proof fn lemma_no_config_runs_clean(pre: Runner, post: Runner, cmd: Command)
    requires
        pre.phase == Phase::Start,
        pre.config is None,
        step_rel(pre, Event::Start, post, cmd),
    ensures
        post.phase == Phase::Finished,
        cmd.notices@.len() == 0,
        cmd.effect == Effect::Finish,
{
}

/// A finished or failed run accepts no further event.  In particular,
/// once a contract's artifact is found missing — or any of its stages
/// fails — nothing more is installed, instantiated, bound or imported in
/// that run: neither for that contract nor for any entry after it.
pub proof fn lemma_terminal_accepts_no_event(r: Runner, ev: Event)
    ensures
        r.phase == Phase::Finished || r.phase == Phase::Failed ==> !r.expects(ev),
{
}

/// The fields that identify the run, kept across every step that goes on.
pub open spec fn ids_kept(pre: Runner, post: Runner) -> bool {
    &&& post.workspace_root == pre.workspace_root
    &&& post.dev == pre.dev
    &&& post.loam_env_name == pre.loam_env_name
}

/// The state an account or contract phase carries along unchanged.
pub open spec fn carried(pre: Runner, post: Runner) -> bool {
    &&& ids_kept(pre, post)
    &&& post.env == pre.env
    &&& post.default_name == pre.default_name
    &&& post.passphrase == pre.passphrase
    &&& post.pending_notice == pre.pending_notice
}

pub open spec fn no_notices(cmd: Command) -> bool {
    cmd.notices@.len() == 0
}

/// The notices of `cmd` read, in order, as `texts`.
pub open spec fn notices_are(cmd: Command, texts: Seq<Seq<char>>) -> bool {
    &&& cmd.notices@.len() == texts.len()
    &&& forall|j: int| 0 <= j < texts.len() ==> cmd.notices@[j]@ == #[trigger] texts[j]
}

/// The notice a step was asked to carry over, as the leading notices of
/// its command.
pub open spec fn lead_of(pre: Runner) -> Seq<Seq<char>> {
    match pre.pending_notice {
        Some(t) => seq![t@],
        None => Seq::empty(),
    }
}

/// The account stage begins: the default signer is selected before any
/// key is generated; an absent or empty list fails the run, and so do two
/// or more flagged accounts; otherwise the first account's keys are
/// requested.
pub open spec fn accounts_begin_rel(
    e: Environment,
    pre: Runner,
    post: Runner,
    cmd: Command,
    lead: Seq<Seq<char>>,
) -> bool {
    if e.accounts is None || e.accounts->Some_0@.len() == 0 {
        &&& post.phase == Phase::Failed
        &&& notices_are(cmd, lead)
        &&& cmd.effect == Effect::Fail(Error::NeedAtLeastOneAccount)
    } else {
        let accs = e.accounts->Some_0@;
        let f = flagged_names(accs);
        if f.len() >= 2 {
            &&& post.phase == Phase::Failed
            &&& notices_are(cmd, lead)
            &&& cmd.effect matches Effect::Fail(Error::OnlyOneDefaultAccount(ns)) && ns@ == f
        } else {
            let dflt = if f.len() == 1 {
                f[0]
            } else {
                accs[0].name
            };
            &&& ids_kept(pre, post)
            &&& post.env == Some(e)
            &&& post.passphrase == pre.passphrase
            &&& post.pending_notice is None
            &&& post.default_name == Some(dflt)
            &&& post.phase == (Phase::AwaitKey { i: 0 })
            &&& notices_are(cmd, lead.push(text::key_notice_text(accs[0].name@)))
            &&& cmd.effect matches Effect::GenerateKey { name } && name == accs[0].name
        }
    }
}

/// The contract stage begins at or after entry `from`: entries not
/// flagged for the workspace are skipped silently; with none left the run
/// finishes, else the next contract's artifact is checked.
pub open spec fn contracts_begin_rel(
    e: Environment,
    pre: Runner,
    post: Runner,
    cmd: Command,
    from: int,
) -> bool {
    let finished = {
        &&& ids_kept(pre, post)
        &&& post.phase == Phase::Finished
        &&& no_notices(cmd)
        &&& cmd.effect == Effect::Finish
    };
    match e.contracts {
        None => finished,
        Some(cs) => {
            let k = first_eligible(cs@, from);
            if k == cs@.len() {
                finished
            } else {
                &&& ids_kept(pre, post)
                &&& post.env == Some(e)
                &&& post.passphrase == pre.passphrase
                &&& post.default_name == pre.default_name
                &&& post.contract_id == pre.contract_id
                &&& post.phase == (Phase::AwaitArtifact { c: k as usize })
                &&& no_notices(cmd)
                &&& cmd.effect matches Effect::CheckArtifact { path } && path@
                    == text::wasm_path_text(pre.workspace_root@, cs@[k].name@)
            }
        },
    }
}

/// A failure with no notices owed: the run moves to the terminal failed
/// phase.  (A failure of the account stage delivers a carried-over notice
/// first; that case is stated in [`accounts_begin_rel`].)
pub open spec fn fail_rel(post: Runner, cmd: Command) -> bool {
    &&& post.phase == Phase::Failed
    &&& no_notices(cmd)
}

/// The run starts: a missing configuration document finishes at once
/// with nothing done; a document without the selected environment fails;
/// otherwise the network decision is taken.
pub open spec fn start_rel(pre: Runner, post: Runner, cmd: Command) -> bool {
    match pre.config {
        None => {
            &&& ids_kept(pre, post)
            &&& post.phase == Phase::Finished
            &&& no_notices(cmd)
            &&& cmd.effect == Effect::Finish
        },
        Some(envs) => match lookup(envs.0@, pre.loam_env_name@) {
            None => {
                &&& fail_rel(post, cmd)
                &&& cmd.effect matches Effect::Fail(
                    Error::EnvironmentsToml(env_toml::Error::NoSettingsForCurrentEnv(n)),
                ) && n@ == pre.loam_env_name@
            },
            Some(e) => start_network_rel(e, pre, post, cmd),
        },
    }
}

/// The network decision of the freshly selected environment `e`: a named
/// network is looked up; an explicit pair is published, its notice owed
/// after the publish; a URL without a passphrase fails the run; with no
/// network configured, resolution is skipped and the account stage
/// begins at once.
pub open spec fn start_network_rel(e: Environment, pre: Runner, post: Runner, cmd: Command) -> bool {
    if e.network.name is Some {
        &&& ids_kept(pre, post)
        &&& post.env == Some(e)
        &&& post.phase == Phase::AwaitLookup
        &&& post.pending_notice is None
        &&& no_notices(cmd)
        &&& cmd.effect matches Effect::LookupNetwork { name } && name == e.network.name->Some_0
    } else if e.network.rpc_url is Some && e.network.network_passphrase is Some {
        &&& ids_kept(pre, post)
        &&& post.env == Some(e)
        &&& post.phase == Phase::AwaitNetPublish
        &&& post.passphrase == Some(e.network.network_passphrase->Some_0)
        &&& post.pending_notice matches Some(t) && t@ == text::network_url_notice_text(
            e.network.rpc_url->Some_0@,
        )
        &&& no_notices(cmd)
        &&& cmd.effect matches Effect::PublishNetwork { rpc_url, passphrase } && rpc_url
            == e.network.rpc_url->Some_0 && passphrase == e.network.network_passphrase->Some_0
    } else if e.network.rpc_url is Some {
        &&& fail_rel(post, cmd)
        &&& cmd.effect == Effect::Fail(Error::MalformedNetwork)
    } else {
        accounts_begin_rel(e, pre, post, cmd, Seq::empty())
    }
}

/// A named-network lookup came back: on success its notice is printed and
/// the pair is published; a registry failure fails the run.
pub open spec fn lookup_rel(pre: Runner, ev: Event, post: Runner, cmd: Command) -> bool {
    match ev {
        Event::NetworkResolved { rpc_url, passphrase } => {
            &&& ids_kept(pre, post)
            &&& post.env == pre.env
            &&& post.phase == Phase::AwaitNetPublish
            &&& post.passphrase == Some(passphrase)
            &&& post.pending_notice is None
            &&& notices_are(
                cmd,
                seq![text::network_name_notice_text(pre.env->Some_0.network.name->Some_0@)],
            )
            &&& cmd.effect matches Effect::PublishNetwork { rpc_url: u, passphrase: p } && u
                == rpc_url && p == passphrase
        },
        Event::NetworkLookupFailed { message } => {
            &&& fail_rel(post, cmd)
            &&& cmd.effect matches Effect::Fail(Error::ParsingNetwork(m)) && m == message
        },
        _ => false,
    }
}

/// A key generation came back: the next account's keys are requested,
/// or, after the last account, the selected default signer is published.
pub open spec fn key_rel(pre: Runner, i: int, ev: Event, post: Runner, cmd: Command) -> bool {
    let accs = pre.accounts_of();
    match ev {
        Event::KeyGenerated => {
            if i + 1 < accs.len() {
                &&& carried(pre, post)
                &&& post.phase == (Phase::AwaitKey { i: (i + 1) as usize })
                &&& notices_are(cmd, seq![text::key_notice_text(accs[i + 1].name@)])
                &&& cmd.effect matches Effect::GenerateKey { name } && name == accs[i + 1].name
            } else {
                &&& carried(pre, post)
                &&& post.phase == Phase::AwaitAccountPublish
                &&& no_notices(cmd)
                &&& cmd.effect matches Effect::PublishDefaultAccount { name } && name
                    == pre.default_name->Some_0
            }
        },
        Event::KeyGenerationFailed { message } => {
            &&& fail_rel(post, cmd)
            &&& cmd.effect matches Effect::Fail(Error::GeneratingKey(m)) && m == message
        },
        _ => false,
    }
}

/// The artifact check came back: a missing artifact fails the run naming
/// the contract, and nothing further happens to it or to any contract
/// after it; otherwise the install is requested with its notice.
pub open spec fn artifact_rel(pre: Runner, c: int, ev: Event, post: Runner, cmd: Command) -> bool {
    let name = pre.contracts_of()[c].name;
    match ev {
        Event::ArtifactStatus { exists } => {
            if exists {
                &&& carried(pre, post)
                &&& post.contract_id == pre.contract_id
                &&& post.phase == (Phase::AwaitInstall { c: c as usize })
                &&& notices_are(cmd, seq![text::install_notice_text(name@)])
                &&& cmd.effect matches Effect::Install { wasm_path } && wasm_path@
                    == text::wasm_path_text(pre.workspace_root@, name@)
            } else {
                &&& fail_rel(post, cmd)
                &&& cmd.effect matches Effect::Fail(Error::BadContractName(n)) && n == name
            }
        },
        _ => false,
    }
}

/// The install came back: its hash is reported and the deploy of that
/// hash is requested; every run deploys afresh, no hash is ever compared
/// against an earlier run.
pub open spec fn install_rel(pre: Runner, c: int, ev: Event, post: Runner, cmd: Command) -> bool {
    let name = pre.contracts_of()[c].name;
    match ev {
        Event::Installed { hash } => {
            &&& carried(pre, post)
            &&& post.contract_id == pre.contract_id
            &&& post.phase == (Phase::AwaitDeploy { c: c as usize })
            &&& notices_are(
                cmd,
                seq![text::hash_notice_text(hash@), text::deploy_notice_text(name@)],
            )
            &&& cmd.effect matches Effect::Deploy { wasm_hash } && wasm_hash == hash
        },
        Event::InstallFailed { message } => {
            &&& fail_rel(post, cmd)
            &&& cmd.effect matches Effect::Fail(Error::ContractInstall(m)) && m == message
        },
        _ => false,
    }
}

/// The deploy came back: the identifier is reported and kept, and the
/// binding generation is requested.
pub open spec fn deploy_rel(pre: Runner, c: int, ev: Event, post: Runner, cmd: Command) -> bool {
    let name = pre.contracts_of()[c].name;
    match ev {
        Event::Deployed { contract_id } => {
            &&& carried(pre, post)
            &&& post.contract_id == Some(contract_id)
            &&& post.phase == (Phase::AwaitBind { c: c as usize })
            &&& notices_are(
                cmd,
                seq![text::id_notice_text(contract_id@), text::bind_notice_text(name@)],
            )
            &&& cmd.effect matches Effect::Bind { contract_id: id, output_dir } && id == contract_id
                && output_dir@ == text::packages_dir_text(pre.workspace_root@, name@)
        },
        Event::DeployFailed { message } => {
            &&& fail_rel(post, cmd)
            &&& cmd.effect matches Effect::Fail(Error::ContractDeploy(m)) && m == message
        },
        _ => false,
    }
}

/// The binding came back: the import stub is written, embedding the
/// published passphrase, the contract identifier and, in the development
/// environment only, the insecure-transport flag.
pub open spec fn bind_rel(pre: Runner, c: int, ev: Event, post: Runner, cmd: Command) -> bool {
    let name = pre.contracts_of()[c].name;
    match ev {
        Event::Bound => {
            &&& carried(pre, post)
            &&& post.contract_id == pre.contract_id
            &&& post.phase == (Phase::AwaitImport { c: c as usize })
            &&& notices_are(cmd, seq![text::import_notice_text(name@)])
            &&& cmd.effect matches Effect::WriteImport { path, contents } && path@
                == text::import_path_text(pre.workspace_root@, name@) && contents@
                == text::import_template_text(
                name@,
                pre.passphrase->Some_0@,
                pre.contract_id->Some_0@,
                pre.dev,
            )
        },
        Event::BindFailed { message } => {
            &&& fail_rel(post, cmd)
            &&& cmd.effect matches Effect::Fail(Error::ContractBindings(m)) && m == message
        },
        _ => false,
    }
}

/// The whole transition relation of one step, by phase.
pub open spec fn step_rel(pre: Runner, ev: Event, post: Runner, cmd: Command) -> bool {
    match pre.phase {
        Phase::Start => start_rel(pre, post, cmd),
        Phase::AwaitLookup => lookup_rel(pre, ev, post, cmd),
        Phase::AwaitNetPublish => accounts_begin_rel(
            pre.env->Some_0,
            pre,
            post,
            cmd,
            lead_of(pre),
        ),
        Phase::AwaitKey { i } => key_rel(pre, i as int, ev, post, cmd),
        Phase::AwaitAccountPublish => contracts_begin_rel(pre.env->Some_0, pre, post, cmd, 0),
        Phase::AwaitArtifact { c } => artifact_rel(pre, c as int, ev, post, cmd),
        Phase::AwaitInstall { c } => install_rel(pre, c as int, ev, post, cmd),
        Phase::AwaitDeploy { c } => deploy_rel(pre, c as int, ev, post, cmd),
        Phase::AwaitBind { c } => bind_rel(pre, c as int, ev, post, cmd),
        Phase::AwaitImport { c } => contracts_begin_rel(
            pre.env->Some_0,
            pre,
            post,
            cmd,
            c as int + 1,
        ),
        Phase::Finished => false,
        Phase::Failed => false,
    }
}

impl Runner {
    /// Builds the machine for one run of `cmd` over a parsed
    /// configuration document (`None` when no document exists).
    pub fn new(cmd: &Cmd, config: Option<Environments>) -> (r: Runner)
        ensures
            r.inv(),
            r.phase == Phase::Start,
            r.workspace_root == cmd.workspace_root,
            r.dev == (cmd.env == LoamEnv::Development),
            r.loam_env_name@ == loam_env_text(cmd.env),
            r.config == config,
            r.env is None,
            r.default_name is None,
            r.passphrase is None,
            r.contract_id is None,
            r.pending_notice is None,
    {
        Runner {
            workspace_root: clone_string(&cmd.workspace_root),
            dev: cmd.env == LoamEnv::Development,
            loam_env_name: cmd.loam_env(),
            config,
            env: None,
            default_name: None,
            passphrase: None,
            contract_id: None,
            pending_notice: None,
            phase: Phase::Start,
        }
    }

    /// Moves to the terminal failed phase.
    fn fail(&mut self, e: Error) -> (cmd: Command)
        ensures
            ids_kept(*old(self), *final(self)),
            final(self).phase == Phase::Failed,
            final(self).inv(),
            no_notices(cmd),
            cmd.effect == Effect::Fail(e),
    {
        self.phase = Phase::Failed;
        Command { notices: Vec::new(), effect: Effect::Fail(e) }
    }

    /// Selects the default signer and requests the first account's keys,
    /// delivering any carried-over notice first.
    fn begin_accounts(&mut self) -> (cmd: Command)
        requires
            old(self).env is Some,
        ensures
            final(self).inv(),
            accounts_begin_rel(
                old(self).env->Some_0,
                *old(self),
                *final(self),
                cmd,
                lead_of(*old(self)),
            ),
    {
        let lead = self.pending_notice.take();
        let mut notices: Vec<String> = Vec::new();
        match lead {
            Some(t) => notices.push(t),
            None => (),
        }
        let selection = default_account(&self.env.as_ref().unwrap().accounts);
        match selection {
            Err(e) => {
                self.phase = Phase::Failed;
                Command { notices, effect: Effect::Fail(e) }
            },
            Ok(name) => {
                self.default_name = Some(name);
                let first = clone_string(&self.env.as_ref().unwrap().accounts.as_ref().unwrap()[0].name);
                let notice = text::key_notice(first.as_str());
                notices.push(notice);
                self.phase = Phase::AwaitKey { i: 0 };
                Command { notices, effect: Effect::GenerateKey { name: first } }
            },
        }
    }

    /// Finds the next contract to deploy at or after entry `from`, or
    /// finishes the run.
    fn begin_contracts(&mut self, from: usize) -> (cmd: Command)
        requires
            old(self).env is Some,
            old(self).env->Some_0.contracts matches Some(cs) ==> from <= cs@.len(),
        ensures
            final(self).inv(),
            contracts_begin_rel(old(self).env->Some_0, *old(self), *final(self), cmd, from as int),
    {
        let has_work: Option<usize> = match &self.env.as_ref().unwrap().contracts {
            None => None,
            Some(cs) => {
                let k = next_eligible(cs, from);
                proof {
                    lemma_first_eligible(cs@, from as int);
                }
                if k < cs.len() {
                    Some(k)
                } else {
                    None
                }
            },
        };
        match has_work {
            None => {
                self.phase = Phase::Finished;
                Command { notices: Vec::new(), effect: Effect::Finish }
            },
            Some(k) => {
                let name = clone_string(
                    &self.env.as_ref().unwrap().contracts.as_ref().unwrap()[k].name,
                );
                let path = text::wasm_path(self.workspace_root.as_str(), name.as_str());
                self.phase = Phase::AwaitArtifact { c: k };
                Command { notices: Vec::new(), effect: Effect::CheckArtifact { path } }
            },
        }
    }

    /// Takes the run's first step.
    fn do_start(&mut self) -> (cmd: Command)
        requires
            old(self).inv(),
            old(self).phase == Phase::Start,
        ensures
            final(self).inv(),
            start_rel(*old(self), *final(self), cmd),
    {
        let cfg = self.config.take();
        match Environment::get(cfg, &self.loam_env_name) {
            Ok(None) => {
                self.phase = Phase::Finished;
                Command { notices: Vec::new(), effect: Effect::Finish }
            },
            Err(e) => self.fail(Error::EnvironmentsToml(e)),
            Ok(Some(env)) => {
                let plan = plan_network(&env.network);
                self.env = Some(env);
                match plan {
                    Err(e) => self.fail(e),
                    Ok(NetworkPlan::Named { name }) => {
                        self.phase = Phase::AwaitLookup;
                        Command { notices: Vec::new(), effect: Effect::LookupNetwork { name } }
                    },
                    Ok(NetworkPlan::Explicit { rpc_url, passphrase }) => {
                        self.passphrase = Some(clone_string(&passphrase));
                        self.pending_notice = Some(text::network_url_notice(rpc_url.as_str()));
                        self.phase = Phase::AwaitNetPublish;
                        Command {
                            notices: Vec::new(),
                            effect: Effect::PublishNetwork { rpc_url, passphrase },
                        }
                    },
                    Ok(NetworkPlan::Skip) => self.begin_accounts(),
                }
            },
        }
    }

    /// Consumes the outcome of the previous effect and produces the next
    /// command: notices to print, then an effect to perform.
    pub fn step(&mut self, ev: Event) -> (cmd: Command)
        requires
            old(self).inv(),
            old(self).expects(ev),
            old(self).bind_ready(ev),
        ensures
            final(self).inv(),
            step_rel(*old(self), ev, *final(self), cmd),
    {
        let ph = self.phase;
        match ph {
            Phase::Start => match ev {
                Event::Start => self.do_start(),
                _ => unreached(),
            },
            Phase::AwaitLookup => match ev {
                Event::NetworkResolved { rpc_url, passphrase } => {
                    let notice = text::network_name_notice(
                        self.env.as_ref().unwrap().network.name.as_ref().unwrap().as_str(),
                    );
                    self.passphrase = Some(clone_string(&passphrase));
                    self.phase = Phase::AwaitNetPublish;
                    let mut notices: Vec<String> = Vec::new();
                    notices.push(notice);
                    Command { notices, effect: Effect::PublishNetwork { rpc_url, passphrase } }
                },
                Event::NetworkLookupFailed { message } => self.fail(Error::ParsingNetwork(message)),
                _ => unreached(),
            },
            Phase::AwaitNetPublish => match ev {
                Event::Ack => self.begin_accounts(),
                _ => unreached(),
            },
            Phase::AwaitKey { i } => match ev {
                Event::KeyGenerated => {
                    let n = self.env.as_ref().unwrap().accounts.as_ref().unwrap().len();
                    if i + 1 < n {
                        let name = clone_string(
                            &self.env.as_ref().unwrap().accounts.as_ref().unwrap()[i + 1].name,
                        );
                        let notice = text::key_notice(name.as_str());
                        let mut notices: Vec<String> = Vec::new();
                        notices.push(notice);
                        self.phase = Phase::AwaitKey { i: i + 1 };
                        Command { notices, effect: Effect::GenerateKey { name } }
                    } else {
                        let name = clone_string(self.default_name.as_ref().unwrap());
                        self.phase = Phase::AwaitAccountPublish;
                        Command {
                            notices: Vec::new(),
                            effect: Effect::PublishDefaultAccount { name },
                        }
                    }
                },
                Event::KeyGenerationFailed { message } => self.fail(Error::GeneratingKey(message)),
                _ => unreached(),
            },
            Phase::AwaitAccountPublish => match ev {
                Event::Ack => self.begin_contracts(0),
                _ => unreached(),
            },
            Phase::AwaitArtifact { c } => match ev {
                Event::ArtifactStatus { exists } => {
                    let name = clone_string(
                        &self.env.as_ref().unwrap().contracts.as_ref().unwrap()[c].name,
                    );
                    if exists {
                        let path = text::wasm_path(self.workspace_root.as_str(), name.as_str());
                        let notice = text::install_notice(name.as_str());
                        let mut notices: Vec<String> = Vec::new();
                        notices.push(notice);
                        self.phase = Phase::AwaitInstall { c };
                        Command { notices, effect: Effect::Install { wasm_path: path } }
                    } else {
                        self.fail(Error::BadContractName(name))
                    }
                },
                _ => unreached(),
            },
            Phase::AwaitInstall { c } => match ev {
                Event::Installed { hash } => {
                    let name = clone_string(
                        &self.env.as_ref().unwrap().contracts.as_ref().unwrap()[c].name,
                    );
                    let mut notices: Vec<String> = Vec::new();
                    notices.push(text::hash_notice(hash.as_str()));
                    notices.push(text::deploy_notice(name.as_str()));
                    self.phase = Phase::AwaitDeploy { c };
                    Command { notices, effect: Effect::Deploy { wasm_hash: hash } }
                },
                Event::InstallFailed { message } => self.fail(Error::ContractInstall(message)),
                _ => unreached(),
            },
            Phase::AwaitDeploy { c } => match ev {
                Event::Deployed { contract_id } => {
                    let name = clone_string(
                        &self.env.as_ref().unwrap().contracts.as_ref().unwrap()[c].name,
                    );
                    let output_dir = text::packages_dir(self.workspace_root.as_str(), name.as_str());
                    let mut notices: Vec<String> = Vec::new();
                    notices.push(text::id_notice(contract_id.as_str()));
                    notices.push(text::bind_notice(name.as_str()));
                    self.contract_id = Some(clone_string(&contract_id));
                    self.phase = Phase::AwaitBind { c };
                    Command { notices, effect: Effect::Bind { contract_id, output_dir } }
                },
                Event::DeployFailed { message } => self.fail(Error::ContractDeploy(message)),
                _ => unreached(),
            },
            Phase::AwaitBind { c } => match ev {
                Event::Bound => {
                    let name = clone_string(
                        &self.env.as_ref().unwrap().contracts.as_ref().unwrap()[c].name,
                    );
                    let contents = text::import_template(
                        name.as_str(),
                        self.passphrase.as_ref().unwrap().as_str(),
                        self.contract_id.as_ref().unwrap().as_str(),
                        self.dev,
                    );
                    let path = text::import_path(self.workspace_root.as_str(), name.as_str());
                    let notice = text::import_notice(name.as_str());
                    let mut notices: Vec<String> = Vec::new();
                    notices.push(notice);
                    self.phase = Phase::AwaitImport { c };
                    Command { notices, effect: Effect::WriteImport { path, contents } }
                },
                Event::BindFailed { message } => self.fail(Error::ContractBindings(message)),
                _ => unreached(),
            },
            Phase::AwaitImport { c } => match ev {
                Event::Ack => {
                    let l = self.env.as_ref().unwrap().contracts.as_ref().unwrap().len();
                    if c < l {
                        self.begin_contracts(c + 1)
                    } else {
                        unreached()
                    }
                },
                _ => unreached(),
            },
            Phase::Finished => unreached(),
            Phase::Failed => unreached(),
        }
    }
}

} // verus!

