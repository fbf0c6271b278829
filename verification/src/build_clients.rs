//! The orchestrator's command surface and its pure decisions: which
//! environment name is active, how a network reference is resolved, which
//! account signs by default, and the error taxonomy of a run.

use vstd::prelude::*;
use crate::env_toml;
use crate::env_toml::{Account, Network};
use crate::env_toml::clone_string;
use crate::text;

verus! {

/// The environment selector: which top-level key of the configuration
/// document a run uses.
#[derive(Clone, Copy, Debug, Eq, Hash, PartialEq, Structural)]
pub enum LoamEnv {
    Development,
    Testing,
    Staging,
    Production,
}

/// A deployment run: a workspace root and the selected environment.
///
/// Paths are plain strings; components are joined with `/`.
pub struct Cmd {
    pub workspace_root: String,
    pub env: LoamEnv,
}

/// The lower-case name under which an environment selector appears in the
/// configuration document.
pub open spec fn loam_env_text(e: LoamEnv) -> Seq<char> {
    match e {
        LoamEnv::Development => "development"@,
        LoamEnv::Testing => "testing"@,
        LoamEnv::Staging => "staging"@,
        LoamEnv::Production => "production"@,
    }
}

impl Cmd {
    /// The lower-case name of the selected environment.
    pub fn loam_env(&self) -> (r: String)
        ensures
            r@ == loam_env_text(self.env),
    {
        match self.env {
            LoamEnv::Development => String::from_str("development"),
            LoamEnv::Testing => String::from_str("testing"),
            LoamEnv::Staging => String::from_str("staging"),
            LoamEnv::Production => String::from_str("production"),
        }
    }
}

/// Everything that can end a run early.  Failures of the toolchain
/// collaborators (network lookup, key generation, install, deploy,
/// bindings) carry the collaborator's message.
#[derive(Debug)]
pub enum Error {
    EnvironmentsToml(env_toml::Error),
    MalformedNetwork,
    ParsingNetwork(String),
    GeneratingKey(String),
    OnlyOneDefaultAccount(Vec<String>),
    NeedAtLeastOneAccount,
    BadContractName(String),
    ContractInstall(String),
    ContractDeploy(String),
    ContractBindings(String),
}

impl Error {
    /// The message shown for this error.
    pub open spec fn message_text(self) -> Seq<char> {
        match self {
            Error::EnvironmentsToml(e) => e.message_text(),
            Error::MalformedNetwork => "\u{26d4} \u{fe0f}invalid network: must either specify a network name or both network_passphrase and rpc_url"@,
            Error::ParsingNetwork(m) => m@,
            Error::GeneratingKey(m) => m@,
            Error::OnlyOneDefaultAccount(ns) => "\u{26d4} \u{fe0f}can only have one default account; marked as default: "@
                + text::list_debug_text(ns@),
            Error::NeedAtLeastOneAccount => "\u{26d4} \u{fe0f}you need to provide at least one account, to use as the source account for contract deployment and other operations"@,
            Error::BadContractName(n) => "\u{26d4} \u{fe0f}No contract named "@ + text::quoted_text(
                n@,
            ),
            Error::ContractInstall(m) => m@,
            Error::ContractDeploy(m) => m@,
            Error::ContractBindings(m) => m@,
        }
    }

    /// Renders the error's message.
    pub fn message(&self) -> (r: String)
        ensures
            r@ == self.message_text(),
    {
        match self {
            Error::EnvironmentsToml(e) => e.message(),
            Error::MalformedNetwork => String::from_str(
                "\u{26d4} \u{fe0f}invalid network: must either specify a network name or both network_passphrase and rpc_url",
            ),
            Error::ParsingNetwork(m) => clone_string(m),
            Error::GeneratingKey(m) => clone_string(m),
            Error::OnlyOneDefaultAccount(ns) => {
                let mut out = String::from_str(
                    "\u{26d4} \u{fe0f}can only have one default account; marked as default: ",
                );
                let l = text::list_debug(ns);
                out.append(l.as_str());
                out
            },
            Error::NeedAtLeastOneAccount => String::from_str(
                "\u{26d4} \u{fe0f}you need to provide at least one account, to use as the source account for contract deployment and other operations",
            ),
            Error::BadContractName(n) => {
                let mut out = String::from_str("\u{26d4} \u{fe0f}No contract named ");
                let q = text::quoted(n.as_str());
                out.append(q.as_str());
                out
            },
            Error::ContractInstall(m) => clone_string(m),
            Error::ContractDeploy(m) => clone_string(m),
            Error::ContractBindings(m) => clone_string(m),
        }
    }
}

/// How a network reference is to be resolved: look a name up in the
/// network registry, use an explicit endpoint/passphrase pair, or skip
/// resolution because no network is configured.
pub enum NetworkPlan {
    Named { name: String },
    Explicit { rpc_url: String, passphrase: String },
    Skip,
}

/// Decides how a network reference is resolved.
///
/// A name, if present, always wins.  An explicit RPC URL requires the
/// passphrase beside it.  With neither name nor URL, resolution is
/// skipped; a passphrase alone is ignored.
pub fn plan_network(network: &Network) -> (r: Result<NetworkPlan, Error>)
    ensures
        network.name matches Some(n) ==> (r matches Ok(NetworkPlan::Named { name }) && name == n),
        network.name is None && network.rpc_url is Some && network.network_passphrase is Some ==> (
        r matches Ok(NetworkPlan::Explicit { rpc_url, passphrase }) && rpc_url
            == network.rpc_url->Some_0 && passphrase == network.network_passphrase->Some_0),
        network.name is None && network.rpc_url is Some && network.network_passphrase is None ==> r
            == Err::<NetworkPlan, Error>(Error::MalformedNetwork),
        network.name is None && network.rpc_url is None ==> (r matches Ok(NetworkPlan::Skip)),
{
    match &network.name {
        Some(n) => Ok(NetworkPlan::Named { name: clone_string(n) }),
        None => match &network.rpc_url {
            Some(u) => match &network.network_passphrase {
                Some(p) => Ok(
                    NetworkPlan::Explicit { rpc_url: clone_string(u), passphrase: clone_string(p) },
                ),
                None => Err(Error::MalformedNetwork),
            },
            None => Ok(NetworkPlan::Skip),
        },
    }
}

/// The names of the accounts flagged `default = true`, in declared order.
pub open spec fn flagged_names(accs: Seq<Account>) -> Seq<String>
    decreases accs.len(),
{
    if accs.len() == 0 {
        Seq::empty()
    } else {
        flagged_names(accs.drop_last()) + (if accs.last().default == Some(true) {
            seq![accs.last().name]
        } else {
            Seq::<String>::empty()
        })
    }
}

/// Selects the default signing account from an environment's account list.
///
/// An absent or empty list is an error; more than one flagged account is
/// an error naming every flagged account in declared order; exactly one
/// flagged account wins regardless of position; with none flagged the
/// first account in declared order wins.
#[verifier::loop_isolation(false)]
pub fn default_account(accounts: &Option<Vec<Account>>) -> (r: Result<String, Error>)
    ensures
        accounts is None ==> r == Err::<String, Error>(Error::NeedAtLeastOneAccount),
        accounts matches Some(accs) ==> ({
            let f = flagged_names(accs@);
            &&& accs@.len() == 0 ==> r == Err::<String, Error>(Error::NeedAtLeastOneAccount)
            &&& (accs@.len() > 0 && f.len() >= 2) ==> (r matches Err(
                Error::OnlyOneDefaultAccount(ns),
            ) && ns@ == f)
            &&& (accs@.len() > 0 && f.len() == 1) ==> r == Ok::<String, Error>(f[0])
            &&& (accs@.len() > 0 && f.len() == 0) ==> r == Ok::<String, Error>(accs@[0].name)
        }),
{
    match accounts {
        None => Err(Error::NeedAtLeastOneAccount),
        Some(accs) => {
            let mut flagged: Vec<String> = Vec::new();
            let mut i: usize = 0;
            while i < accs.len()
                invariant
                    i <= accs.len(),
                    flagged@ == flagged_names(accs@.subrange(0, i as int)),
                decreases accs.len() - i,
            {
                let is_default = match accs[i].default {
                    Some(d) => d,
                    None => false,
                };
                if is_default {
                    flagged.push(clone_string(&accs[i].name));
                }
                proof {
                    assert(accs@.subrange(0, i + 1).drop_last() =~= accs@.subrange(0, i as int));
                    assert(accs@.subrange(0, i + 1).last() == accs@[i as int]);
                    assert(flagged@ =~= flagged_names(accs@.subrange(0, i + 1)));
                }
                i = i + 1;
            }
            proof {
                assert(accs@.subrange(0, accs@.len() as int) =~= accs@);
            }
            if accs.len() == 0 {
                Err(Error::NeedAtLeastOneAccount)
            } else if flagged.len() == 0 {
                Ok(clone_string(&accs[0].name))
            } else if flagged.len() == 1 {
                let name = flagged.swap_remove(0);
                Ok(name)
            } else {
                Err(Error::OnlyOneDefaultAccount(flagged))
            }
        },
    }
}

} // verus!

