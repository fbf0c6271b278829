//! Typed model of the configuration document.
//!
//! The document maps environment names to environment descriptions: an
//! optional ordered list of accounts, a network reference and an optional
//! set of contract entries.  The caller parses the document into these
//! types; this module owns the lookup of the active environment and the
//! error taxonomy of that stage.

use vstd::prelude::*;

verus! {

/// Errors of the configuration stage.
#[derive(Debug)]
pub enum Error {
    /// The configuration document was present but could not be read or
    /// parsed; carries the underlying message.
    ParsingToml(String),
    /// The document exists but has no entry for the selected environment;
    /// carries the selected name.
    NoSettingsForCurrentEnv(String),
}

impl Error {
    /// The message shown for this error.
    pub open spec fn message_text(self) -> Seq<char> {
        match self {
            Error::ParsingToml(m) => "\u{26d4} \u{fe0f}parsing environments.toml: "@ + m@,
            Error::NoSettingsForCurrentEnv(n) => "\u{26d4} \u{fe0f}no settings for current LOAM_ENV ("@
                + crate::text::quoted_text(n@) + ") found in environments.toml"@,
        }
    }

    /// Renders the error's message.
    pub fn message(&self) -> (r: String)
        ensures
            r@ == self.message_text(),
    {
        match self {
            Error::ParsingToml(m) => {
                let mut out = String::from_str("\u{26d4} \u{fe0f}parsing environments.toml: ");
                out.append(m.as_str());
                out
            },
            Error::NoSettingsForCurrentEnv(n) => {
                let mut out = String::from_str(
                    "\u{26d4} \u{fe0f}no settings for current LOAM_ENV (",
                );
                let q = crate::text::quoted(n.as_str());
                out.append(q.as_str());
                out.append(") found in environments.toml");
                out
            },
        }
    }
}

/// A signing account declared by an environment.
pub struct Account {
    pub name: String,
    /// `Some(true)` flags this account as the default signer.
    pub default: Option<bool>,
}

/// A network reference: either a registered name, or an explicit
/// endpoint/passphrase pair.
pub struct Network {
    pub name: Option<String>,
    pub rpc_url: Option<String>,
    pub network_passphrase: Option<String>,
}

/// Per-contract settings.
pub struct Contract {
    /// Only entries with `Some(true)` take part in the deployment pipeline.
    pub workspace: Option<bool>,
}

/// One named contract entry of an environment.
///
/// The document stores contracts as a mapping; entries are kept here in the
/// mapping's key order (lexicographic by name), and the pipeline processes
/// them in the order stored.
pub struct ContractEntry {
    pub name: String,
    pub contract: Contract,
}

/// One named configuration profile.
pub struct Environment {
    pub accounts: Option<Vec<Account>>,
    pub network: Network,
    pub contracts: Option<Vec<ContractEntry>>,
}

/// One named environment entry of the document.
pub struct EnvEntry {
    pub name: String,
    pub env: Environment,
}

/// The whole configuration document: a mapping from environment name to
/// environment, kept as entries in the mapping's key order.  Keys are
/// unique in any document produced by a parser, but lookup does not depend
/// on it: the first match wins.
pub struct Environments(pub Vec<EnvEntry>);

/// The environment that a lookup of `name` in `entries` yields: the first
/// entry of that name, if any.
pub open spec fn lookup(entries: Seq<EnvEntry>, name: Seq<char>) -> Option<Environment>
    decreases entries.len(),
{
    if entries.len() == 0 {
        None
    } else if entries[0].name@ == name {
        Some(entries[0].env)
    } else {
        lookup(entries.skip(1), name)
    }
}

impl Environment {
    /// Selects the active environment from a parsed configuration document.
    ///
    /// A missing document (`None`) means "nothing to do" and is not an
    /// error; a document without the selected environment is one.
    #[verifier::loop_isolation(false)]
    pub fn get(config: Option<Environments>, loam_env: &String) -> (r: Result<
        Option<Environment>,
        Error,
    >)
        ensures
            config is None ==> r is Ok && r->Ok_0 is None,
            config matches Some(envs) ==> match lookup(envs.0@, loam_env@) {
                Some(e) => r == Ok::<Option<Environment>, Error>(Some(e)),
                None => r matches Err(Error::NoSettingsForCurrentEnv(n)) && n@ == loam_env@,
            },
    {
        match config {
            None => Ok(None),
            Some(envs) => {
                let mut entries = envs.0;
                let ghost all = entries@;
                let mut i: usize = 0;
                proof {
                    assert(all.skip(0) =~= all);
                }
                while i < entries.len()
                    invariant
                        i <= entries.len(),
                        entries@ == all,
                        lookup(all, loam_env@) == lookup(all.skip(i as int), loam_env@),
                    decreases entries.len() - i,
                {
                    proof {
                        assert(all.skip(i as int)[0] == all[i as int]);
                        assert(all.skip(i as int).skip(1) =~= all.skip(i as int + 1));
                    }
                    if entries[i].name == *loam_env {
                        proof {
                            assert(lookup(all.skip(i as int), loam_env@) == Some(
                                all[i as int].env,
                            ));
                        }
                        let found = entries.swap_remove(i);
                        return Ok(Some(found.env));
                    }
                    i = i + 1;
                }
                proof {
                    assert(all.skip(i as int) =~= Seq::<EnvEntry>::empty());
                }
                Err(Error::NoSettingsForCurrentEnv(clone_string(loam_env)))
            },
        }
    }
}

/// Copies a string; `String::clone` is specified by vstd to preserve the
/// value.
pub fn clone_string(s: &String) -> (r: String)
    ensures
        r == s,
{
    s.clone()
}

} // verus!
