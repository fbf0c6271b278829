use loam_build::build_clients::{Cmd, Error, LoamEnv};
use loam_build::env_toml::{
    Account, Contract, ContractEntry, EnvEntry, Environment, Environments, Network,
};
use loam_build::runner::{Effect, Event, Runner};

fn account(name: &str) -> Account {
    Account { name: name.to_string(), default: None }
}

fn explicit_network(rpc_url: &str, passphrase: &str) -> Network {
    Network {
        name: None,
        rpc_url: Some(rpc_url.to_string()),
        network_passphrase: Some(passphrase.to_string()),
    }
}

fn workspace_contract(name: &str) -> ContractEntry {
    ContractEntry { name: name.to_string(), contract: Contract { workspace: Some(true) } }
}

fn config(env_name: &str, env: Environment) -> Environments {
    Environments(vec![EnvEntry { name: env_name.to_string(), env }])
}

/// Everything one scripted run of the machine did, for the assertions.
struct Run {
    notices: Vec<String>,
    lookups: Vec<String>,
    published_network: Option<(String, String)>,
    generated_keys: Vec<String>,
    published_account: Option<String>,
    checked: Vec<String>,
    installed: Vec<String>,
    deployed: Vec<String>,
    bound: Vec<(String, String)>,
    imports: Vec<(String, String)>,
    outcome: Result<(), Error>,
}

/// Plays the caller: performs each effect against a fake toolchain and
/// reports the outcome back, until the run ends.  Artifacts exist for the
/// names in `artifacts`; hashes and identifiers are minted from `seed`.
fn drive(cmd: &Cmd, config: Option<Environments>, artifacts: &[&str], seed: u32) -> Run {
    let mut runner = Runner::new(cmd, config);
    let mut run = Run {
        notices: vec![],
        lookups: vec![],
        published_network: None,
        generated_keys: vec![],
        published_account: None,
        checked: vec![],
        installed: vec![],
        deployed: vec![],
        bound: vec![],
        imports: vec![],
        outcome: Ok(()),
    };
    let mut ev = Event::Start;
    let mut counter: u32 = 0;
    loop {
        let command = runner.step(ev);
        for n in &command.notices {
            run.notices.push(n.clone());
        }
        ev = match command.effect {
            Effect::LookupNetwork { name } => {
                run.lookups.push(name.clone());
                Event::NetworkResolved {
                    rpc_url: format!("http://registry.example/{name}"),
                    passphrase: format!("{name} passphrase"),
                }
            }
            Effect::PublishNetwork { rpc_url, passphrase } => {
                run.published_network = Some((rpc_url, passphrase));
                Event::Ack
            }
            Effect::GenerateKey { name } => {
                run.generated_keys.push(name);
                Event::KeyGenerated
            }
            Effect::PublishDefaultAccount { name } => {
                run.published_account = Some(name);
                Event::Ack
            }
            Effect::CheckArtifact { path } => {
                run.checked.push(path.clone());
                let exists = artifacts.iter().any(|a| path.ends_with(&format!("/{a}.wasm")));
                Event::ArtifactStatus { exists }
            }
            Effect::Install { wasm_path } => {
                run.installed.push(wasm_path);
                counter += 1;
                Event::Installed { hash: format!("hash{seed}x{counter}") }
            }
            Effect::Deploy { wasm_hash } => {
                run.deployed.push(wasm_hash);
                Event::Deployed { contract_id: format!("C{seed}X{counter}") }
            }
            Effect::Bind { contract_id, output_dir } => {
                run.bound.push((contract_id, output_dir));
                Event::Bound
            }
            Effect::WriteImport { path, contents } => {
                run.imports.push((path, contents));
                Event::Ack
            }
            Effect::Finish => {
                run.outcome = Ok(());
                return run;
            }
            Effect::Fail(e) => {
                run.outcome = Err(e);
                return run;
            }
        };
    }
}

fn production_cmd() -> Cmd {
    Cmd { workspace_root: ".".to_string(), env: LoamEnv::Production }
}

#[test]
fn no_environments_toml_ends_after_contract_build() {
    let run = drive(&production_cmd(), None, &[], 1);
    assert!(run.outcome.is_ok());
    assert!(run.notices.is_empty());
    assert!(run.published_network.is_none());
    assert!(run.generated_keys.is_empty());
    assert!(run.checked.is_empty());
}

#[test]
fn run_network_from_rpc_and_passphrase() {
    let env = Environment {
        accounts: Some(vec![account("alice")]),
        network: explicit_network("http://localhost:8000/rpc", "Standalone Network ; February 2017"),
        contracts: None,
    };
    let run = drive(&production_cmd(), Some(config("production", env)), &[], 1);
    assert!(run.outcome.is_ok());
    assert!(run
        .notices
        .contains(&"🌐 using network at http://localhost:8000/rpc".to_string()));
    assert_eq!(
        run.published_network,
        Some((
            "http://localhost:8000/rpc".to_string(),
            "Standalone Network ; February 2017".to_string()
        ))
    );
}

#[test]
fn run_named_network() {
    let env = Environment {
        accounts: Some(vec![account("alice")]),
        network: Network { name: Some("lol".to_string()), rpc_url: None, network_passphrase: None },
        contracts: None,
    };
    let run = drive(&production_cmd(), Some(config("production", env)), &[], 1);
    assert!(run.outcome.is_ok());
    assert_eq!(run.lookups, vec!["lol".to_string()]);
    assert!(run.notices.contains(&"🌐 using lol network".to_string()));
    assert_eq!(
        run.published_network,
        Some(("http://registry.example/lol".to_string(), "lol passphrase".to_string()))
    );
}

#[test]
fn create_two_accounts() {
    let env = Environment {
        accounts: Some(vec![account("alice"), account("bob")]),
        network: explicit_network("http://localhost:8000", "Standalone Network ; February 2017"),
        contracts: None,
    };
    let cmd = Cmd { workspace_root: ".".to_string(), env: LoamEnv::Development };
    let run = drive(&cmd, Some(config("development", env)), &[], 1);
    assert!(run.outcome.is_ok());
    let transcript = run.notices.join("\n");
    assert!(transcript
        .contains("🔐 creating keys for \"alice\"\n🔐 creating keys for \"bob\""));
    assert_eq!(run.generated_keys, vec!["alice".to_string(), "bob".to_string()]);
    assert_eq!(run.published_account, Some("alice".to_string()));
}

#[test]
fn contracts_built() {
    let contracts = [
        "hello_world",
        "soroban_auth_contract",
        "soroban_custom_types_contract",
        "soroban_increment_contract",
    ];
    let env = Environment {
        accounts: Some(vec![account("alice")]),
        network: explicit_network("http://localhost:8000/rpc", "Standalone Network ; February 2017"),
        contracts: Some(contracts.iter().map(|c| workspace_contract(c)).collect()),
    };
    let run = drive(&production_cmd(), Some(config("production", env)), &contracts, 1);
    assert!(run.outcome.is_ok());
    let transcript = run.notices.join("\n");
    assert!(transcript.contains("creating keys for \"alice\""));
    assert!(transcript.contains("using network at http://localhost:8000/rpc"));
    for c in contracts {
        assert!(transcript.contains(&format!("installing \"{c}\" wasm bytecode on-chain")));
        assert!(transcript.contains(&format!("instantiating \"{c}\" smart contract")));
        assert!(transcript.contains(&format!("binding \"{c}\" contract")));
        assert!(transcript.contains(&format!("importing \"{c}\" contract")));
    }
    // entries are processed in the order stored, here lexicographic by name
    let checked_expected: Vec<String> =
        contracts.iter().map(|c| format!("./target/loam/{c}.wasm")).collect();
    assert_eq!(run.checked, checked_expected);
    let bound_dirs: Vec<&str> = run.bound.iter().map(|(_, d)| d.as_str()).collect();
    let import_paths: Vec<&str> = run.imports.iter().map(|(p, _)| p.as_str()).collect();
    for c in contracts {
        assert!(bound_dirs.contains(&format!("./packages/{c}").as_str()));
        assert!(import_paths.contains(&format!("./src/contracts/{c}.ts").as_str()));
    }
}

#[test]
fn contract_with_bad_name_prints_useful_error() {
    let env = Environment {
        accounts: Some(vec![account("alice")]),
        network: explicit_network("http://localhost:8000/rpc", "Standalone Network ; February 2017"),
        contracts: Some(vec![workspace_contract("hello")]),
    };
    let run = drive(&production_cmd(), Some(config("production", env)), &[], 1);
    match run.outcome {
        Err(e @ Error::BadContractName(_)) => {
            assert!(e.message().contains("No contract named \"hello\""));
        }
        _ => panic!("expected BadContractName"),
    }
    assert!(run.installed.is_empty());
    assert!(run.deployed.is_empty());
    assert!(run.bound.is_empty());
    assert!(run.imports.is_empty());
}

#[test]
fn accounts_missing_fails_the_run() {
    let env = Environment {
        accounts: None,
        network: explicit_network("http://localhost:8000", "pass"),
        contracts: None,
    };
    let run = drive(&production_cmd(), Some(config("production", env)), &[], 1);
    assert!(matches!(run.outcome, Err(Error::NeedAtLeastOneAccount)));
    // the network notice owed before the failure is still delivered
    assert!(run.notices.contains(&"🌐 using network at http://localhost:8000".to_string()));

    let env2 = Environment {
        accounts: Some(vec![]),
        network: explicit_network("http://localhost:8000", "pass"),
        contracts: None,
    };
    let run2 = drive(&production_cmd(), Some(config("production", env2)), &[], 1);
    assert!(matches!(run2.outcome, Err(Error::NeedAtLeastOneAccount)));
}

#[test]
fn two_default_accounts_fail_the_run() {
    let env = Environment {
        accounts: Some(vec![
            Account { name: "alice".to_string(), default: Some(true) },
            Account { name: "bob".to_string(), default: Some(true) },
        ]),
        network: explicit_network("http://localhost:8000", "pass"),
        contracts: None,
    };
    let run = drive(&production_cmd(), Some(config("production", env)), &[], 1);
    match run.outcome {
        Err(Error::OnlyOneDefaultAccount(names)) => {
            assert_eq!(names, vec!["alice".to_string(), "bob".to_string()]);
        }
        _ => panic!("expected OnlyOneDefaultAccount"),
    }
    assert!(run.generated_keys.is_empty());
}

#[test]
fn flagged_account_is_published_regardless_of_position() {
    let env = Environment {
        accounts: Some(vec![
            account("alice"),
            Account { name: "bob".to_string(), default: Some(true) },
        ]),
        network: explicit_network("http://localhost:8000", "pass"),
        contracts: None,
    };
    let run = drive(&production_cmd(), Some(config("production", env)), &[], 1);
    assert!(run.outcome.is_ok());
    assert_eq!(run.published_account, Some("bob".to_string()));
    // keys are still generated for every account, in declared order
    assert_eq!(run.generated_keys, vec!["alice".to_string(), "bob".to_string()]);
}

#[test]
fn malformed_network_fails_the_run() {
    let env = Environment {
        accounts: Some(vec![account("alice")]),
        network: Network {
            name: None,
            rpc_url: Some("http://localhost:8000".to_string()),
            network_passphrase: None,
        },
        contracts: None,
    };
    let run = drive(&production_cmd(), Some(config("production", env)), &[], 1);
    assert!(matches!(run.outcome, Err(Error::MalformedNetwork)));
    assert!(run.generated_keys.is_empty());
}

#[test]
fn missing_environment_fails_the_run() {
    let env = Environment { accounts: None, network: explicit_network("u", "p"), contracts: None };
    let run = drive(&production_cmd(), Some(config("staging", env)), &[], 1);
    match run.outcome {
        Err(Error::EnvironmentsToml(e)) => {
            assert!(e.message().contains("no settings for current LOAM_ENV (\"production\")"));
        }
        _ => panic!("expected EnvironmentsToml"),
    }
}

#[test]
fn end_to_end_development_run() {
    let env = Environment {
        accounts: Some(vec![account("alice"), account("bob")]),
        network: explicit_network("http://localhost:8000", "Standalone Network ; February 2017"),
        contracts: Some(vec![workspace_contract("hello")]),
    };
    let cmd = Cmd { workspace_root: ".".to_string(), env: LoamEnv::Development };
    let run = drive(&cmd, Some(config("development", env)), &["hello"], 7);
    assert!(run.outcome.is_ok());
    let hash = "hash7x1";
    let id = "C7X1";
    assert_eq!(
        run.notices,
        vec![
            "🌐 using network at http://localhost:8000".to_string(),
            "🔐 creating keys for \"alice\"".to_string(),
            "🔐 creating keys for \"bob\"".to_string(),
            "📲 installing \"hello\" wasm bytecode on-chain...".to_string(),
            format!("    ↳ hash: {hash}"),
            "🪞 instantiating \"hello\" smart contract".to_string(),
            format!("    ↳ contract_id: {id}"),
            "🎭 binding \"hello\" contract".to_string(),
            "🍽️ importing \"hello\" contract".to_string(),
        ]
    );
    assert_eq!(run.bound, vec![(id.to_string(), "./packages/hello".to_string())]);
    let (path, contents) = &run.imports[0];
    assert_eq!(path, "./src/contracts/hello.ts");
    assert!(contents.contains("networkPassphrase: 'Standalone Network ; February 2017'"));
    assert!(contents.contains(&format!("contractId: '{id}'")));
    assert!(contents.contains("allowHttp: true,"));
}

/// A re-run of the same configuration deploys afresh: no installed hash is
/// remembered between runs, so each run requests its own deploy and the
/// two runs end with two distinct contract identifiers.  That the pipeline
/// is not idempotent is the current behaviour, recorded here on purpose.
#[test]
fn rerun_deploys_afresh_with_a_distinct_identifier() {
    let build = || Environment {
        accounts: Some(vec![account("alice")]),
        network: explicit_network("http://localhost:8000", "pass"),
        contracts: Some(vec![workspace_contract("hello")]),
    };
    let first = drive(&production_cmd(), Some(config("production", build())), &["hello"], 1);
    let second = drive(&production_cmd(), Some(config("production", build())), &["hello"], 2);
    assert!(first.outcome.is_ok() && second.outcome.is_ok());
    // both runs install and deploy; neither skips on a known hash
    assert_eq!(first.installed.len(), 1);
    assert_eq!(second.installed.len(), 1);
    assert_eq!(first.deployed.len(), 1);
    assert_eq!(second.deployed.len(), 1);
    let id1 = &first.bound[0].0;
    let id2 = &second.bound[0].0;
    assert_ne!(id1, id2);
}

#[test]
fn toolchain_failures_are_wrapped_per_stage() {
    let env = || Environment {
        accounts: Some(vec![account("alice")]),
        network: explicit_network("http://localhost:8000", "pass"),
        contracts: Some(vec![workspace_contract("hello")]),
    };
    let cmd = production_cmd();

    // key generation fails
    let mut r = Runner::new(&cmd, Some(config("production", env())));
    let c = r.step(Event::Start); // publish network
    assert!(matches!(c.effect, Effect::PublishNetwork { .. }));
    let c = r.step(Event::Ack); // generate alice's key
    assert!(matches!(c.effect, Effect::GenerateKey { .. }));
    let c = r.step(Event::KeyGenerationFailed { message: "no entropy".to_string() });
    match c.effect {
        Effect::Fail(Error::GeneratingKey(m)) => assert_eq!(m, "no entropy"),
        _ => panic!("expected GeneratingKey"),
    }

    // install fails
    let mut r = Runner::new(&cmd, Some(config("production", env())));
    r.step(Event::Start);
    r.step(Event::Ack);
    r.step(Event::KeyGenerated);
    r.step(Event::Ack); // default account published; artifact check next
    let c = r.step(Event::ArtifactStatus { exists: true });
    assert!(matches!(c.effect, Effect::Install { .. }));
    let c = r.step(Event::InstallFailed { message: "tx rejected".to_string() });
    match c.effect {
        Effect::Fail(Error::ContractInstall(m)) => assert_eq!(m, "tx rejected"),
        _ => panic!("expected ContractInstall"),
    }

    // deploy fails
    let mut r = Runner::new(&cmd, Some(config("production", env())));
    r.step(Event::Start);
    r.step(Event::Ack);
    r.step(Event::KeyGenerated);
    r.step(Event::Ack);
    r.step(Event::ArtifactStatus { exists: true });
    let c = r.step(Event::Installed { hash: "h1".to_string() });
    assert!(matches!(c.effect, Effect::Deploy { .. }));
    let c = r.step(Event::DeployFailed { message: "fee too low".to_string() });
    match c.effect {
        Effect::Fail(Error::ContractDeploy(m)) => assert_eq!(m, "fee too low"),
        _ => panic!("expected ContractDeploy"),
    }

    // binding fails
    let mut r = Runner::new(&cmd, Some(config("production", env())));
    r.step(Event::Start);
    r.step(Event::Ack);
    r.step(Event::KeyGenerated);
    r.step(Event::Ack);
    r.step(Event::ArtifactStatus { exists: true });
    r.step(Event::Installed { hash: "h1".to_string() });
    let c = r.step(Event::Deployed { contract_id: "C1".to_string() });
    assert!(matches!(c.effect, Effect::Bind { .. }));
    let c = r.step(Event::BindFailed { message: "no xdr".to_string() });
    match c.effect {
        Effect::Fail(Error::ContractBindings(m)) => assert_eq!(m, "no xdr"),
        _ => panic!("expected ContractBindings"),
    }

    // a named-network lookup fails
    let named = Environment {
        accounts: Some(vec![account("alice")]),
        network: Network { name: Some("lol".to_string()), rpc_url: None, network_passphrase: None },
        contracts: None,
    };
    let mut r = Runner::new(&cmd, Some(config("production", named)));
    let c = r.step(Event::Start);
    assert!(matches!(c.effect, Effect::LookupNetwork { .. }));
    let c = r.step(Event::NetworkLookupFailed { message: "unknown network".to_string() });
    match c.effect {
        Effect::Fail(Error::ParsingNetwork(m)) => assert_eq!(m, "unknown network"),
        _ => panic!("expected ParsingNetwork"),
    }
}

#[test]
fn contracts_without_workspace_flag_are_skipped() {
    let env = Environment {
        accounts: Some(vec![account("alice")]),
        network: explicit_network("http://localhost:8000", "pass"),
        contracts: Some(vec![
            ContractEntry { name: "docs".to_string(), contract: Contract { workspace: None } },
            ContractEntry {
                name: "extras".to_string(),
                contract: Contract { workspace: Some(false) },
            },
            workspace_contract("hello"),
        ]),
    };
    let run = drive(&production_cmd(), Some(config("production", env)), &["hello"], 1);
    assert!(run.outcome.is_ok());
    assert_eq!(run.checked, vec!["./target/loam/hello.wasm".to_string()]);
    assert_eq!(run.imports.len(), 1);
}
