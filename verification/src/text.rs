//! Verified construction of every piece of text the orchestrator emits:
//! progress notices, build and output paths, and the generated import stub.
//!
//! Each builder has a spec-level companion that states the exact character
//! sequence produced.

use vstd::prelude::*;

verus! {

/// Relies on std's `String::push`: appends the given character to the end
/// of the string.
#[verifier::external_body]
pub fn push_char(s: &mut String, c: char)
    ensures
        final(s)@ == old(s)@.push(c),
{
    s.push(c);
}

/// How one character is shown inside a quoted name: double quotes and
/// backslashes get a backslash in front, every other character stands as
/// it is.
pub open spec fn escaped_char(c: char) -> Seq<char> {
    if c == '"' {
        seq!['\\', '"']
    } else if c == '\\' {
        seq!['\\', '\\']
    } else {
        seq![c]
    }
}

/// A whole name with its quotes escaped.
pub open spec fn escaped_text(s: Seq<char>) -> Seq<char>
    decreases s.len(),
{
    if s.len() == 0 {
        Seq::empty()
    } else {
        escaped_text(s.drop_last()) + escaped_char(s.last())
    }
}

/// A name as the notices show it: between double quotes, with quotes and
/// backslashes escaped.
pub open spec fn quoted_text(s: Seq<char>) -> Seq<char> {
    seq!['"'] + escaped_text(s) + seq!['"']
}

/// Renders a name between double quotes, escaping quotes and backslashes.
#[verifier::loop_isolation(false)]
pub fn quoted(s: &str) -> (r: String)
    ensures
        r@ == quoted_text(s@),
{
    proof {
        reveal_strlit("\"");
        reveal_strlit("\\\"");
        reveal_strlit("\\\\");
    }
    let mut out = String::from_str("\"");
    let n = s.unicode_len();
    let mut i: usize = 0;
    while i < n
        invariant
            i <= n,
            out@ == seq!['"'] + escaped_text(s@.subrange(0, i as int)),
        decreases n - i,
    {
        let c = s.get_char(i);
        if c == '"' {
            out.append("\\\"");
        } else if c == '\\' {
            out.append("\\\\");
        } else {
            push_char(&mut out, c);
        }
        proof {
            assert(s@.subrange(0, i + 1).drop_last() =~= s@.subrange(0, i as int));
            assert(s@.subrange(0, i + 1).last() == s@[i as int]);
            assert(out@ == seq!['"'] + escaped_text(s@.subrange(0, i + 1)));
        }
        i = i + 1;
    }
    proof {
        assert(s@.subrange(0, n as int) =~= s@);
    }
    out.append("\"");
    proof {
        assert(out@ =~= quoted_text(s@));
    }
    out
}

/// Notice emitted after a named network was looked up.
pub open spec fn network_name_notice_text(name: Seq<char>) -> Seq<char> {
    "🌐 using "@ + name + " network"@
}

pub fn network_name_notice(name: &str) -> (r: String)
    ensures
        r@ == network_name_notice_text(name@),
{
    let mut out = String::from_str("🌐 using ");
    out.append(name);
    out.append(" network");
    out
}

/// Notice emitted when an explicit endpoint/passphrase pair is used.
pub open spec fn network_url_notice_text(rpc_url: Seq<char>) -> Seq<char> {
    "🌐 using network at "@ + rpc_url
}

pub fn network_url_notice(rpc_url: &str) -> (r: String)
    ensures
        r@ == network_url_notice_text(rpc_url@),
{
    let mut out = String::from_str("🌐 using network at ");
    out.append(rpc_url);
    out
}

/// Per-account notice emitted before its keys are generated.
pub open spec fn key_notice_text(name: Seq<char>) -> Seq<char> {
    "🔐 creating keys for "@ + quoted_text(name)
}

pub fn key_notice(name: &str) -> (r: String)
    ensures
        r@ == key_notice_text(name@),
{
    let mut out = String::from_str("🔐 creating keys for ");
    let q = quoted(name);
    out.append(q.as_str());
    out
}

/// Notice emitted before a contract's bytecode is installed.
pub open spec fn install_notice_text(name: Seq<char>) -> Seq<char> {
    "📲 installing "@ + quoted_text(name) + " wasm bytecode on-chain..."@
}

pub fn install_notice(name: &str) -> (r: String)
    ensures
        r@ == install_notice_text(name@),
{
    let mut out = String::from_str("📲 installing ");
    let q = quoted(name);
    out.append(q.as_str());
    out.append(" wasm bytecode on-chain...");
    out
}

/// Notice reporting the hash an install returned.
pub open spec fn hash_notice_text(hash: Seq<char>) -> Seq<char> {
    "    ↳ hash: "@ + hash
}

pub fn hash_notice(hash: &str) -> (r: String)
    ensures
        r@ == hash_notice_text(hash@),
{
    let mut out = String::from_str("    ↳ hash: ");
    out.append(hash);
    out
}

/// Notice emitted before a contract is instantiated.
pub open spec fn deploy_notice_text(name: Seq<char>) -> Seq<char> {
    "🪞 instantiating "@ + quoted_text(name) + " smart contract"@
}

pub fn deploy_notice(name: &str) -> (r: String)
    ensures
        r@ == deploy_notice_text(name@),
{
    let mut out = String::from_str("🪞 instantiating ");
    let q = quoted(name);
    out.append(q.as_str());
    out.append(" smart contract");
    out
}

/// Notice reporting the identifier a deploy returned.
pub open spec fn id_notice_text(contract_id: Seq<char>) -> Seq<char> {
    "    ↳ contract_id: "@ + contract_id
}

pub fn id_notice(contract_id: &str) -> (r: String)
    ensures
        r@ == id_notice_text(contract_id@),
{
    let mut out = String::from_str("    ↳ contract_id: ");
    out.append(contract_id);
    out
}

/// Notice emitted before client bindings are generated.
pub open spec fn bind_notice_text(name: Seq<char>) -> Seq<char> {
    "🎭 binding "@ + quoted_text(name) + " contract"@
}

pub fn bind_notice(name: &str) -> (r: String)
    ensures
        r@ == bind_notice_text(name@),
{
    let mut out = String::from_str("🎭 binding ");
    let q = quoted(name);
    out.append(q.as_str());
    out.append(" contract");
    out
}

/// Notice emitted before the import stub is written.
pub open spec fn import_notice_text(name: Seq<char>) -> Seq<char> {
    "🍽️ importing "@ + quoted_text(name) + " contract"@
}

pub fn import_notice(name: &str) -> (r: String)
    ensures
        r@ == import_notice_text(name@),
{
    let mut out = String::from_str("🍽️ importing ");
    let q = quoted(name);
    out.append(q.as_str());
    out.append(" contract");
    out
}

/// Where a contract's compiled bytecode is expected, relative to the
/// workspace root.  Path components are joined with `/`.
pub open spec fn wasm_path_text(root: Seq<char>, name: Seq<char>) -> Seq<char> {
    root + "/target/loam/"@ + name + ".wasm"@
}

pub fn wasm_path(root: &str, name: &str) -> (r: String)
    ensures
        r@ == wasm_path_text(root@, name@),
{
    let mut out = String::from_str(root);
    out.append("/target/loam/");
    out.append(name);
    out.append(".wasm");
    out
}

/// The per-contract directory the generated bindings go to.
pub open spec fn packages_dir_text(root: Seq<char>, name: Seq<char>) -> Seq<char> {
    root + "/packages/"@ + name
}

pub fn packages_dir(root: &str, name: &str) -> (r: String)
    ensures
        r@ == packages_dir_text(root@, name@),
{
    let mut out = String::from_str(root);
    out.append("/packages/");
    out.append(name);
    out
}

/// The path of the generated import stub.
pub open spec fn import_path_text(root: Seq<char>, name: Seq<char>) -> Seq<char> {
    root + "/src/contracts/"@ + name + ".ts"@
}

pub fn import_path(root: &str, name: &str) -> (r: String)
    ensures
        r@ == import_path_text(root@, name@),
{
    let mut out = String::from_str(root);
    out.append("/src/contracts/");
    out.append(name);
    out.append(".ts");
    out
}

/// The extra line the stub carries only in the development environment,
/// permitting insecure local transport.
pub open spec fn allow_http_text(dev: bool) -> Seq<char> {
    if dev {
        "\n  allowHttp: true,"@
    } else {
        Seq::empty()
    }
}

/// The full text of the generated import stub: it instantiates the
/// binding's client with the network passphrase, the contract identifier
/// and an RPC-URL indirection.
pub open spec fn import_template_text(
    name: Seq<char>,
    network: Seq<char>,
    contract_id: Seq<char>,
    dev: bool,
) -> Seq<char> {
    "import * as Client from '"@ + name
        + "';\nimport { rpcUrl } from './util';\n\nexport default new Client.Client({\n  networkPassphrase: '"@
        + network + "',\n  contractId: '"@ + contract_id + "',\n  rpcUrl,"@ + allow_http_text(dev)
        + "\n  publicKey: undefined,\n});\n"@
}

pub fn import_template(name: &str, network: &str, contract_id: &str, dev: bool) -> (r: String)
    ensures
        r@ == import_template_text(name@, network@, contract_id@, dev),
{
    let mut out = String::from_str("import * as Client from '");
    out.append(name);
    out.append(
        "';\nimport { rpcUrl } from './util';\n\nexport default new Client.Client({\n  networkPassphrase: '",
    );
    out.append(network);
    out.append("',\n  contractId: '");
    out.append(contract_id);
    out.append("',\n  rpcUrl,");
    if dev {
        out.append("\n  allowHttp: true,");
    } else {
        proof {
            assert(out@ + allow_http_text(dev) =~= out@);
        }
    }
    out.append("\n  publicKey: undefined,\n});\n");
    out
}

/// How a list of names is shown in an error message: the names quoted, in
/// order, between square brackets.
pub open spec fn list_items_text(names: Seq<String>) -> Seq<char>
    decreases names.len(),
{
    if names.len() == 0 {
        Seq::empty()
    } else if names.len() == 1 {
        quoted_text(names[0]@)
    } else {
        list_items_text(names.drop_last()) + ", "@ + quoted_text(names.last()@)
    }
}

pub open spec fn list_debug_text(names: Seq<String>) -> Seq<char> {
    seq!['['] + list_items_text(names) + seq![']']
}

/// Renders a list of names as its error messages show it.
#[verifier::loop_isolation(false)]
pub fn list_debug(names: &Vec<String>) -> (r: String)
    ensures
        r@ == list_debug_text(names@),
{
    proof {
        reveal_strlit("[");
        reveal_strlit("]");
    }
    let mut out = String::from_str("[");
    let mut i: usize = 0;
    while i < names.len()
        invariant
            i <= names.len(),
            out@ == seq!['['] + list_items_text(names@.subrange(0, i as int)),
        decreases names.len() - i,
    {
        if i > 0 {
            out.append(", ");
        }
        let q = quoted(names[i].as_str());
        out.append(q.as_str());
        proof {
            assert(names@.subrange(0, i + 1).drop_last() =~= names@.subrange(0, i as int));
            assert(names@.subrange(0, i + 1).last() == names@[i as int]);
            assert(out@ == seq!['['] + list_items_text(names@.subrange(0, i + 1)));
        }
        i = i + 1;
    }
    proof {
        assert(names@.subrange(0, names@.len() as int) =~= names@);
    }
    out.append("]");
    proof {
        assert(out@ =~= list_debug_text(names@));
    }
    out
}

} // verus!
