//! Provider-agnostic provisioning of XnodeOS machines.
//!
//! The library holds the decisions of each provider adapter: which request
//! to send for a deployment, how to read the provider's loosely typed JSON
//! answer into a handle or a classified error, how to read an address out
//! of an instance description, and when a freshly created instance counts
//! as ready. Sending the requests is left to the caller.
use vstd::prelude::*;

pub mod error;
pub mod hivelocity;
pub mod hyperstack;
pub mod ipv4;
pub mod json;
pub mod readiness;
pub mod request;
pub mod text;

pub use error::{Error, XnodeDeployerError};

verus! {

/// The optional settings handed to a new machine through its boot script.
#[derive(Debug)]
pub struct DeployInput {
    pub xnode_owner: Option<String>,
    pub domain: Option<String>,
    pub acme_email: Option<String>,
    pub user_passwd: Option<String>,
    pub encrypted: Option<String>,
    pub initial_config: Option<String>,
}

/// Whether a provider offers a capability at all, and if so its value.
#[derive(Debug, PartialEq)]
pub enum OptionalSupport<T> {
    NotSupported,
    Supported(T),
}

/// `export NAME="value" && ` for one environment entry.
pub open spec fn export_fragment(name: Seq<char>, content: Seq<char>) -> Seq<char> {
    "export "@ + name + "=\""@ + content + "\" && "@
}

/// The fragment of an optional entry: nothing when the entry is absent.
pub open spec fn optional_fragment(name: Seq<char>, content: Option<String>) -> Seq<char> {
    match content {
        Some(c) => export_fragment(name, c@),
        None => Seq::empty(),
    }
}

/// The fixed start of every boot script.
pub open spec fn script_head() -> Seq<char> {
    "#cloud-config\nruncmd:\n - "@
}

/// The fixed end of every boot script: fetch and run the XnodeOS installer.
pub open spec fn script_tail() -> Seq<char> {
    " curl https://raw.githubusercontent.com/Openmesh-Network/xnode-manager/main/os/install.sh | bash 2>&1 | tee /tmp/xnodeos.log"@
}

/// The concatenation of one fragment per entry, in the order given.
pub open spec fn fragments(entries: Seq<(Seq<char>, Seq<char>)>) -> Seq<char>
    decreases entries.len(),
{
    if entries.len() == 0 {
        Seq::empty()
    } else {
        fragments(entries.drop_last()) + export_fragment(
            entries.last().0,
            entries.last().1,
        )
    }
}

/// The entry list with `(name, content)` appended when the content is present.
pub open spec fn push_present(
    entries: Seq<(Seq<char>, Seq<char>)>,
    name: Seq<char>,
    content: Option<String>,
) -> Seq<(Seq<char>, Seq<char>)> {
    match content {
        Some(c) => entries.push((name, c@)),
        None => entries,
    }
}

fn append_export(env: &mut String, name: &str, content: &Option<String>)
    ensures
        final(env)@ == old(env)@ + optional_fragment(name@, *content),
{
    match content {
        Some(c) => {
            env.append("export ");
            env.append(name);
            env.append("=\"");
            env.append(c.as_str());
            env.append("\" && ");
            assert(final(env)@ =~= old(env)@ + optional_fragment(name@, *content));
        },
        None => {
            assert(env@ =~= old(env)@ + Seq::<char>::empty());
        },
    }
}

impl DeployInput {
    /// The present entries with their environment variable names, in the
    /// fixed order owner, domain, ACME email, password, encrypted blob,
    /// initial configuration.
    pub open spec fn present_entries(&self) -> Seq<(Seq<char>, Seq<char>)> {
        let e0 = push_present(Seq::empty(), "XNODE_OWNER"@, self.xnode_owner);
        let e1 = push_present(e0, "DOMAIN"@, self.domain);
        let e2 = push_present(e1, "ACME_EMAIL"@, self.acme_email);
        let e3 = push_present(e2, "USER_PASSWD"@, self.user_passwd);
        let e4 = push_present(e3, "ENCRYPTED"@, self.encrypted);
        push_present(e4, "INITIAL_CONFIG"@, self.initial_config)
    }

    /// The environment part of the boot script, field by field.
    pub open spec fn env_spec(&self) -> Seq<char> {
        optional_fragment("XNODE_OWNER"@, self.xnode_owner) + optional_fragment(
            "DOMAIN"@,
            self.domain,
        ) + optional_fragment("ACME_EMAIL"@, self.acme_email) + optional_fragment(
            "USER_PASSWD"@,
            self.user_passwd,
        ) + optional_fragment("ENCRYPTED"@, self.encrypted) + optional_fragment(
            "INITIAL_CONFIG"@,
            self.initial_config,
        )
    }

    pub open spec fn cloud_init_spec(&self) -> Seq<char> {
        script_head() + self.env_spec() + script_tail()
    }

    /// The cloud-init script that installs XnodeOS with the present settings
    /// exported as environment variables.
    pub fn cloud_init(&self) -> (r: String)
        ensures
            r@ == self.cloud_init_spec(),
    {
        let mut env = String::new();
        append_export(&mut env, "XNODE_OWNER", &self.xnode_owner);
        append_export(&mut env, "DOMAIN", &self.domain);
        append_export(&mut env, "ACME_EMAIL", &self.acme_email);
        append_export(&mut env, "USER_PASSWD", &self.user_passwd);
        append_export(&mut env, "ENCRYPTED", &self.encrypted);
        append_export(&mut env, "INITIAL_CONFIG", &self.initial_config);
        let mut script = String::from_str("#cloud-config\nruncmd:\n - ");
        script.append(env.as_str());
        script.append(
            " curl https://raw.githubusercontent.com/Openmesh-Network/xnode-manager/main/os/install.sh | bash 2>&1 | tee /tmp/xnodeos.log",
        );
        assert(script@ =~= self.cloud_init_spec());
        script
    }
}

proof fn lemma_push_present(
    entries: Seq<(Seq<char>, Seq<char>)>,
    name: Seq<char>,
    content: Option<String>,
)
    ensures
        fragments(push_present(entries, name, content)) == fragments(entries) + optional_fragment(
            name,
            content,
        ),
{
    match content {
        Some(c) => {
            assert(entries.push((name, c@)).drop_last() =~= entries);
        },
        None => {
            assert(fragments(entries) + Seq::<char>::empty() =~= fragments(entries));
        },
    }
}

/// The boot script is the fixed head, then exactly one `export` fragment
/// for each present field of the input in the fixed field order, and none
/// for an absent field, then the fixed installer command.
pub proof fn lemma_cloud_init_fragments(input: DeployInput)
    ensures
        input.cloud_init_spec() == script_head() + fragments(input.present_entries())
            + script_tail(),
        input.present_entries().len() == (if input.xnode_owner is Some { 1int } else { 0 }) + (
        if input.domain is Some { 1int } else { 0 }) + (if input.acme_email is Some { 1int } else { 0 }) + (
        if input.user_passwd is Some { 1int } else { 0 }) + (if input.encrypted is Some { 1int } else { 0 }) + (
        if input.initial_config is Some { 1int } else { 0 }),
{
    let e0 = push_present(Seq::empty(), "XNODE_OWNER"@, input.xnode_owner);
    let e1 = push_present(e0, "DOMAIN"@, input.domain);
    let e2 = push_present(e1, "ACME_EMAIL"@, input.acme_email);
    let e3 = push_present(e2, "USER_PASSWD"@, input.user_passwd);
    let e4 = push_present(e3, "ENCRYPTED"@, input.encrypted);
    lemma_push_present(Seq::empty(), "XNODE_OWNER"@, input.xnode_owner);
    lemma_push_present(e0, "DOMAIN"@, input.domain);
    lemma_push_present(e1, "ACME_EMAIL"@, input.acme_email);
    lemma_push_present(e2, "USER_PASSWD"@, input.user_passwd);
    lemma_push_present(e3, "ENCRYPTED"@, input.encrypted);
    lemma_push_present(e4, "INITIAL_CONFIG"@, input.initial_config);
    assert(fragments(Seq::<(Seq<char>, Seq<char>)>::empty()) + optional_fragment(
        "XNODE_OWNER"@,
        input.xnode_owner,
    ) =~= optional_fragment("XNODE_OWNER"@, input.xnode_owner));
    assert(input.env_spec() =~= fragments(input.present_entries()));
}

} // verus!
