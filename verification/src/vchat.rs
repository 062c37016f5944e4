//! vchat.email agent integration: the NATS RPC envelopes, and what the
//! library makes of the replies.
use vstd::prelude::*;
use crate::text::str_eq;
use crate::text::concat2;
use crate::text::{trim, trimmed_of};

verus! {

/// The error type of the nkeys crate.
#[verifier::external_type_specification]
#[verifier::external_body]
pub struct ExNkeysError(nkeys::error::Error);

/// The public Nkey of the key pair that an encoded seed stands for, or
/// `None` when the text is not a valid encoded seed (`KeyPair::from_seed`
/// followed by `KeyPair::public_key`); a function of the seed text alone.
pub uninterp spec fn nkey_public_of(seed: Seq<char>) -> Option<Seq<char>>;

/// `nkeys::KeyPair::from_seed` on `seed`, then `public_key` of the pair.
///
/// Trusted: the call succeeds exactly when `nkey_public_of` of the seed
/// text is some key, and then gives that key; both nkeys functions compute
/// from the seed text alone (decoding, checksum, ED25519 public key).
#[verifier::external_body]
fn nkey_public_key(seed: &str) -> (r: Result<String, nkeys::error::Error>)
    ensures
        r is Ok <==> nkey_public_of(seed@) is Some,
        r matches Ok(p) ==> nkey_public_of(seed@) == Some(p@),
{
    match nkeys::KeyPair::from_seed(seed) {
        Ok(kp) => Ok(kp.public_key()),
        Err(e) => Err(e),
    }
}

/// The keys of an agent identity read from a seed file: the encoded seed
/// and its public Nkey.
pub struct AgentKeys {
    pub seed: String,
    pub public_key: String,
}

/// Why a seed file holds no usable identity: the error nkeys reported.
pub struct SeedError {
    pub cause: nkeys::error::Error,
}

/// The identity that the text of a seed file stands for: the text without
/// surrounding white space is the encoded seed; an invalid seed is
/// refused.
pub fn agent_keys_from_seed_text(text: &str) -> (r: Result<AgentKeys, SeedError>)
    ensures
        r is Ok <==> nkey_public_of(trimmed_of(text@)) is Some,
        r matches Ok(k) ==> k.seed@ == trimmed_of(text@) && Some(k.public_key@) == nkey_public_of(
            trimmed_of(text@),
        ),
{
    let seed = trim(text);
    match nkey_public_key(seed) {
        Ok(public_key) => Ok(AgentKeys { seed: String::from_str(seed), public_key }),
        Err(cause) => Err(SeedError { cause }),
    }
}

/// Generic NATS RPC response wrapper.
pub struct RpcResponse<T> {
    pub status: String,
    pub data: Option<T>,
    pub error: Option<String>,
}

/// Onboarding request sent to `vgate.rpc.ensoul`.
pub struct EnsoulRequest {
    pub template: String,
    pub name: String,
    pub nkey_public: String,
    pub steward: String,
}

/// Response from `vgate.rpc.ensoul`.
pub struct EnsoulResponse {
    pub agent_nkey: String,
    pub name: String,
    pub template: String,
    pub steward: String,
    pub tb_account_id: Option<u64>,
}

/// Profile update request sent to `vgate.rpc.profile.sync`.
pub struct ProfileUpdateRequest {
    pub agent_nkey: String,
    pub soul_md: String,
    pub agent_md: String,
    pub knowledge_md: String,
}

/// Subject constants for vchat.email NATS RPC calls.
pub const SUBJECT_ENSOUL: &'static str = "vgate.rpc.ensoul";
pub const SUBJECT_PROFILE_SYNC: &'static str = "vgate.rpc.profile.sync";

/// Name of the personality file in the vault.
pub const SOUL_MD: &'static str = "SOUL.md";
/// Name of the capabilities file in the vault.
pub const AGENT_MD: &'static str = "AGENT.md";
/// The personality used when the vault has none.
pub const DEFAULT_SOUL: &'static str = "# VReader Agent\n\nA family RSS reader agent.";
/// The capabilities used when the vault has none.
pub const DEFAULT_AGENT: &'static str =
    "# Capabilities\n\n- Feed curation\n- Article summarization\n- Kid-safe content filtering";

/// The error text of a reply, empty when it has none.
pub open spec fn error_or_empty<T>(resp: RpcResponse<T>) -> Seq<char> {
    match resp.error {
        Some(e) => e@,
        None => Seq::empty(),
    }
}

/// The onboarding request for a new agent.
pub fn ensoul_request(template: &str, name: &str, nkey_public: &str, steward: &str) -> (r: EnsoulRequest)
    ensures
        r.template@ == template@,
        r.name@ == name@,
        r.nkey_public@ == nkey_public@,
        r.steward@ == steward@,
{
    EnsoulRequest {
        template: String::from_str(template),
        name: String::from_str(name),
        nkey_public: String::from_str(nkey_public),
        steward: String::from_str(steward),
    }
}

/// The outcome of onboarding: a reply of status `error` fails with its
/// error text; a reply without data fails; otherwise its data is the new
/// agent.
pub fn ensoul_result(resp: RpcResponse<EnsoulResponse>) -> (r: Result<EnsoulResponse, String>)
    ensures
        resp.status@ == "error"@ ==> (r matches Err(m) && m@ == "ensoul failed: "@ + error_or_empty(resp)),
        resp.status@ != "error"@ && resp.data is None ==> (r matches Err(m) && m@ == "ensoul returned empty data"@),
        resp.status@ != "error"@ && resp.data is Some ==> r == Ok::<EnsoulResponse, String>(resp.data->Some_0),
{
    proof {
        reveal_strlit("error");
    }
    if str_eq(resp.status.as_str(), "error") {
        let e = match &resp.error {
            Some(e) => e.clone(),
            None => String::new(),
        };
        return Err(concat2("ensoul failed: ", e.as_str()));
    }
    match resp.data {
        Some(d) => Ok(d),
        None => Err(String::from_str("ensoul returned empty data")),
    }
}

/// The profile update of an agent with the given personality and
/// capabilities, and no knowledge.
pub fn profile_update_request(agent_nkey: &str, soul_md: String, agent_md: String) -> (r: ProfileUpdateRequest)
    ensures
        r.agent_nkey@ == agent_nkey@,
        r.soul_md == soul_md,
        r.agent_md == agent_md,
        r.knowledge_md@.len() == 0,
{
    ProfileUpdateRequest { agent_nkey: String::from_str(agent_nkey), soul_md, agent_md, knowledge_md: String::new() }
}

/// The outcome of a profile sync: only a reply of status `ok` succeeds;
/// otherwise the sync fails with the reply's error text.
pub fn profile_sync_result<T>(resp: &RpcResponse<T>) -> (r: Result<(), String>)
    ensures
        resp.status@ == "ok"@ ==> r is Ok,
        resp.status@ != "ok"@ ==> (r matches Err(m) && m@ == "Profile sync failed: "@ + error_or_empty(*resp)),
{
    proof {
        reveal_strlit("ok");
    }
    if str_eq(resp.status.as_str(), "ok") {
        Ok(())
    } else {
        let e = match &resp.error {
            Some(e) => e.clone(),
            None => String::new(),
        };
        Err(concat2("Profile sync failed: ", e.as_str()))
    }
}

} // verus!
