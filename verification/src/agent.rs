//! The user-agent text that every request carries.

use crate::probe::opt_text;
use vstd::prelude::*;
use vstd::string::StringExecFns;

verus! {

/// What stands before the host name in the user agent.
pub const AGENT_PREFIX: &'static str = "deployerd/1.0 (";

/// What stands after it.
pub const AGENT_SUFFIX: &'static str = ")";

/// The user agent of a watcher that runs on the given host.
pub open spec fn user_agent(host: Seq<char>) -> Seq<char> {
    AGENT_PREFIX@ + host + AGENT_SUFFIX@
}

/// Builds the user agent for a host name.
pub fn user_agent_for(host: &str) -> (agent: String)
    ensures
        agent@ == user_agent(host@),
{
    let mut agent = String::from_str(AGENT_PREFIX);
    agent.append(host);
    agent.append(AGENT_SUFFIX);
    agent
}

/// Asks `hostname::get` for the name of this machine. The answer is the
/// machine's own: nothing is claimed of it. There is none where the lookup
/// fails or the name is not valid Unicode.
#[verifier::external_body]
fn local_hostname() -> Option<String> {
    hostname::get().ok().and_then(|name| name.into_string().ok())
}

/// Builds the user agent of this machine; none where its name cannot be had.
pub fn make_user_agent() -> (r: Option<String>)
    ensures
        r matches Some(agent) ==> exists|host: Seq<char>| agent@ == user_agent(host),
{
    let lookup = local_hostname();
    let r = user_agent_of_lookup(&lookup);
    assert(r matches Some(agent) ==> agent@ == user_agent(lookup->0@));
    r
}

/// What a host lookup makes of the user agent: the agent of the host that
/// was found, and nothing where none was.
pub open spec fn lookup_agent(lookup: Option<String>) -> Option<Seq<char>> {
    match lookup {
        Some(host) => Some(user_agent(host@)),
        None => None,
    }
}

/// Builds the user agent from the outcome of a host lookup: that of the host
/// where one was found, none where the lookup failed.
pub fn user_agent_of_lookup(lookup: &Option<String>) -> (r: Option<String>)
    ensures
        opt_text(r) == lookup_agent(*lookup),
{
    match lookup {
        Some(host) => Some(user_agent_for(host.as_str())),
        None => None,
    }
}

} // verus!
