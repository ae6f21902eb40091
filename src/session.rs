use vstd::prelude::*;
use crate::dn::{base_dn_of, connection_url, construct_base_dn, identity_of, url_of, user_identity, views};
use crate::entry::DirEntry;
use crate::error::LdapError;

verus! {

/// Where the setting up of a directory session stands, and what the caller is
/// to do next.
///
/// - `Connect`: open a plaintext connection to `url`.
/// - `Bind`: on that connection, make a simple bind as `user_dn` with the
///   password; searches are then rooted at `base_dn`.
/// - `Ready`: the session is bound; searches are rooted at `base_dn`.
/// - `Failed`: setting up stopped at the first error; no session exists.
#[derive(Debug)]
pub enum Step {
    Connect { url: String },
    Bind { user_dn: String, base_dn: String },
    Ready { base_dn: String },
    Failed(LdapError),
}

/// A subtree search of the directory: rooted at `base`, selecting entries by
/// `filter`, and asking for the attributes `attrs` only.
#[derive(Debug)]
pub struct SearchRequest {
    pub base: String,
    pub filter: String,
    pub attrs: Vec<String>,
}

/// The attributes every user search asks for.
pub open spec fn requested_attrs() -> Seq<Seq<char>> {
    seq!["cn"@, "description"@]
}

/// The first step of setting up a session with `server` (a host, or
/// host:port, without a scheme): connect to it in plaintext.
pub fn begin(server: &str) -> (r: Step)
    ensures
        r matches Step::Connect { url } && url@ == url_of(server@),
{
    Step::Connect { url: connection_url(server) }
}

/// The step after the connection attempt. A failed connection ends the set-up
/// with `ConnectionError` carrying the transport's message. An open one is
/// followed by a bind as `CN=<username>,CN=Users,<base dn of domain>`.
pub fn after_connect(outcome: Result<(), String>, username: &str, domain: &str) -> (r: Step)
    ensures
        match outcome {
            Err(m) => r == Step::Failed(LdapError::ConnectionError(m)),
            Ok(_) => r matches Step::Bind { user_dn, base_dn }
                && base_dn@ == base_dn_of(domain@)
                && user_dn@ == identity_of(username@, base_dn_of(domain@)),
        },
{
    match outcome {
        Err(m) => Step::Failed(LdapError::ConnectionError(m)),
        Ok(_) => match construct_base_dn(domain) {
            Ok(base_dn) => {
                let user_dn = user_identity(username, base_dn.as_str());
                Step::Bind { user_dn, base_dn }
            },
            Err(e) => Step::Failed(e),
        },
    }
}

/// The step after the bind attempt. A rejected bind ends the set-up with
/// `BindError` carrying the server's message; an accepted one leaves the
/// session ready, rooted at `base_dn`.
pub fn after_bind(outcome: Result<(), String>, base_dn: String) -> (r: Step)
    ensures
        match outcome {
            Err(m) => r == Step::Failed(LdapError::BindError(m)),
            Ok(_) => r == Step::Ready { base_dn },
        },
{
    match outcome {
        Err(m) => Step::Failed(LdapError::BindError(m)),
        Ok(_) => Step::Ready { base_dn },
    }
}

/// The search for users matching `filter`: the whole subtree under `base_dn`,
/// asking for `cn` and `description` only.
pub fn search_request(base_dn: &str, filter: &str) -> (r: SearchRequest)
    ensures
        r.base@ == base_dn@,
        r.filter@ == filter@,
        views(r.attrs@) == requested_attrs(),
{
    let attrs = vec![String::from_str("cn"), String::from_str("description")];
    let r = SearchRequest { base: String::from_str(base_dn), filter: String::from_str(filter), attrs };
    assert(views(r.attrs@) =~= requested_attrs());
    r
}

/// The result of a search: the entries as returned, in order (none where
/// nothing matched), or `SearchError` carrying the message of a failed request.
pub fn after_search(outcome: Result<Vec<DirEntry>, String>) -> (r: Result<Vec<DirEntry>, LdapError>)
    ensures
        match outcome {
            Err(m) => r == Err::<Vec<DirEntry>, LdapError>(LdapError::SearchError(m)),
            Ok(entries) => r == Ok::<Vec<DirEntry>, LdapError>(entries),
        },
{
    match outcome {
        Err(m) => Err(LdapError::SearchError(m)),
        Ok(entries) => Ok(entries),
    }
}

} // verus!
