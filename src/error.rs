use vstd::prelude::*;

verus! {

/// The ways in which setting up a directory session or searching it can fail.
/// Each kind carries the message of the underlying transport or protocol error.
#[derive(Debug, PartialEq, Eq)]
pub enum LdapError {
    ConnectionError(String),
    BaseDNConstructionError(String),
    BindError(String),
    SearchError(String),
    EntryParsingError(String),
}

/// The human-readable text of an error: a fixed prefix naming its kind,
/// followed by the carried message.
pub open spec fn message_of(e: LdapError) -> Seq<char> {
    match e {
        LdapError::ConnectionError(m) => "LDAP connection error: "@ + m@,
        LdapError::BaseDNConstructionError(m) => "Invalid base DN construction: "@ + m@,
        LdapError::BindError(m) => "LDAP bind failed: "@ + m@,
        LdapError::SearchError(m) => "LDAP search failed: "@ + m@,
        LdapError::EntryParsingError(m) => "LDAP entry parsing error: "@ + m@,
    }
}

impl LdapError {
    /// Renders the error for a person to read.
    pub fn message(&self) -> (r: String)
        ensures
            r@ == message_of(*self),
    {
        let (prefix, m) = match self {
            LdapError::ConnectionError(m) => ("LDAP connection error: ", m),
            LdapError::BaseDNConstructionError(m) => ("Invalid base DN construction: ", m),
            LdapError::BindError(m) => ("LDAP bind failed: ", m),
            LdapError::SearchError(m) => ("LDAP search failed: ", m),
            LdapError::EntryParsingError(m) => ("LDAP entry parsing error: ", m),
        };
        let mut r = String::from_str(prefix);
        r.append(m.as_str());
        r
    }
}

} // verus!
