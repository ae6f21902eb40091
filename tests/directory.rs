use ldap_enum::dn::{connection_url, construct_base_dn, join_dc, split_labels, user_identity};
use ldap_enum::entry::{
    attribute_cell, description_cell, header_row, join_values, table_rows, user_cell, DirEntry,
};
use ldap_enum::error::LdapError;
use ldap_enum::session::{after_bind, after_connect, after_search, begin, search_request, Step};

fn strings(v: &[&str]) -> Vec<String> {
    v.iter().map(|s| s.to_string()).collect()
}

fn entry(dn: &str, attrs: &[(&str, &[&str])]) -> DirEntry {
    let mut e = DirEntry::new(dn.to_string());
    for (name, values) in attrs {
        e.set_values(name.to_string(), strings(values));
    }
    e
}

#[test]
fn base_dn_two_labels() {
    assert_eq!(construct_base_dn("corp.local").unwrap(), "DC=CORP,DC=LOCAL");
    assert_eq!(construct_base_dn("example.com").unwrap(), "DC=EXAMPLE,DC=COM");
}

#[test]
fn base_dn_single_label() {
    assert_eq!(construct_base_dn("test").unwrap(), "DC=TEST");
}

#[test]
fn base_dn_many_labels_keep_order() {
    assert_eq!(
        construct_base_dn("eu.sales.Corp.Example").unwrap(),
        "DC=EU,DC=SALES,DC=CORP,DC=EXAMPLE"
    );
}

#[test]
fn base_dn_uses_unicode_upper_case() {
    assert_eq!(construct_base_dn("straße.de").unwrap(), "DC=STRASSE,DC=DE");
}

#[test]
fn base_dn_keeps_empty_labels() {
    assert_eq!(construct_base_dn("a..b").unwrap(), "DC=A,DC=,DC=B");
    assert_eq!(construct_base_dn("").unwrap(), "DC=");
}

#[test]
fn labels_split_on_dots() {
    assert_eq!(split_labels("corp.local"), strings(&["corp", "local"]));
    assert_eq!(split_labels("test"), strings(&["test"]));
    assert_eq!(split_labels("a."), strings(&["a", ""]));
    assert_eq!(split_labels(""), strings(&[""]));
}

#[test]
fn components_joined_in_order() {
    assert_eq!(join_dc(&strings(&["CORP", "LOCAL"])), "DC=CORP,DC=LOCAL");
    assert_eq!(join_dc(&strings(&["X"])), "DC=X");
    assert_eq!(join_dc(&strings(&[])), "");
}

#[test]
fn bind_identity_shape() {
    assert_eq!(
        user_identity("alice", "DC=CORP,DC=LOCAL"),
        "CN=alice,CN=Users,DC=CORP,DC=LOCAL"
    );
    assert_eq!(user_identity("Bob Smith", "DC=TEST"), "CN=Bob Smith,CN=Users,DC=TEST");
}

#[test]
fn url_has_plaintext_scheme() {
    assert_eq!(connection_url("10.0.0.1"), "ldap://10.0.0.1");
    assert_eq!(connection_url("dc.corp.local:389"), "ldap://dc.corp.local:389");
}

#[test]
fn begin_connects_to_url() {
    match begin("10.0.0.1") {
        Step::Connect { url } => assert_eq!(url, "ldap://10.0.0.1"),
        other => panic!("unexpected step {:?}", other),
    }
}

#[test]
fn connection_failure_gives_connection_error() {
    match after_connect(Err("host unreachable".to_string()), "alice", "corp.local") {
        Step::Failed(e) => {
            assert_eq!(e, LdapError::ConnectionError("host unreachable".to_string()))
        }
        other => panic!("unexpected step {:?}", other),
    }
}

#[test]
fn open_connection_leads_to_bind() {
    match after_connect(Ok(()), "alice", "corp.local") {
        Step::Bind { user_dn, base_dn } => {
            assert_eq!(user_dn, "CN=alice,CN=Users,DC=CORP,DC=LOCAL");
            assert_eq!(base_dn, "DC=CORP,DC=LOCAL");
        }
        other => panic!("unexpected step {:?}", other),
    }
}

#[test]
fn rejected_bind_gives_bind_error() {
    match after_bind(Err("invalid credentials".to_string()), "DC=TEST".to_string()) {
        Step::Failed(e) => assert_eq!(e, LdapError::BindError("invalid credentials".to_string())),
        other => panic!("unexpected step {:?}", other),
    }
}

#[test]
fn accepted_bind_is_ready() {
    match after_bind(Ok(()), "DC=TEST".to_string()) {
        Step::Ready { base_dn } => assert_eq!(base_dn, "DC=TEST"),
        other => panic!("unexpected step {:?}", other),
    }
}

#[test]
fn empty_search_is_empty_not_error() {
    let r = after_search(Ok(Vec::new()));
    assert!(r.unwrap().is_empty());
}

#[test]
fn failed_search_gives_search_error() {
    let r = after_search(Err("timeout".to_string()));
    assert_eq!(r.unwrap_err(), LdapError::SearchError("timeout".to_string()));
}

#[test]
fn search_keeps_entries_in_order() {
    let r = after_search(Ok(vec![entry("CN=a", &[]), entry("CN=b", &[])])).unwrap();
    assert_eq!(r.len(), 2);
    assert_eq!(r[0].dn, "CN=a");
    assert_eq!(r[1].dn, "CN=b");
}

#[test]
fn search_request_asks_for_two_attributes() {
    let r = search_request("DC=CORP,DC=LOCAL", "(objectClass=user)");
    assert_eq!(r.base, "DC=CORP,DC=LOCAL");
    assert_eq!(r.filter, "(objectClass=user)");
    assert_eq!(r.attrs, strings(&["cn", "description"]));
}

#[test]
fn missing_description_gets_placeholder() {
    let e = entry("CN=alice", &[("cn", &["alice"])]);
    assert_eq!(description_cell(&e), "Description not found in entry");
    assert_eq!(user_cell(&e), "alice");
}

#[test]
fn missing_cn_gets_placeholder() {
    let e = entry("CN=x", &[("description", &["service account"])]);
    assert_eq!(user_cell(&e), "CN not found in entry");
    assert_eq!(description_cell(&e), "service account");
}

#[test]
fn multiple_values_joined_in_order() {
    let e = entry("CN=x", &[("description", &["first", "second", "third"])]);
    assert_eq!(description_cell(&e), "first, second, third");
    assert_eq!(join_values(&strings(&["b", "a"])), "b, a");
    assert_eq!(join_values(&strings(&[])), "");
}

#[test]
fn setting_values_again_replaces_them() {
    let mut e = entry("CN=x", &[("cn", &["old"]), ("description", &["d"])]);
    e.set_values("cn".to_string(), strings(&["new"]));
    assert_eq!(e.attrs.len(), 2);
    assert_eq!(e.get("cn"), Some(&strings(&["new"])));
    assert_eq!(e.get("description"), Some(&strings(&["d"])));
    assert_eq!(e.get("mail"), None);
}

#[test]
fn attribute_cell_uses_given_placeholder() {
    let e = entry("CN=x", &[("cn", &["x"])]);
    assert_eq!(attribute_cell(&e, "mail", "none"), "none");
    assert_eq!(attribute_cell(&e, "cn", "none"), "x");
}

#[test]
fn rows_follow_entries() {
    let entries = vec![
        entry("CN=a", &[("cn", &["a"]), ("description", &["x", "y"])]),
        entry("CN=b", &[]),
    ];
    let rows = table_rows(&entries);
    assert_eq!(
        rows,
        vec![
            ("a".to_string(), "x, y".to_string()),
            (
                "CN not found in entry".to_string(),
                "Description not found in entry".to_string()
            ),
        ]
    );
    assert_eq!(header_row(), ("User".to_string(), "Description".to_string()));
}

#[test]
fn error_messages_name_their_kind() {
    let m = |e: LdapError| e.message();
    assert_eq!(m(LdapError::ConnectionError("a".to_string())), "LDAP connection error: a");
    assert_eq!(
        m(LdapError::BaseDNConstructionError("b".to_string())),
        "Invalid base DN construction: b"
    );
    assert_eq!(m(LdapError::BindError("c".to_string())), "LDAP bind failed: c");
    assert_eq!(m(LdapError::SearchError("d".to_string())), "LDAP search failed: d");
    assert_eq!(m(LdapError::EntryParsingError("e".to_string())), "LDAP entry parsing error: e");
}
