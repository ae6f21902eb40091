use vstd::prelude::*;
use crate::error::LdapError;

verus! {

/// The connection target for a server address: the plaintext scheme
/// followed by the address as given.
pub open spec fn url_of(server: Seq<char>) -> Seq<char> {
    "ldap://"@ + server
}

/// The labels of a dotted name: the pieces between the dots, in order.
/// A name with k dots has k + 1 labels, some of which may be empty.
pub open spec fn labels_of(s: Seq<char>) -> Seq<Seq<char>>
    decreases s.len(),
{
    if s.len() == 0 {
        seq![Seq::empty()]
    } else {
        let rest = labels_of(s.drop_last());
        if s.last() == '.' {
            rest.push(Seq::empty())
        } else {
            rest.update(rest.len() - 1, rest.last().push(s.last()))
        }
    }
}

/// The upper-case form of a text, as std's Unicode case mapping gives it.
pub uninterp spec fn upper_of(s: Seq<char>) -> Seq<char>;

/// Domain components joined into a distinguished name: `DC=p1,DC=p2,...`.
pub open spec fn dc_join(parts: Seq<Seq<char>>) -> Seq<char>
    decreases parts.len(),
{
    if parts.len() == 0 {
        Seq::empty()
    } else if parts.len() == 1 {
        "DC="@ + parts[0]
    } else {
        dc_join(parts.drop_last()) + ",DC="@ + parts.last()
    }
}

/// The base distinguished name of a dotted domain name: each label upper-cased
/// and written as a domain component, in the order of the labels.
pub open spec fn base_dn_of(domain: Seq<char>) -> Seq<char> {
    dc_join(labels_of(domain).map_values(|l: Seq<char>| upper_of(l)))
}

/// The identity a user binds as: `CN=<user>,CN=Users,<base dn>`.
pub open spec fn identity_of(username: Seq<char>, base_dn: Seq<char>) -> Seq<char> {
    "CN="@ + username + ",CN=Users,"@ + base_dn
}

/// The views of a sequence of strings.
pub open spec fn views(v: Seq<String>) -> Seq<Seq<char>> {
    v.map_values(|s: String| s@)
}

/// Relies on str::to_uppercase: the result depends on the characters alone.
#[verifier::external_body]
fn uppercase(s: &str) -> (r: String)
    ensures
        r@ == upper_of(s@),
{
    s.to_uppercase()
}

/// Builds the plaintext connection target for `server`.
pub fn connection_url(server: &str) -> (r: String)
    ensures
        r@ == url_of(server@),
{
    let mut r = String::from_str("ldap://");
    r.append(server);
    r
}

/// Splits a dotted name into its labels.
pub fn split_labels(s: &str) -> (r: Vec<String>)
    ensures
        views(r@) == labels_of(s@),
{
    let n = s.unicode_len();
    let mut done: Vec<String> = Vec::new();
    let mut start: usize = 0;
    let mut i: usize = 0;
    assert(s@.take(0) =~= Seq::<char>::empty());
    assert(views(done@) =~= Seq::<Seq<char>>::empty());
    assert(s@.subrange(0, 0) =~= Seq::<char>::empty());
    assert(labels_of(Seq::<char>::empty()) =~= seq![Seq::<char>::empty()]);
    while i < n
        invariant
            n == s@.len(),
            start <= i <= n,
            labels_of(s@.take(i as int)) == views(done@).push(s@.subrange(start as int, i as int)),
        decreases n - i,
    {
        let c = s.get_char(i);
        proof {
            assert(s@.take(i + 1).drop_last() =~= s@.take(i as int));
            assert(s@.take(i + 1).last() == c);
        }
        let ghost before = done@;
        if c == '.' {
            let piece = String::from_str(s.substring_char(start, i));
            done.push(piece);
            start = i + 1;
            assert(views(done@) =~= views(before).push(piece@));
            assert(s@.subrange(start as int, i + 1) =~= Seq::<char>::empty());
        } else {
            assert(s@.subrange(start as int, i + 1) =~= s@.subrange(start as int, i as int).push(c));
        }
        i = i + 1;
    }
    assert(s@.take(n as int) =~= s@);
    let ghost before = done@;
    let last = String::from_str(s.substring_char(start, n));
    done.push(last);
    assert(views(done@) =~= views(before).push(last@));
    done
}

/// Writes `parts` as domain components of a distinguished name:
/// `DC=p1,DC=p2,...`, in the order given.
pub fn join_dc(parts: &Vec<String>) -> (r: String)
    ensures
        r@ == dc_join(views(parts@)),
{
    let mut r = String::new();
    let mut i: usize = 0;
    while i < parts.len()
        invariant
            i <= parts@.len(),
            r@ == dc_join(views(parts@.take(i as int))),
        decreases parts.len() - i,
    {
        proof {
            let t = views(parts@.take(i + 1));
            assert(t.drop_last() =~= views(parts@.take(i as int)));
            assert(t.last() == parts@[i as int]@);
            if i == 0 {
                assert(t =~= seq![parts@[0]@]);
            }
        }
        if i == 0 {
            r.append("DC=");
        } else {
            r.append(",DC=");
        }
        r.append(parts[i].as_str());
        i = i + 1;
    }
    assert(parts@.take(i as int) =~= parts@);
    r
}

/// Computes the base distinguished name of a dotted domain name: every label is
/// upper-cased and becomes one domain component, in order
/// (`corp.local` gives `DC=CORP,DC=LOCAL`).
pub fn construct_base_dn(domain: &str) -> (r: Result<String, LdapError>)
    ensures
        r matches Ok(dn) && dn@ == base_dn_of(domain@),
{
    let labels = split_labels(domain);
    let mut upper: Vec<String> = Vec::new();
    let mut i: usize = 0;
    while i < labels.len()
        invariant
            i <= labels@.len(),
            views(labels@) == labels_of(domain@),
            views(upper@) == views(labels@.take(i as int)).map_values(|l: Seq<char>| upper_of(l)),
        decreases labels.len() - i,
    {
        let u = uppercase(labels[i].as_str());
        let ghost before = upper@;
        upper.push(u);
        proof {
            assert(views(upper@) =~= views(before).push(u@));
            assert(views(labels@.take(i + 1)) =~= views(labels@.take(i as int)).push(labels@[i as int]@));
            assert(views(labels@.take(i + 1)).map_values(|l: Seq<char>| upper_of(l))
                =~= views(labels@.take(i as int)).map_values(|l: Seq<char>| upper_of(l)).push(u@));
        }
        i = i + 1;
    }
    assert(labels@.take(i as int) =~= labels@);
    let dn = join_dc(&upper);
    Ok(dn)
}

/// Builds the identity a user binds as: `CN=<username>,CN=Users,<base_dn>`.
pub fn user_identity(username: &str, base_dn: &str) -> (r: String)
    ensures
        r@ == identity_of(username@, base_dn@),
{
    let mut r = String::from_str("CN=");
    r.append(username);
    r.append(",CN=Users,");
    r.append(base_dn);
    r
}

} // verus!
