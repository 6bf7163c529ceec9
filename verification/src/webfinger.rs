//! WebFinger (RFC 7033) resource parsing and response construction.
use vstd::prelude::*;

use crate::text;
use crate::text::{chars_of, eq_ignore_ascii_case, split_on_char, strip_prefix};

verus! {

/// The parts of a WebFinger `resource` parameter such as `acct:alice@example.com`.
pub struct WebfingerQuery {
    pub has_prefix: bool,
    pub preferred_username: Option<String>,
    pub domain: Option<String>,
}

/// A link in a WebFinger response.
pub struct WebfingerLink {
    pub rel: String,
    pub type_field: String,
    pub href: String,
}

/// A WebFinger response document.
pub struct WebfingerResult {
    pub subject: String,
    pub aliases: Option<Vec<String>>,
    pub links: Vec<WebfingerLink>,
}

/// Why a WebFinger request is refused before any lookup.
pub enum WebfingerError {
    /// The resource names another domain (answered with 400 "not from this domain").
    NotFromThisDomain,
    /// The resource names no user (answered with 400 "no preferred username provided").
    NoPreferredUsername,
}

/// The account a WebFinger request asks about.
pub struct WebfingerTarget {
    pub preferred_username: String,
    /// the account is the instance actor, whose name is the instance domain
    pub is_instance_actor: bool,
}

/// The resource with a leading `acct:` removed, when it has one.
pub open spec fn resource_without_prefix(input: Seq<char>) -> Seq<char> {
    if "acct:"@.is_prefix_of(input) {
        input.skip("acct:"@.len() as int)
    } else {
        input
    }
}

/// The user part: everything before the first `@`.
pub open spec fn query_username(input: Seq<char>) -> Seq<char> {
    text::split_on(resource_without_prefix(input), '@')[0]
}

/// The domain part: what lies between the first and the second `@`, if there is an `@`.
pub open spec fn query_domain(input: Seq<char>) -> Option<Seq<char>> {
    let pieces = text::split_on(resource_without_prefix(input), '@');
    if pieces.len() > 1 {
        Some(pieces[1])
    } else {
        None
    }
}

impl WebfingerQuery {
    /// The query as plain values: prefix flag, user part, domain part.
    pub open spec fn view(&self) -> (bool, Option<Seq<char>>, Option<Seq<char>>) {
        (self.has_prefix, self.preferred_username.deep_view(), self.domain.deep_view())
    }

    /// Splits a resource into its parts: an optional `acct:` prefix, then the
    /// user name up to the first `@` and the domain up to the next `@`.
    pub fn parse_query(input: String) -> (q: WebfingerQuery)
        ensures
            q.has_prefix == "acct:"@.is_prefix_of(input@),
            q.preferred_username.deep_view() == Some(query_username(input@)),
            q.domain.deep_view() == query_domain(input@),
    {
        let stripped = strip_prefix(input.as_str(), "acct:");
        let has_prefix = stripped.is_some();
        let resource = match stripped {
            Some(x) => x,
            None => input.clone(),
        };
        assert(resource@ == resource_without_prefix(input@));
        let mut pieces = split_on_char(resource.as_str(), '@');
        proof {
            lemma_split_on_nonempty(resource@, '@');
        }
        let ghost dv = pieces.deep_view();
        let domain = if pieces.len() > 1 {
            Some(pieces.remove(1))
        } else {
            None
        };
        let uname = pieces.remove(0);
        WebfingerQuery { has_prefix, preferred_username: Some(uname), domain }
    }
}

/// Splitting always yields at least one piece.
pub proof fn lemma_split_on_nonempty(s: Seq<char>, c: char)
    ensures
        text::split_on(s, c).len() >= 1,
{
}

/// What a WebFinger query with the given domain and user parts resolves to
/// on `instance_domain`: refused when the domain is another one (ASCII case
/// aside) or when there is no user; otherwise the user, and whether it is the
/// instance actor.
pub open spec fn resolution(
    domain: Option<Seq<char>>,
    user: Option<Seq<char>>,
    instance_domain: Seq<char>,
) -> Result<(Seq<char>, bool), WebfingerError> {
    match domain {
        Some(d) if !text::eq_ignore_ascii_case_spec(d, instance_domain) => Err(
            WebfingerError::NotFromThisDomain,
        ),
        _ => match user {
            None => Err(WebfingerError::NoPreferredUsername),
            Some(u) => Ok((u, u == instance_domain)),
        },
    }
}

/// Decides which account a parsed WebFinger query refers to: a query naming
/// another domain (compared without regard to ASCII case) is refused, a query
/// without a user is refused, and a user named like the instance domain is the
/// instance actor.
pub fn resolve_webfinger(query: WebfingerQuery, instance_domain: &str) -> (r: Result<
    WebfingerTarget,
    WebfingerError,
>)
    ensures
        resolution(query.domain.deep_view(), query.preferred_username.deep_view(), instance_domain@)
            == match r {
            Ok(t) => Ok((t.preferred_username@, t.is_instance_actor)),
            Err(e) => Err(e),
        },
        match query.domain {
            Some(d) if !text::eq_ignore_ascii_case_spec(d@, instance_domain@) => r
                is Err && r->Err_0 is NotFromThisDomain,
            _ => match query.preferred_username {
                None => r is Err && r->Err_0 is NoPreferredUsername,
                Some(u) => r is Ok && r->Ok_0.preferred_username@ == u@
                    && r->Ok_0.is_instance_actor == (u@ == instance_domain@),
            },
        },
{
    if let Some(d) = &query.domain {
        if !eq_ignore_ascii_case(d.as_str(), instance_domain) {
            return Err(WebfingerError::NotFromThisDomain);
        }
    }
    match query.preferred_username {
        Some(u) => {
            let is_instance_actor = eq_str(u.as_str(), instance_domain);
            Ok(WebfingerTarget { preferred_username: u, is_instance_actor })
        },
        None => Err(WebfingerError::NoPreferredUsername),
    }
}

/// Exact string equality.
pub fn eq_str(a: &str, b: &str) -> (r: bool)
    ensures
        r == (a@ == b@),
{
    let va = chars_of(a);
    let vb = chars_of(b);
    if va.len() != vb.len() {
        return false;
    }
    let n = va.len();
    for i in 0..n
        invariant
            n == va@.len(),
            n == vb@.len(),
            va@ == a@,
            vb@ == b@,
            forall|j: int| 0 <= j < i ==> va@[j] == vb@[j],
    {
        if va[i] != vb[i] {
            return false;
        }
    }
    assert(va@ =~= vb@);
    true
}

/// The subject of a WebFinger answer: `acct:{user}@{domain}`.
pub open spec fn subject_spec(user: Seq<char>, domain: Seq<char>) -> Seq<char> {
    "acct:"@ + user + "@"@ + domain
}

/// The profile page of a user: `https://{domain}/@{user}`.
pub open spec fn profile_page_spec(user: Seq<char>, domain: Seq<char>) -> Seq<char> {
    "https://"@ + domain + "/@"@ + user
}

impl WebfingerLink {
    /// The link as plain values: relation, media type, target.
    pub open spec fn view(&self) -> (Seq<char>, Seq<char>, Seq<char>) {
        (self.rel@, self.type_field@, self.href@)
    }
}

/// The links of a WebFinger answer, as plain values.
pub open spec fn links_view(links: Seq<WebfingerLink>) -> Seq<(Seq<char>, Seq<char>, Seq<char>)> {
    links.map_values(|l: WebfingerLink| l.view())
}

impl WebfingerResult {
    /// The WebFinger answer for `preferred_username` on `instance_domain`
    /// whose actor has the id `actor_id`.
    pub fn new(preferred_username: &str, instance_domain: &str, actor_id: &str) -> (r:
        WebfingerResult)
        ensures
            r.subject@ == subject_spec(preferred_username@, instance_domain@),
            r.aliases.deep_view() == Some(
                seq![actor_id@, profile_page_spec(preferred_username@, instance_domain@)],
            ),
            links_view(r.links@) == seq![
                ("self"@, "application/activity+json"@, actor_id@ + "/ap"@),
                ("self"@, "application/json"@, actor_id@ + "/versia"@),
                (
                    "http://webfinger.net/rel/profile-page"@,
                    "text/html"@,
                    profile_page_spec(preferred_username@, instance_domain@),
                ),
            ],
    {
        let mut subject = String::new();
        subject.append("acct:");
        subject.append(preferred_username);
        subject.append("@");
        subject.append(instance_domain);

        let mut profile_page = String::new();
        profile_page.append("https://");
        profile_page.append(instance_domain);
        profile_page.append("/@");
        profile_page.append(preferred_username);

        let mut aliases: Vec<String> = Vec::new();
        aliases.push(String::from_str(actor_id));
        aliases.push(profile_page.clone());

        let mut ap = String::from_str(actor_id);
        ap.append("/ap");
        let mut versia = String::from_str(actor_id);
        versia.append("/versia");

        let mut links: Vec<WebfingerLink> = Vec::new();
        links.push(
            WebfingerLink {
                rel: String::from_str("self"),
                type_field: String::from_str("application/activity+json"),
                href: ap,
            },
        );
        links.push(
            WebfingerLink {
                rel: String::from_str("self"),
                type_field: String::from_str("application/json"),
                href: versia,
            },
        );
        links.push(
            WebfingerLink {
                rel: String::from_str("http://webfinger.net/rel/profile-page"),
                type_field: String::from_str("text/html"),
                href: profile_page,
            },
        );
        let r = WebfingerResult { subject, aliases: Some(aliases), links };
        assert(links_view(r.links@) =~= seq![
            ("self"@, "application/activity+json"@, actor_id@ + "/ap"@),
            ("self"@, "application/json"@, actor_id@ + "/versia"@),
            (
                "http://webfinger.net/rel/profile-page"@,
                "text/html"@,
                profile_page_spec(preferred_username@, instance_domain@),
            ),
        ]);
        assert(r.aliases.deep_view() =~= Some(
            seq![actor_id@, profile_page_spec(preferred_username@, instance_domain@)],
        ));
        r
    }
}

/// A subject produced for a user and a domain that contain no `@` parses back
/// into that user and that domain, with the `acct:` prefix recognised.
pub proof fn law_subject_parses_back(user: Seq<char>, domain: Seq<char>)
    requires
        forall|i: int| 0 <= i < user.len() ==> user[i] != '@',
        forall|i: int| 0 <= i < domain.len() ==> domain[i] != '@',
    ensures
        "acct:"@.is_prefix_of(subject_spec(user, domain)),
        query_username(subject_spec(user, domain)) == user,
        query_domain(subject_spec(user, domain)) == Some(domain),
{
    reveal_strlit("@");
    let s = subject_spec(user, domain);
    let rest = user.push('@') + domain;
    assert(s =~= "acct:"@ + rest);
    assert(("acct:"@ + rest).subrange(0, "acct:"@.len() as int) =~= "acct:"@);
    assert(s.skip("acct:"@.len() as int) =~= rest);
    assert(resource_without_prefix(s) == rest);
    text::lemma_split_state_plain_suffix(Seq::empty(), user, '@');
    assert(Seq::<char>::empty() + user =~= user);
    text::lemma_split_state_separator(user, '@');
    text::lemma_split_state_plain_suffix(user.push('@'), domain, '@');
    assert(text::split_on(rest, '@') =~= seq![user, domain]);
}

/// The subject of a WebFinger answer for a user and a domain that contain no
/// `@`, asked about again on that domain, resolves to the same user; it is
/// the instance actor exactly when the user is named like the domain.
pub proof fn law_subject_resolves_back(user: Seq<char>, domain: Seq<char>)
    requires
        forall|i: int| 0 <= i < user.len() ==> user[i] != '@',
        forall|i: int| 0 <= i < domain.len() ==> domain[i] != '@',
    ensures
        resolution(
            query_domain(subject_spec(user, domain)),
            Some(query_username(subject_spec(user, domain))),
            domain,
        ) == Ok::<(Seq<char>, bool), WebfingerError>((user, user == domain)),
{
    law_subject_parses_back(user, domain);
    text::lemma_eq_ignore_ascii_case_equivalence(domain, domain, domain);
}

} // verus!
