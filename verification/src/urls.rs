//! URLs as plain values, and the links that identify local actors.
use vstd::prelude::*;

verus! {

/// What the protocol code reads of a parsed URL.
pub struct UrlParts {
    /// the normalised serialisation (`Url::as_str`)
    pub serialization: String,
    /// the host, when the URL has one (`Url::host_str`)
    pub host: Option<String>,
    /// the host when it is a domain name rather than an IP address (`Url::domain`)
    pub domain: Option<String>,
    /// the path (`Url::path`)
    pub path: String,
}

impl UrlParts {
    /// The parts as plain values: serialisation, host, domain, path.
    pub open spec fn view(&self) -> (Seq<char>, Option<Seq<char>>, Option<Seq<char>>, Seq<char>) {
        (self.serialization@, self.host.deep_view(), self.domain.deep_view(), self.path@)
    }
}

/// What `url::Url::parse` makes of a text, read back through `as_str`,
/// `host_str`, `domain` and `path`; `None` when the text is not a valid URL.
pub uninterp spec fn url_parts_spec(text: Seq<char>) -> Option<
    (Seq<char>, Option<Seq<char>>, Option<Seq<char>>, Seq<char>),
>;

/// `url::Url::parse` followed by `as_str`, `host_str`, `domain` and `path`.
/// The result is named by `url_parts_spec`: parsing depends on the text alone;
/// the WHATWG rules it follows are not restated.
#[verifier::external_body]
pub(crate) fn parse_url(text: &str) -> (r: Option<UrlParts>)
    ensures
        match r {
            Some(p) => url_parts_spec(text@) == Some(p.view()),
            None => url_parts_spec(text@) is None,
        },
{
    match url::Url::parse(text) {
        Ok(u) => Some(
            UrlParts {
                serialization: u.as_str().to_string(),
                host: u.host_str().map(|h| h.to_string()),
                domain: u.domain().map(|d| d.to_string()),
                path: u.path().to_string(),
            },
        ),
        Err(_) => None,
    }
}

impl UrlParts {
    /// Parses `text` as a URL; `None` when it is not a valid URL.
    pub fn parse(text: &str) -> (r: Option<UrlParts>)
        ensures
            match r {
                Some(p) => url_parts_spec(text@) == Some(p.view()),
                None => url_parts_spec(text@) is None,
            },
    {
        parse_url(text)
    }
}

/// The normalised serialisation of a text that parses as a URL.
pub open spec fn url_serialization(text: Seq<char>) -> Seq<char> {
    url_parts_spec(text).unwrap().0
}

/// The links of an actor.
pub struct UserLinks {
    pub id: String,
    pub inbox: String,
    pub outbox: String,
    pub followers: String,
    pub following: String,
    pub liked: String,
    pub url: String,
    pub pub_key_id: String,
}

impl UserLinks {
    /// The links in field order: id, inbox, outbox, followers, following,
    /// liked, url, public key id.
    pub open spec fn view(&self) -> Seq<Seq<char>> {
        seq![
            self.id@,
            self.inbox@,
            self.outbox@,
            self.followers@,
            self.following@,
            self.liked@,
            self.url@,
            self.pub_key_id@,
        ]
    }
}

/// Every text parses as a URL.
pub open spec fn all_parse(texts: Seq<Seq<char>>) -> bool {
    forall|i: int| 0 <= i < texts.len() ==> (#[trigger] url_parts_spec(texts[i])) is Some
}

/// The serialisations of texts that all parse.
pub open spec fn serializations(texts: Seq<Seq<char>>) -> Seq<Seq<char>> {
    texts.map_values(|t: Seq<char>| url_serialization(t))
}

/// The texts of a user's links under a protocol suffix (`ap` or `versia`),
/// in the field order of `UserLinks`.
pub open spec fn user_link_texts(domain: Seq<char>, uname: Seq<char>, proto: Seq<char>) -> Seq<
    Seq<char>,
> {
    let base = "https://"@ + domain + "/users/"@ + uname;
    seq![
        base + "/"@ + proto,
        base + "/inbox/"@ + proto,
        base + "/outbox/"@ + proto,
        base + "/followers/"@ + proto,
        base + "/following/"@ + proto,
        base + "/liked/"@ + proto,
        "https://"@ + domain + "/@"@ + uname,
        base + "/"@ + proto + "#main-key"@,
    ]
}

/// The texts of the instance actor's links, in the field order of `UserLinks`.
pub open spec fn instance_link_texts(domain: Seq<char>) -> Seq<Seq<char>> {
    let base = "https://"@ + domain + "/actor"@;
    seq![
        base + "/ap"@,
        base + "/inbox/ap"@,
        base + "/outbox/ap"@,
        base + "/followers/ap"@,
        base + "/following/ap"@,
        base + "/liked/ap"@,
        "https://"@ + domain + ":"@,
        base + "/ap#main-key"@,
    ]
}

/// `a` followed by `b`.
pub fn concat2(a: &str, b: &str) -> (s: String)
    ensures
        s@ == a@ + b@,
{
    let mut s = String::from_str(a);
    s.append(b);
    s
}

/// `a`, `b`, `c` in sequence.
pub fn concat3(a: &str, b: &str, c: &str) -> (s: String)
    ensures
        s@ == a@ + b@ + c@,
{
    let mut s = String::from_str(a);
    s.append(b);
    s.append(c);
    s
}

/// `a`, `b`, `c`, `d` in sequence.
pub fn concat4(a: &str, b: &str, c: &str, d: &str) -> (s: String)
    ensures
        s@ == a@ + b@ + c@ + d@,
{
    let mut s = concat3(a, b, c);
    s.append(d);
    s
}

/// Parses every text and keeps the serialisations, or `None` when one fails.
fn parse_links(texts: &Vec<String>) -> (r: Option<UserLinks>)
    requires
        texts@.len() == 8,
    ensures
        match r {
            Some(links) => all_parse(texts.deep_view()) && links.view() == serializations(
                texts.deep_view(),
            ),
            None => !all_parse(texts.deep_view()),
        },
{
    let ghost tv = texts.deep_view();
    let mut out: Vec<String> = Vec::new();
    for i in 0..8
        invariant
            texts@.len() == 8,
            tv == texts.deep_view(),
            out@.len() == i,
            forall|j: int| 0 <= j < i ==> (#[trigger] url_parts_spec(tv[j])) is Some,
            forall|j: int| 0 <= j < i ==> #[trigger] out@[j]@ == url_serialization(tv[j]),
    {
        match parse_url(texts[i].as_str()) {
            Some(p) => {
                out.push(p.serialization);
            },
            None => {
                assert(url_parts_spec(tv[i as int]) is None);
                return None;
            },
        }
    }
    let links = UserLinks {
        id: out[0].clone(),
        inbox: out[1].clone(),
        outbox: out[2].clone(),
        followers: out[3].clone(),
        following: out[4].clone(),
        liked: out[5].clone(),
        url: out[6].clone(),
        pub_key_id: out[7].clone(),
    };
    assert(links.view() =~= serializations(tv));
    Some(links)
}

/// The texts of a user's links under a protocol suffix.
fn user_link_text_vec(domain: &str, uname: &str, proto: &str) -> (v: Vec<String>)
    ensures
        v.deep_view() == user_link_texts(domain@, uname@, proto@),
{
    let base = concat4("https://", domain, "/users/", uname);
    let mut v: Vec<String> = Vec::new();
    v.push(concat3(base.as_str(), "/", proto));
    v.push(concat3(base.as_str(), "/inbox/", proto));
    v.push(concat3(base.as_str(), "/outbox/", proto));
    v.push(concat3(base.as_str(), "/followers/", proto));
    v.push(concat3(base.as_str(), "/following/", proto));
    v.push(concat3(base.as_str(), "/liked/", proto));
    v.push(concat4("https://", domain, "/@", uname));
    v.push(concat4(base.as_str(), "/", proto, "#main-key"));
    assert(v.deep_view() =~= user_link_texts(domain@, uname@, proto@));
    v
}

/// The texts of the instance actor's links.
fn instance_link_text_vec(domain: &str) -> (v: Vec<String>)
    ensures
        v.deep_view() == instance_link_texts(domain@),
{
    let base = concat3("https://", domain, "/actor");
    let mut v: Vec<String> = Vec::new();
    v.push(concat2(base.as_str(), "/ap"));
    v.push(concat2(base.as_str(), "/inbox/ap"));
    v.push(concat2(base.as_str(), "/outbox/ap"));
    v.push(concat2(base.as_str(), "/followers/ap"));
    v.push(concat2(base.as_str(), "/following/ap"));
    v.push(concat2(base.as_str(), "/liked/ap"));
    v.push(concat3("https://", domain, ":"));
    v.push(concat2(base.as_str(), "/ap#main-key"));
    assert(v.deep_view() =~= instance_link_texts(domain@));
    v
}

/// The ActivityPub links of a local user. Every link must be a valid URL.
pub fn generate_ap_links(domain: &str, uname: &str) -> (links: UserLinks)
    requires
        all_parse(user_link_texts(domain@, uname@, "ap"@)),
    ensures
        links.view() == serializations(user_link_texts(domain@, uname@, "ap"@)),
{
    let texts = user_link_text_vec(domain, uname, "ap");
    match parse_links(&texts) {
        Some(links) => links,
        None => vstd::pervasive::unreached(),
    }
}

/// The ActivityPub links of a local user, or `None` when one of them is not a valid URL.
pub fn try_generate_ap_links(domain: &str, uname: &str) -> (r: Option<UserLinks>)
    ensures
        match r {
            Some(links) => all_parse(user_link_texts(domain@, uname@, "ap"@)) && links.view()
                == serializations(user_link_texts(domain@, uname@, "ap"@)),
            None => !all_parse(user_link_texts(domain@, uname@, "ap"@)),
        },
{
    let texts = user_link_text_vec(domain, uname, "ap");
    match parse_links(&texts) {
        Some(_) => Some(generate_ap_links(domain, uname)),
        None => None,
    }
}

/// The Versia links of a local user. Every link must be a valid URL.
pub fn generate_versia_links(domain: &str, uname: &str) -> (links: UserLinks)
    requires
        all_parse(user_link_texts(domain@, uname@, "versia"@)),
    ensures
        links.view() == serializations(user_link_texts(domain@, uname@, "versia"@)),
{
    let texts = user_link_text_vec(domain, uname, "versia");
    match parse_links(&texts) {
        Some(links) => links,
        None => vstd::pervasive::unreached(),
    }
}

/// The Versia links of a local user, or `None` when one of them is not a valid URL.
pub fn try_generate_versia_links(domain: &str, uname: &str) -> (r: Option<UserLinks>)
    ensures
        match r {
            Some(links) => all_parse(user_link_texts(domain@, uname@, "versia"@)) && links.view()
                == serializations(user_link_texts(domain@, uname@, "versia"@)),
            None => !all_parse(user_link_texts(domain@, uname@, "versia"@)),
        },
{
    let texts = user_link_text_vec(domain, uname, "versia");
    match parse_links(&texts) {
        Some(_) => Some(generate_versia_links(domain, uname)),
        None => None,
    }
}

/// The links of the instance actor. Every link must be a valid URL.
pub fn instance_actor_links(domain: &str) -> (links: UserLinks)
    requires
        all_parse(instance_link_texts(domain@)),
    ensures
        links.view() == serializations(instance_link_texts(domain@)),
{
    let texts = instance_link_text_vec(domain);
    match parse_links(&texts) {
        Some(links) => links,
        None => vstd::pervasive::unreached(),
    }
}

/// The links of the instance actor, or `None` when one of them is not a valid URL.
pub fn try_instance_actor_links(domain: &str) -> (r: Option<UserLinks>)
    ensures
        match r {
            Some(links) => all_parse(instance_link_texts(domain@)) && links.view()
                == serializations(instance_link_texts(domain@)),
            None => !all_parse(instance_link_texts(domain@)),
        },
{
    let texts = instance_link_text_vec(domain);
    match parse_links(&texts) {
        Some(_) => Some(instance_actor_links(domain)),
        None => None,
    }
}


/// Every link of a user's link set but the profile page ends with `/` and the
/// protocol asked for, after the link's own name (`inbox`, `outbox`,
/// `followers`, `following`, `liked`) under the user's id; the key id is the
/// actor id with `#main-key`; the profile page is `https://{domain}/@{uname}`.
/// So the links of two protocols differ only in that suffix.
pub proof fn law_user_links_carry_protocol(domain: Seq<char>, uname: Seq<char>, p: Seq<char>, q: Seq<char>)
    ensures
        ({
            let base = "https://"@ + domain + "/users/"@ + uname;
            let names = seq!["inbox"@, "outbox"@, "followers"@, "following"@, "liked"@];
            let lp = user_link_texts(domain, uname, p);
            let lq = user_link_texts(domain, uname, q);
            &&& lp.len() == 8
            &&& lp[0] == base + "/"@ + p
            &&& forall|i: int| 1 <= i < 6 ==> #[trigger] lp[i] == base + "/"@ + names[i - 1] + "/"@ + p
            &&& forall|i: int| 0 <= i < 6 ==> ("/"@ + p).is_suffix_of(#[trigger] lp[i])
            &&& forall|i: int| 0 <= i < 6 ==> #[trigger] lp[i].take(lp[i].len() - p.len())
                == lq[i].take(lq[i].len() - q.len())
            &&& lp[6] == "https://"@ + domain + "/@"@ + uname
            &&& lp[7] == lp[0] + "#main-key"@
        }),
{
    reveal_strlit("/");
    reveal_strlit("/inbox/");
    reveal_strlit("inbox");
    reveal_strlit("/outbox/");
    reveal_strlit("outbox");
    reveal_strlit("/followers/");
    reveal_strlit("followers");
    reveal_strlit("/following/");
    reveal_strlit("following");
    reveal_strlit("/liked/");
    reveal_strlit("liked");
    let base = "https://"@ + domain + "/users/"@ + uname;
    let names = seq!["inbox"@, "outbox"@, "followers"@, "following"@, "liked"@];
    let segs = seq!["/"@, "/inbox/"@, "/outbox/"@, "/followers/"@, "/following/"@, "/liked/"@];
    let lp = user_link_texts(domain, uname, p);
    let lq = user_link_texts(domain, uname, q);
    assert forall|i: int| 0 <= i < 6 implies #[trigger] lp[i] == base + segs[i] + p && lq[i] == base
        + segs[i] + q by {
        assert(lp[i] == base + segs[i] + p);
        assert(lq[i] == base + segs[i] + q);
    }
    assert forall|i: int| 1 <= i < 6 implies #[trigger] lp[i] == base + "/"@ + names[i - 1] + "/"@ + p by {
        assert(segs[i] =~= "/"@ + names[i - 1] + "/"@);
        assert(base + segs[i] + p =~= base + "/"@ + names[i - 1] + "/"@ + p);
    }
    assert forall|i: int| 0 <= i < 6 implies ("/"@ + p).is_suffix_of(#[trigger] lp[i]) by {
        let t = lp[i];
        let pre = base + segs[i].take(segs[i].len() - 1);
        assert(t =~= pre + ("/"@ + p));
        assert(t.subrange(t.len() - ("/"@ + p).len(), t.len() as int) =~= "/"@ + p);
    }
    assert forall|i: int| 0 <= i < 6 implies #[trigger] lp[i].take(lp[i].len() - p.len()) == lq[i].take(
        lq[i].len() - q.len(),
    ) by {
        assert(lp[i].take(lp[i].len() - p.len()) =~= base + segs[i]);
        assert(lq[i].take(lq[i].len() - q.len()) =~= base + segs[i]);
    }
    assert(lp[7] =~= lp[0] + "#main-key"@);
}


/// The instance actor's links sit under `https://{domain}/actor`: its id ends
/// in `/ap`, each other link is the link's own name followed by `/ap`, and its
/// key id is the id with `#main-key`.
pub proof fn law_instance_links_under_actor(domain: Seq<char>)
    ensures
        ({
            let base = "https://"@ + domain + "/actor"@;
            let names = seq!["inbox"@, "outbox"@, "followers"@, "following"@, "liked"@];
            let l = instance_link_texts(domain);
            &&& l.len() == 8
            &&& l[0] == base + "/ap"@
            &&& forall|i: int| 1 <= i < 6 ==> #[trigger] l[i] == base + "/"@ + names[i - 1] + "/ap"@
            &&& l[7] == l[0] + "#main-key"@
        }),
{
    reveal_strlit("/ap");
    reveal_strlit("/inbox/ap");
    reveal_strlit("inbox");
    reveal_strlit("/outbox/ap");
    reveal_strlit("outbox");
    reveal_strlit("/followers/ap");
    reveal_strlit("followers");
    reveal_strlit("/following/ap");
    reveal_strlit("following");
    reveal_strlit("/liked/ap");
    reveal_strlit("liked");
    reveal_strlit("/ap#main-key");
    reveal_strlit("#main-key");
    reveal_strlit("/");
    let base = "https://"@ + domain + "/actor"@;
    let names = seq!["inbox"@, "outbox"@, "followers"@, "following"@, "liked"@];
    let segs = seq!["/inbox/ap"@, "/outbox/ap"@, "/followers/ap"@, "/following/ap"@, "/liked/ap"@];
    let l = instance_link_texts(domain);
    assert forall|i: int| 1 <= i < 6 implies #[trigger] l[i] == base + "/"@ + names[i - 1] + "/ap"@ by {
        assert(l[i] == base + segs[i - 1]);
        assert(segs[i - 1] =~= "/"@ + names[i - 1] + "/ap"@);
        assert(base + segs[i - 1] =~= base + "/"@ + names[i - 1] + "/ap"@);
    }
    assert("/ap#main-key"@ =~= "/ap"@ + "#main-key"@);
    assert(l[7] =~= l[0] + "#main-key"@);
}

} // verus!
