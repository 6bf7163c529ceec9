//! Actors: the accounts of the instance and of other servers.
use vstd::prelude::*;

use crate::keys;
use crate::text;
use crate::text::eq_ignore_ascii_case;
use crate::urls;
use crate::urls::{concat3, parse_url, UserLinks};

verus! {

/// The ActivityStreams actor types.
#[derive(Debug, Clone, Copy, PartialEq, Eq, Structural)]
pub enum ActorType {
    /// Describes a software application.
    Application,
    /// Represents a formal or informal collective of Actors.
    Group,
    /// Represents an organization.
    Organization,
    /// Represents an individual person.
    Person,
    /// Represents a service of any kind.
    Service,
}

/// The public key of an actor, as published with it.
pub struct PublicKey {
    pub id: String,
    pub owner: String,
    pub public_key_pem: String,
}

/// An actor, with its links as URL serialisations.
pub struct Actor {
    pub type_field: ActorType,
    pub id: String,
    pub preferred_username: String,
    pub summary: Option<String>,
    pub name: Option<String>,
    pub url: Option<String>,
    pub public_key: PublicKey,
    pub inbox: String,
    pub outbox: String,
    pub followers: String,
    pub following: String,
    pub versia_url: Option<String>,
    pub domain: Option<String>,
    pub liked: Option<String>,
}

/// The keys of the instance actor, which signs the instance's own requests.
pub struct InstanceActor {
    pub private_key_pem: String,
    pub public_key_pem: String,
}

/// The id of the instance actor's key.
pub open spec fn instance_key_id(domain: Seq<char>) -> Seq<char> {
    "https://"@ + domain + "/actor/ap#main-key"@
}

/// The page describing the instance actor.
pub open spec fn instance_about_text(domain: Seq<char>) -> Seq<char> {
    "https://"@ + domain + "/about/more?instance_actor=true"@
}

/// All URLs that the instance actor of `domain` is made of parse.
pub open spec fn instance_actor_urls_parse(domain: Seq<char>) -> bool {
    urls::all_parse(urls::instance_link_texts(domain)) && urls::url_parts_spec(
        instance_about_text(domain),
    ) is Some
}

/// An actor whose links, in the field order of `UserLinks`, are `links`.
pub open spec fn has_links(a: Actor, links: Seq<Seq<char>>) -> bool {
    &&& a.id@ == links[0]
    &&& a.inbox@ == links[1]
    &&& a.outbox@ == links[2]
    &&& a.followers@ == links[3]
    &&& a.following@ == links[4]
    &&& a.liked.deep_view() == Some(links[5])
    &&& a.public_key.id@ == links[7]
    &&& a.public_key.owner@ == links[0]
}

/// `a` is the instance actor of `domain` with the public key `public_key_pem`:
/// an application named after the domain, with the instance actor's links.
pub open spec fn is_instance_actor_document(a: Actor, public_key_pem: Seq<char>, domain: Seq<char>) -> bool {
    &&& a.type_field == ActorType::Application
    &&& a.preferred_username@ == domain
    &&& a.summary is None
    &&& a.name is None
    &&& a.url.deep_view() == Some(urls::url_serialization(instance_about_text(domain)))
    &&& has_links(a, urls::serializations(urls::instance_link_texts(domain)))
    &&& a.public_key.public_key_pem@ == public_key_pem
    &&& a.versia_url is None
    &&& a.domain.deep_view() == Some(domain)
}

/// `a` is the actor of the local user `preferred_username` on `domain`, with
/// the given summary, display name and public key: a person with the user's
/// ActivityPub links.
pub open spec fn is_local_user_document(
    a: Actor,
    preferred_username: Seq<char>,
    summary: Option<String>,
    display_name: Option<String>,
    public_key_pem: String,
    domain: Seq<char>,
) -> bool {
    let links = urls::serializations(urls::user_link_texts(domain, preferred_username, "ap"@));
    &&& a.type_field == ActorType::Person
    &&& a.preferred_username@ == preferred_username
    &&& a.summary == summary
    &&& a.name == display_name
    &&& has_links(a, links)
    &&& a.url.deep_view() == Some(links[6])
    &&& a.public_key.public_key_pem == public_key_pem
    &&& a.versia_url is None
    &&& a.domain.deep_view() == Some(domain)
}

impl InstanceActor {
    /// A new instance actor with a fresh RSA key pair, with which it signs
    /// its fetches; the public key is the public half of the private key.
    pub fn generate() -> (a: InstanceActor)
        ensures
            keys::openssl_pem_is_rsa(a.private_key_pem@),
            a.public_key_pem@ == keys::openssl_public_pem_spec(a.private_key_pem@),
    {
        let (private_key_pem, public_key_pem) = keys::generate_openssl_rsa_pems();
        InstanceActor { private_key_pem, public_key_pem }
    }

    /// The id of the instance actor's key on `domain`.
    pub fn pub_key_id(domain: &str) -> (s: String)
        ensures
            s@ == instance_key_id(domain@),
    {
        concat3("https://", domain, "/actor/ap#main-key")
    }

    /// The instance actor of `domain`, an application named after the domain.
    /// All its URLs must parse.
    pub fn to_actor(&self, domain: &str) -> (a: Actor)
        requires
            instance_actor_urls_parse(domain@),
        ensures
            is_instance_actor_document(a, self.public_key_pem@, domain@),
    {
        let links = urls::instance_actor_links(domain);
        let about = concat3("https://", domain, "/about/more?instance_actor=true");
        let url = match parse_url(about.as_str()) {
            Some(p) => p.serialization,
            None => vstd::pervasive::unreached(),
        };
        let id = links.id.clone();
        Actor {
            type_field: ActorType::Application,
            id: links.id,
            preferred_username: String::from_str(domain),
            summary: None,
            name: None,
            url: Some(url),
            public_key: PublicKey {
                id: links.pub_key_id,
                owner: id,
                public_key_pem: self.public_key_pem.clone(),
            },
            inbox: links.inbox,
            outbox: links.outbox,
            followers: links.followers,
            following: links.following,
            versia_url: None,
            domain: Some(String::from_str(domain)),
            liked: Some(links.liked),
        }
    }

    /// The instance actor of `domain`, or `None` when one of its URLs does not parse.
    pub fn try_to_actor(&self, domain: &str) -> (r: Option<Actor>)
        ensures
            r is Some <==> instance_actor_urls_parse(domain@),
            r matches Some(a) ==> is_instance_actor_document(a, self.public_key_pem@, domain@),
    {
        let about = concat3("https://", domain, "/about/more?instance_actor=true");
        if parse_url(about.as_str()).is_none() {
            return None;
        }
        match urls::try_instance_actor_links(domain) {
            Some(_) => Some(self.to_actor(domain)),
            None => None,
        }
    }
}

/// The actor of a local user from its stored fields; its links are the
/// user's ActivityPub links, which must all parse.
pub fn local_user_actor(
    preferred_username: &str,
    summary: Option<String>,
    display_name: Option<String>,
    public_key_pem: String,
    instance_domain: &str,
) -> (a: Actor)
    requires
        urls::all_parse(urls::user_link_texts(instance_domain@, preferred_username@, "ap"@)),
    ensures
        is_local_user_document(
            a,
            preferred_username@,
            summary,
            display_name,
            public_key_pem,
            instance_domain@,
        ),
{
    let links: UserLinks = urls::generate_ap_links(instance_domain, preferred_username);
    let id = links.id.clone();
    Actor {
        type_field: ActorType::Person,
        id: links.id,
        preferred_username: String::from_str(preferred_username),
        summary,
        name: display_name,
        url: Some(links.url),
        public_key: PublicKey { id: links.pub_key_id, owner: id, public_key_pem },
        inbox: links.inbox,
        outbox: links.outbox,
        followers: links.followers,
        following: links.following,
        versia_url: None,
        domain: Some(String::from_str(instance_domain)),
        liked: Some(links.liked),
    }
}

/// The actor of a local user, or `None` when one of its links does not parse.
pub fn try_local_user_actor(
    preferred_username: &str,
    summary: Option<String>,
    display_name: Option<String>,
    public_key_pem: String,
    instance_domain: &str,
) -> (r: Option<Actor>)
    ensures
        r is Some <==> urls::all_parse(
            urls::user_link_texts(instance_domain@, preferred_username@, "ap"@),
        ),
        r matches Some(a) ==> is_local_user_document(
            a,
            preferred_username@,
            summary,
            display_name,
            public_key_pem,
            instance_domain@,
        ),
{
    match urls::try_generate_ap_links(instance_domain, preferred_username) {
        Some(_) => Some(
            local_user_actor(
                preferred_username,
                summary,
                display_name,
                public_key_pem,
                instance_domain,
            ),
        ),
        None => None,
    }
}

/// Actor types of the earlier actor representation.
#[derive(Debug, Clone, Copy, PartialEq, Eq, Structural)]
pub enum OldActorType {
    Person,
    Other,
}

impl From<String> for OldActorType {
    fn from(value: String) -> (r: Self) {
        if eq_ignore_ascii_case(value.as_str(), "Person") {
            return OldActorType::Person;
        }
        OldActorType::Other
    }
}

impl vstd::std_specs::convert::FromSpecImpl<String> for OldActorType {
    open spec fn obeys_from_spec() -> bool {
        true
    }

    /// `Person` (in any ASCII case) is a person, anything else is another kind of actor.
    open spec fn from_spec(value: String) -> Self {
        if text::eq_ignore_ascii_case_spec(value@, "Person"@) {
            OldActorType::Person
        } else {
            OldActorType::Other
        }
    }
}

/// An actor as the database returns it.
pub struct DatabaseActor {
    pub ap_user_id: i64,
    pub type_field: OldActorType,
    pub id: String,
    pub name: Option<String>,
    pub preferred_username: String,
    pub domain: String,
    pub summary: String,
    pub inbox: String,
    pub outbox: String,
    pub followers: String,
    pub following: String,
    pub liked: Option<String>,
    pub public_key: PublicKey,
}

/// An actor in the earlier representation, with its JSON-LD context.
pub struct OldActor {
    pub database_id: i64,
    pub context: Vec<String>,
    pub id: String,
    pub type_field: OldActorType,
    pub name: Option<String>,
    pub preferred_username: String,
    pub domain: String,
    pub summary: String,
    pub inbox: String,
    pub outbox: String,
    pub followers: String,
    pub following: String,
    pub liked: Option<String>,
    pub public_key: PublicKey,
}

impl OldActor {
    /// The actor of a database row, with the ActivityStreams and security
    /// contexts (what converting a `DatabaseActor` into an `OldActor` gives).
    pub fn from_database_actor(value: DatabaseActor) -> (a: OldActor)
        ensures
            a.database_id == value.ap_user_id,
            a.context.deep_view() == seq![
                "https://www.w3.org/ns/activitystreams"@,
                "https://w3id.org/security/v1"@,
            ],
            a.type_field == value.type_field,
            a.id == value.id,
            a.name == value.name,
            a.preferred_username == value.preferred_username,
            a.domain == value.domain,
            a.summary == value.summary,
            a.inbox == value.inbox,
            a.outbox == value.outbox,
            a.followers == value.followers,
            a.following == value.following,
            a.liked == value.liked,
            a.public_key == value.public_key,
    {
        let mut context: Vec<String> = Vec::new();
        context.push(String::from_str("https://www.w3.org/ns/activitystreams"));
        context.push(String::from_str("https://w3id.org/security/v1"));
        assert(context.deep_view() =~= seq![
            "https://www.w3.org/ns/activitystreams"@,
            "https://w3id.org/security/v1"@,
        ]);
        OldActor {
            database_id: value.ap_user_id,
            context,
            type_field: value.type_field,
            id: value.id,
            name: value.name,
            preferred_username: value.preferred_username,
            domain: value.domain,
            summary: value.summary,
            inbox: value.inbox,
            outbox: value.outbox,
            followers: value.followers,
            following: value.following,
            liked: value.liked,
            public_key: value.public_key,
        }
    }
}

} // verus!
