//! Paths and identifiers that the request handlers build, and the small
//! decisions they make before touching the database.
use vstd::prelude::*;

use crate::text;
use crate::text::{i64_to_decimal, strip_prefix};
use crate::object::{Object, ObjectType, ObjectWrapper, PostType};
use crate::urls;
use crate::urls::{concat3, concat4, parse_url};

verus! {

/// The `page` query parameter of a paged collection.
pub struct Page {
    pub page: u64,
}

/// The page a collection request asks for: the first page when none is
/// given; page 0 does not exist (`None`, answered with 404).
pub fn requested_page(page: Option<Page>) -> (r: Option<u64>)
    ensures
        r == match page {
            None => Some(1u64),
            Some(p) => if p.page == 0 {
                None
            } else {
                Some(p.page)
            },
        },
{
    let page = match page {
        Some(x) => x.page,
        None => 1,
    };
    if page == 0 {
        return None;
    }
    Some(page)
}

/// The prefix of the ids of local users.
pub open spec fn local_users_prefix(instance_domain: Seq<char>) -> Seq<char> {
    "https://"@ + instance_domain + "/users/"@
}

/// The local user a follow is addressed to: what follows the local users'
/// prefix in the followed object's id, or `None` when the id is not a local
/// user's (the follow is then dropped).
pub fn follow_target(object_id: &str, instance_domain: &str) -> (r: Option<String>)
    ensures
        match r {
            Some(u) => local_users_prefix(instance_domain@).is_prefix_of(object_id@) && u@
                == object_id@.skip(local_users_prefix(instance_domain@).len() as int),
            None => !local_users_prefix(instance_domain@).is_prefix_of(object_id@),
        },
{
    let prefix = concat3("https://", instance_domain, "/users/");
    strip_prefix(object_id, prefix.as_str())
}

/// The steps of handling an incoming follow: each asks the database one
/// thing, until the follow is recorded or dropped.
pub enum FollowStep {
    /// look up the stored id of the sender (the first step)
    FindSender,
    /// the sender is not stored yet: fetch and store it, giving its new id
    LoadSender,
    /// look up the id of the followed local user by name
    FindLocalUser { from: i64, username: String },
    /// record a follow request from `from` to `to`; handling ends
    CreateFollowRequest { from: i64, to: i64 },
    /// drop the follow; handling ends
    Drop,
}

/// The step once the sender's id `from` is known: the followed object must be
/// a local user's id, else the follow is dropped.
pub open spec fn after_sender(r: FollowStep, from: i64, object_id: Seq<char>, instance_domain: Seq<char>) -> bool {
    if local_users_prefix(instance_domain).is_prefix_of(object_id) {
        r matches FollowStep::FindLocalUser { from: f, username: u } && f == from && u@
            == object_id.skip(local_users_prefix(instance_domain).len() as int)
    } else {
        r is Drop
    }
}

/// The step after `step`, given the database's answer to it (an id, or
/// `None` when nothing was found or storing the sender failed), for a follow
/// of the object `object_id` arriving at `instance_domain`.
pub fn follow_next(step: &FollowStep, answer: Option<i64>, object_id: &str, instance_domain: &str) -> (r:
    FollowStep)
    requires
        !(step is CreateFollowRequest || step is Drop),
    ensures
        match step {
            FollowStep::FindSender => match answer {
                None => r is LoadSender,
                Some(from) => after_sender(r, from, object_id@, instance_domain@),
            },
            FollowStep::LoadSender => match answer {
                None => r is Drop,
                Some(from) => after_sender(r, from, object_id@, instance_domain@),
            },
            FollowStep::FindLocalUser { from, .. } => match answer {
                None => r is Drop,
                Some(to) => r == FollowStep::CreateFollowRequest { from: *from, to },
            },
            _ => false,
        },
{
    match step {
        FollowStep::FindSender | FollowStep::LoadSender => match answer {
            None => match step {
                FollowStep::FindSender => FollowStep::LoadSender,
                _ => FollowStep::Drop,
            },
            Some(from) => match follow_target(object_id, instance_domain) {
                Some(username) => FollowStep::FindLocalUser { from, username },
                None => FollowStep::Drop,
            },
        },
        FollowStep::FindLocalUser { from, .. } => match answer {
            None => FollowStep::Drop,
            Some(to) => FollowStep::CreateFollowRequest { from: *from, to },
        },
        _ => vstd::pervasive::unreached(),
    }
}

/// Who an incoming document is attributed to: the actor of an activity,
/// else the author of an object.
pub fn document_owner(actor: Option<String>, attributed_to: Option<String>) -> (r: Option<String>)
    ensures
        r == match actor {
            Some(a) => Some(a),
            None => attributed_to,
        },
{
    match actor {
        Some(a) => Some(a),
        None => attributed_to,
    }
}

/// The ActivityPub path of a status.
pub open spec fn status_path_spec(user: Seq<char>, id: Seq<char>) -> Seq<char> {
    "/ap/users/"@ + user + "/statuses/"@ + id
}

/// The ActivityPub path of a status: `/ap/users/{user}/statuses/{id}`.
pub fn status_path(user: &str, id: &str) -> (s: String)
    ensures
        s@ == status_path_spec(user@, id@),
{
    concat4("/ap/users/", user, "/statuses/", id)
}

/// The ActivityPub path of the activity that created a status:
/// `/ap/users/{user}/statuses/{id}/activity`.
pub fn status_activity_path(user: &str, id: &str) -> (s: String)
    ensures
        s@ == status_path_spec(user@, id@) + "/activity"@,
{
    let mut s = status_path(user, id);
    s.append("/activity");
    s
}

/// The ActivityPub path of a user's outbox: `/ap/users/{user}/outbox`.
pub fn outbox_path(user: &str) -> (s: String)
    ensures
        s@ == "/ap/users/"@ + user@ + "/outbox"@,
{
    concat3("/ap/users/", user, "/outbox")
}

/// The ActivityPub path of a user's inbox: `/ap/users/{user}/inbox`.
pub fn private_inbox_path(user: &str) -> (s: String)
    ensures
        s@ == "/ap/users/"@ + user@ + "/inbox"@,
{
    concat3("/ap/users/", user, "/inbox")
}

/// The Versia path of a user's outbox: `/users/{uuid}/outbox/versia`.
pub fn versia_outbox_path(uuid: &str) -> (s: String)
    ensures
        s@ == "/users/"@ + uuid@ + "/outbox/versia"@,
{
    concat3("/users/", uuid, "/outbox/versia")
}

/// The Versia path of a post: `/users/@{user}/statuses/{post}/versia`.
pub fn versia_post_path(user: &str, post: &str) -> (s: String)
    ensures
        s@ == "/users/@"@ + user@ + "/statuses/"@ + post@ + "/versia"@,
{
    let mut s = concat4("/users/@", user, "/statuses/", post);
    s.append("/versia");
    s
}

/// The id of an activity served at `path` on the instance: `https://{domain}{path}`.
pub fn instance_url_text(instance_domain: &str, path: &str) -> (s: String)
    ensures
        s@ == "https://"@ + instance_domain@ + path@,
{
    concat3("https://", instance_domain, path)
}

/// The id of a local user: `https://{domain}/users/{user}`.
pub open spec fn local_user_id_spec(domain: Seq<char>, user: Seq<char>) -> Seq<char> {
    "https://"@ + domain + "/users/"@ + user
}

/// The id of a local user and the id of one of their statuses, numbered
/// `object_id` in the database.
pub fn local_post_ids(domain: &str, user: &str, object_id: i64) -> (r: (String, String))
    ensures
        r.0@ == local_user_id_spec(domain@, user@) + "/statuses/"@ + text::decimal_int(
            object_id as int,
        ),
        r.1@ == local_user_id_spec(domain@, user@),
{
    let attributed_to = concat4("https://", domain, "/users/", user);
    let number = i64_to_decimal(object_id);
    let id = concat3(attributed_to.as_str(), "/statuses/", number.as_str());
    (id, attributed_to)
}

/// The id of the status numbered `object_id` of a local user.
pub open spec fn local_post_id_spec(domain: Seq<char>, user: Seq<char>, object_id: i64) -> Seq<char> {
    local_user_id_spec(domain, user) + "/statuses/"@ + text::decimal_int(object_id as int)
}

/// The stored post numbered `object_id` of the local user `preferred_username`
/// on `domain`, an object of type `subtype` with the given content: its id and
/// author are the parsed forms of the texts `local_post_ids` builds. `None`
/// when one of those texts does not parse as a URL.
pub fn local_post_from_row(
    domain: &str,
    preferred_username: &str,
    object_id: i64,
    subtype: ObjectType,
    content: Option<String>,
) -> (r: Option<PostType>)
    ensures
        ({
            let id = local_post_id_spec(domain@, preferred_username@, object_id);
            let author = local_user_id_spec(domain@, preferred_username@);
            if urls::url_parts_spec(id) is Some && urls::url_parts_spec(author) is Some {
                &&& r matches Some(PostType::Object(w))
                &&& r->Some_0->Object_0.type_field == subtype
                &&& r->Some_0->Object_0.object.id@ == urls::url_serialization(id)
                &&& r->Some_0->Object_0.object.attributed_to@ == urls::url_serialization(author)
                &&& r->Some_0->Object_0.object.content == content
                &&& r->Some_0->Object_0.object.name is None
                &&& r->Some_0->Object_0.object.media_type is None
                &&& r->Some_0->Object_0.object.in_reply_to is None
                &&& r->Some_0->Object_0.object.published is None
                &&& r->Some_0->Object_0.object.summary is None
                &&& r->Some_0->Object_0.object.ids_are_urls()
            } else {
                r is None
            }
        }),
{
    let (id, attributed_to) = local_post_ids(domain, preferred_username, object_id);
    let attributed_to = match parse_url(attributed_to.as_str()) {
        Some(u) => u,
        None => return None,
    };
    let id = match parse_url(id.as_str()) {
        Some(u) => u,
        None => return None,
    };
    let object = Object {
        id: id.serialization,
        attributed_to: attributed_to.serialization,
        name: None,
        content,
        media_type: None,
        in_reply_to: None,
        published: None,
        summary: None,
    };
    Some(PostType::Object(ObjectWrapper { type_field: subtype, object }))
}


/// The id of a local user is the local users' prefix followed by the user name
/// unchanged, so a follow of that id targets that very user; a post's id is the
/// author's id followed by `/statuses/`.
pub proof fn law_local_ids_name_the_user(domain: Seq<char>, user: Seq<char>, object_id: i64)
    ensures
        local_users_prefix(domain).is_prefix_of(local_user_id_spec(domain, user)),
        local_user_id_spec(domain, user).skip(local_users_prefix(domain).len() as int) == user,
        (local_user_id_spec(domain, user) + "/statuses/"@).is_prefix_of(
            local_post_id_spec(domain, user, object_id),
        ),
{
    let pre = local_users_prefix(domain);
    let id = local_user_id_spec(domain, user);
    assert(id =~= pre + user);
    assert(id.subrange(0, pre.len() as int) =~= pre);
    assert(id.skip(pre.len() as int) =~= user);
    let head = id + "/statuses/"@;
    let post = local_post_id_spec(domain, user, object_id);
    assert(post =~= head + text::decimal_int(object_id as int));
    assert(post.subrange(0, head.len() as int) =~= head);
}

} // verus!
