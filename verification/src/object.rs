//! Posts stored by the instance: ActivityStreams objects and questions.
use vstd::prelude::*;

use crate::urls;

verus! {

/// The ActivityStreams object types.
#[derive(Debug, Clone, Copy, PartialEq, Eq, Structural)]
pub enum ObjectType {
    Object,
    Relationship,
    /// Represents any kind of multi-paragraph written work.
    Article,
    /// Represents a short written work typically less than a single paragraph in length.
    Note,
    Document,
    Audio,
    Image,
    Video,
    Page,
    Event,
    Place,
    Profile,
    /// A Tombstone represents a content object that has been deleted.
    Tombstone,
}

/// The media type of an object's content.
#[derive(Debug, Clone, Copy, PartialEq, Eq, Structural)]
pub enum MediaType {
    Html,
    Markdown,
}

/// The parts of an ActivityStreams object that the instance stores.
pub struct Object {
    pub id: String,
    pub attributed_to: String,
    pub name: Option<String>,
    pub content: Option<String>,
    pub media_type: Option<MediaType>,
    pub in_reply_to: Option<String>,
    pub published: Option<String>,
    pub summary: Option<String>,
}

impl Object {
    /// The id and the author are URL serialisations: each is what parsing
    /// some text as a URL gives.
    pub open spec fn ids_are_urls(&self) -> bool {
        &&& exists|t: Seq<char>|
            (#[trigger] urls::url_parts_spec(t)) is Some && urls::url_serialization(t) == self.id@
        &&& exists|t: Seq<char>|
            (#[trigger] urls::url_parts_spec(t)) is Some && urls::url_serialization(t)
                == self.attributed_to@
    }
}

/// An object together with its type.
pub struct ObjectWrapper {
    pub type_field: ObjectType,
    pub object: Object,
}

/// The type of a question.
#[derive(Debug, Clone, Copy, PartialEq, Eq, Structural)]
pub enum QuestionType {
    Question,
}

/// A question (poll).
pub struct Question {
    pub type_field: QuestionType,
    pub id: String,
}

/// The two kinds of stored posts.
#[derive(Debug, Clone, Copy, PartialEq, Eq, Structural)]
pub enum PostSupertype {
    Object,
    Question,
}

/// A concrete post to be stored in the database: an object or a question,
/// each with its own subtype.
pub enum PostType {
    Object(ObjectWrapper),
    Question(Question),
}

/// The JSON text of an object type (its variant name in quotes).
pub open spec fn object_type_json(t: ObjectType) -> Seq<char> {
    match t {
        ObjectType::Object => "\"Object\""@,
        ObjectType::Relationship => "\"Relationship\""@,
        ObjectType::Article => "\"Article\""@,
        ObjectType::Note => "\"Note\""@,
        ObjectType::Document => "\"Document\""@,
        ObjectType::Audio => "\"Audio\""@,
        ObjectType::Image => "\"Image\""@,
        ObjectType::Video => "\"Video\""@,
        ObjectType::Page => "\"Page\""@,
        ObjectType::Event => "\"Event\""@,
        ObjectType::Place => "\"Place\""@,
        ObjectType::Profile => "\"Profile\""@,
        ObjectType::Tombstone => "\"Tombstone\""@,
    }
}

/// The JSON text of a post's kind.
pub open spec fn supertype_json(p: PostSupertype) -> Seq<char> {
    match p {
        PostSupertype::Object => "\"Object\""@,
        PostSupertype::Question => "\"Question\""@,
    }
}

/// The JSON text of an object type.
pub fn object_type_to_json(t: ObjectType) -> (s: String)
    ensures
        s@ == object_type_json(t),
{
    let text = match t {
        ObjectType::Object => "\"Object\"",
        ObjectType::Relationship => "\"Relationship\"",
        ObjectType::Article => "\"Article\"",
        ObjectType::Note => "\"Note\"",
        ObjectType::Document => "\"Document\"",
        ObjectType::Audio => "\"Audio\"",
        ObjectType::Image => "\"Image\"",
        ObjectType::Video => "\"Video\"",
        ObjectType::Page => "\"Page\"",
        ObjectType::Event => "\"Event\"",
        ObjectType::Place => "\"Place\"",
        ObjectType::Profile => "\"Profile\"",
        ObjectType::Tombstone => "\"Tombstone\"",
    };
    String::from_str(text)
}

impl PostType {
    /// The kind of the post.
    pub open spec fn supertype(&self) -> PostSupertype {
        match self {
            PostType::Object(_) => PostSupertype::Object,
            PostType::Question(_) => PostSupertype::Question,
        }
    }

    /// The JSON text of the post's kind, as stored in the database.
    pub fn get_surtype(&self) -> (s: String)
        ensures
            s@ == supertype_json(self.supertype()),
    {
        match self {
            PostType::Object(_) => String::from_str("\"Object\""),
            PostType::Question(_) => String::from_str("\"Question\""),
        }
    }

    /// The JSON text of the post's subtype, as stored in the database.
    pub fn get_subtype(&self) -> (s: String)
        ensures
            s@ == match self {
                PostType::Object(x) => object_type_json(x.type_field),
                PostType::Question(_) => "\"Question\""@,
            },
    {
        match self {
            PostType::Object(x) => object_type_to_json(x.type_field),
            PostType::Question(_) => String::from_str("\"Question\""),
        }
    }

    /// The publication time of an object post.
    pub fn get_published(&self) -> (p: &Option<String>)
        requires
            self is Object,
        ensures
            p == &self->Object_0.object.published,
    {
        match self {
            PostType::Object(x) => &x.object.published,
            PostType::Question(_) => vstd::pervasive::unreached(),
        }
    }

    /// The id of an object post.
    pub fn get_id(&self) -> (id: &str)
        requires
            self is Object,
        ensures
            id@ == self->Object_0.object.id@,
    {
        match self {
            PostType::Object(x) => x.object.id.as_str(),
            PostType::Question(_) => vstd::pervasive::unreached(),
        }
    }
}

impl PostType {
    /// The name of the post's kind (what converting the post into a `String` gives).
    pub fn kind_name(self) -> (s: String)
        ensures
            s@ == match self {
                PostType::Object(_) => "Object"@,
                PostType::Question(_) => "Question"@,
            },
    {
        match self {
            PostType::Object(_) => String::from_str("Object"),
            PostType::Question(_) => String::from_str("Question"),
        }
    }
}


/// The JSON text of an object type is its variant name between double quotes,
/// so no two object types are stored under the same text.
pub proof fn law_object_type_json_names_variant(a: ObjectType, b: ObjectType)
    ensures
        object_type_json(ObjectType::Object) == "\""@ + "Object"@ + "\""@,
        object_type_json(ObjectType::Relationship) == "\""@ + "Relationship"@ + "\""@,
        object_type_json(ObjectType::Article) == "\""@ + "Article"@ + "\""@,
        object_type_json(ObjectType::Note) == "\""@ + "Note"@ + "\""@,
        object_type_json(ObjectType::Document) == "\""@ + "Document"@ + "\""@,
        object_type_json(ObjectType::Audio) == "\""@ + "Audio"@ + "\""@,
        object_type_json(ObjectType::Image) == "\""@ + "Image"@ + "\""@,
        object_type_json(ObjectType::Video) == "\""@ + "Video"@ + "\""@,
        object_type_json(ObjectType::Page) == "\""@ + "Page"@ + "\""@,
        object_type_json(ObjectType::Event) == "\""@ + "Event"@ + "\""@,
        object_type_json(ObjectType::Place) == "\""@ + "Place"@ + "\""@,
        object_type_json(ObjectType::Profile) == "\""@ + "Profile"@ + "\""@,
        object_type_json(ObjectType::Tombstone) == "\""@ + "Tombstone"@ + "\""@,
        object_type_json(a) == object_type_json(b) ==> a == b,
{
    reveal_strlit("\"");
    reveal_strlit("Object");
    reveal_strlit("\"Object\"");
    reveal_strlit("Relationship");
    reveal_strlit("\"Relationship\"");
    reveal_strlit("Article");
    reveal_strlit("\"Article\"");
    reveal_strlit("Note");
    reveal_strlit("\"Note\"");
    reveal_strlit("Document");
    reveal_strlit("\"Document\"");
    reveal_strlit("Audio");
    reveal_strlit("\"Audio\"");
    reveal_strlit("Image");
    reveal_strlit("\"Image\"");
    reveal_strlit("Video");
    reveal_strlit("\"Video\"");
    reveal_strlit("Page");
    reveal_strlit("\"Page\"");
    reveal_strlit("Event");
    reveal_strlit("\"Event\"");
    reveal_strlit("Place");
    reveal_strlit("\"Place\"");
    reveal_strlit("Profile");
    reveal_strlit("\"Profile\"");
    reveal_strlit("Tombstone");
    reveal_strlit("\"Tombstone\"");
    assert(object_type_json(ObjectType::Object) =~= "\""@ + "Object"@ + "\""@);
    assert(object_type_json(ObjectType::Relationship) =~= "\""@ + "Relationship"@ + "\""@);
    assert(object_type_json(ObjectType::Article) =~= "\""@ + "Article"@ + "\""@);
    assert(object_type_json(ObjectType::Note) =~= "\""@ + "Note"@ + "\""@);
    assert(object_type_json(ObjectType::Document) =~= "\""@ + "Document"@ + "\""@);
    assert(object_type_json(ObjectType::Audio) =~= "\""@ + "Audio"@ + "\""@);
    assert(object_type_json(ObjectType::Image) =~= "\""@ + "Image"@ + "\""@);
    assert(object_type_json(ObjectType::Video) =~= "\""@ + "Video"@ + "\""@);
    assert(object_type_json(ObjectType::Page) =~= "\""@ + "Page"@ + "\""@);
    assert(object_type_json(ObjectType::Event) =~= "\""@ + "Event"@ + "\""@);
    assert(object_type_json(ObjectType::Place) =~= "\""@ + "Place"@ + "\""@);
    assert(object_type_json(ObjectType::Profile) =~= "\""@ + "Profile"@ + "\""@);
    assert(object_type_json(ObjectType::Tombstone) =~= "\""@ + "Tombstone"@ + "\""@);
    if object_type_json(a) == object_type_json(b) && a != b {
        let sa = object_type_json(a);
        let sb = object_type_json(b);
        assert(sa.len() == sb.len());
        assert(sa[1] == sb[1]);
        assert(sa[2] == sb[2]);
        assert(sa[3] == sb[3]);
    }
}


/// The JSON text of a post's kind is its name between double quotes, so the
/// two kinds are stored under different texts.
pub proof fn law_supertype_json_names_kind(a: PostSupertype, b: PostSupertype)
    ensures
        supertype_json(PostSupertype::Object) == "\""@ + "Object"@ + "\""@,
        supertype_json(PostSupertype::Question) == "\""@ + "Question"@ + "\""@,
        supertype_json(a) == supertype_json(b) ==> a == b,
{
    reveal_strlit("\"");
    reveal_strlit("Object");
    reveal_strlit("\"Object\"");
    reveal_strlit("Question");
    reveal_strlit("\"Question\"");
    assert(supertype_json(PostSupertype::Object) =~= "\""@ + "Object"@ + "\""@);
    assert(supertype_json(PostSupertype::Question) =~= "\""@ + "Question"@ + "\""@);
}

} // verus!
