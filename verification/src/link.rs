//! ActivityStreams links.
use vstd::prelude::*;

verus! {

/// The ActivityStreams link types.
#[derive(Debug, Clone, Copy, PartialEq, Eq, Structural)]
pub enum LinkType {
    Link,
    /// A specialized Link that represents an @mention.
    Mention,
}

/// An expanded link, with its target as a URL serialisation.
pub struct Link {
    pub type_field: LinkType,
    pub href: String,
    pub hreflang: Option<String>,
    pub media_type: String,
    pub name: String,
    pub height: Option<u32>,
    pub width: Option<u32>,
    pub preview: Option<String>,
    pub rel: Option<String>,
}

/// A link given either as a bare URL or expanded.
pub enum LinkSimpleOrExpanded {
    Simple(String),
    Expanded(Link),
}

impl LinkSimpleOrExpanded {
    /// The URL the link points to.
    pub fn get_id(&self) -> (id: &String)
        ensures
            id == match self {
                LinkSimpleOrExpanded::Simple(x) => x,
                LinkSimpleOrExpanded::Expanded(x) => &x.href,
            },
    {
        match self {
            LinkSimpleOrExpanded::Simple(x) => x,
            LinkSimpleOrExpanded::Expanded(x) => &x.href,
        }
    }
}

} // verus!
