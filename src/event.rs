use vstd::prelude::*;
use crate::tags::{copy_tags, deep_tags};

verus! {

/// A signed relay event, held as the plain values that the handler reads.
#[derive(Clone, Debug)]
pub struct NostrEventAdapter {
    id_hex: String,
    author_hex: String,
    content: String,
    kind: u16,
    created_at: u64,
    tags: Vec<Vec<String>>,
    sig: String,
}

impl NostrEventAdapter {
    pub closed spec fn id(&self) -> Seq<char> {
        self.id_hex@
    }

    pub closed spec fn author(&self) -> Seq<char> {
        self.author_hex@
    }

    pub closed spec fn content_spec(&self) -> Seq<char> {
        self.content@
    }

    pub closed spec fn kind_spec(&self) -> u16 {
        self.kind
    }

    pub closed spec fn created_at_spec(&self) -> u64 {
        self.created_at
    }

    pub closed spec fn tags_spec(&self) -> Seq<Vec<String>> {
        self.tags@
    }

    pub closed spec fn sig_spec(&self) -> Seq<char> {
        self.sig@
    }

    /// An event from its id and author (hex), content, kind, creation time,
    /// tags and signature (hex).
    pub fn new(
        id_hex: String,
        author_hex: String,
        content: String,
        kind: u16,
        created_at: u64,
        tags: Vec<Vec<String>>,
        sig: String,
    ) -> (r: Self)
        ensures
            r.id() == id_hex@,
            r.author() == author_hex@,
            r.content_spec() == content@,
            r.kind_spec() == kind,
            r.created_at_spec() == created_at,
            r.tags_spec() == tags@,
            r.sig_spec() == sig@,
    {
        NostrEventAdapter { id_hex, author_hex, content, kind, created_at, tags, sig }
    }

    pub fn raw_id(&self) -> (r: &str)
        ensures
            r@ == self.id(),
    {
        self.id_hex.as_str()
    }

    pub fn raw_author(&self) -> (r: &str)
        ensures
            r@ == self.author(),
    {
        self.author_hex.as_str()
    }

    pub fn raw_content(&self) -> (r: &str)
        ensures
            r@ == self.content_spec(),
    {
        self.content.as_str()
    }

    pub fn kind(&self) -> (r: u16)
        ensures
            r == self.kind_spec(),
    {
        self.kind
    }

    pub fn raw_kind(&self) -> (r: u32)
        ensures
            r == self.kind_spec() as u32,
    {
        self.kind as u32
    }

    /// The creation time in seconds, cut to 32 bits.
    pub fn raw_published_at(&self) -> (r: u32)
        ensures
            r == self.created_at_spec() as u32,
    {
        self.created_at as u32
    }

    /// The tags, borrowed.
    pub fn tags(&self) -> (r: &Vec<Vec<String>>)
        ensures
            r@ == self.tags_spec(),
    {
        &self.tags
    }

    /// A copy of the tags, each as its list of texts.
    pub fn tags_as_slices(&self) -> (r: Vec<Vec<String>>)
        ensures
            deep_tags(r@) == deep_tags(self.tags_spec()),
    {
        copy_tags(&self.tags)
    }

    pub fn raw_tags(&self) -> (r: Vec<Vec<String>>)
        ensures
            deep_tags(r@) == deep_tags(self.tags_spec()),
    {
        self.tags_as_slices()
    }

    pub fn raw_sig(&self) -> (r: &str)
        ensures
            r@ == self.sig_spec(),
    {
        self.sig.as_str()
    }

    pub fn created_at(&self) -> (r: u64)
        ensures
            r == self.created_at_spec(),
    {
        self.created_at
    }
}

} // verus!
