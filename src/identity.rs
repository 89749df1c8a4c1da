use vstd::prelude::*;
use crate::event::NostrEventAdapter;
use crate::tags::{copy_tags, deep_tags, has_tag_named, tag_is_present};
use crate::text::{owned, same_text};

verus! {

#[verifier::external_type_specification]
#[verifier::external_body]
pub struct ExKeys(nostr::Keys);

/// Whether nostr accepts a text as a secret key (hex or bech32).
pub uninterp spec fn secret_key_accepted(s: Seq<char>) -> bool;

/// The hex form of the public key that a text names (hex, bech32 or a
/// nostr URI), if it names one.
pub uninterp spec fn public_key_hex_of(s: Seq<char>) -> Option<Seq<char>>;

/// The tag lists that a JSON text encodes, if it encodes a list of tags.
pub uninterp spec fn tag_lists_in_json(json: Seq<char>) -> Option<Seq<Seq<Seq<char>>>>;

/// Relies on nostr's `Keys::parse`: a key pair from a secret key in hex or bech32.
#[verifier::external_body]
fn parse_keys(secret: &str) -> (r: Option<nostr::Keys>)
    ensures
        r is Some == secret_key_accepted(secret@),
{
    nostr::Keys::parse(secret).ok()
}

/// Relies on nostr's `PublicKey::parse` and `PublicKey::to_hex`: the hex form
/// of a public key given in hex, bech32 or as a nostr URI.
#[verifier::external_body]
fn public_key_hex(s: &str) -> (r: Option<String>)
    ensures
        match r {
            Some(h) => public_key_hex_of(s@) == Some(h@),
            None => public_key_hex_of(s@) is None,
        },
{
    nostr::PublicKey::parse(s).ok().map(|k| k.to_hex())
}

/// Relies on nostr's NIP-04 `decrypt`: the cleartext of a message that
/// `author` encrypted for the holder of `keys`, or the decryption error.
#[verifier::external_body]
fn nip04_decrypt(keys: &nostr::Keys, author: &str, content: &str) -> (r: Result<String, String>) {
    let author = nostr::PublicKey::parse(author).map_err(|e| e.to_string())?;
    nostr::nips::nip04::decrypt(keys.secret_key(), &author, content).map_err(|e| e.to_string())
}

/// Relies on serde_json reading nostr's `Tags`: the tag lists in a JSON text.
#[verifier::external_body]
fn decode_tag_lists(json: &str) -> (r: Option<Vec<Vec<String>>>)
    ensures
        match r {
            Some(v) => tag_lists_in_json(json@) == Some(deep_tags(v@)),
            None => tag_lists_in_json(json@) is None,
        },
{
    let tags: nostr::Tags = serde_json::from_str(json).ok()?;
    Some(tags.to_vec().into_iter().map(|t| t.to_vec()).collect())
}

/// Why an identity could not be turned into keys.
#[derive(Clone, Debug, PartialEq, Eq)]
pub enum KeyProfileError {
    InvalidSecretKey(String),
}

/// The daemon's identity: a secret key and the handler identifier it publishes under.
#[derive(Clone, Debug)]
pub struct KeyProfile {
    key: String,
    identifier: String,
}

impl KeyProfile {
    pub closed spec fn key_spec(&self) -> Seq<char> {
        self.key@
    }

    pub closed spec fn identifier_spec(&self) -> Seq<char> {
        self.identifier@
    }

    pub fn new(key: String, identifier: String) -> (r: Self)
        ensures
            r.key_spec() == key@,
            r.identifier_spec() == identifier@,
    {
        KeyProfile { key, identifier }
    }

    pub fn identifier(&self) -> (r: &str)
        ensures
            r@ == self.identifier_spec(),
    {
        self.identifier.as_str()
    }

    /// The key pair of the secret key; an unusable key is reported with the identifier.
    pub fn keys(&self) -> (r: Result<nostr::Keys, KeyProfileError>)
        ensures
            r is Ok == secret_key_accepted(self.key_spec()),
            r matches Err(KeyProfileError::InvalidSecretKey(id)) ==> id@ == self.identifier_spec(),
    {
        match parse_keys(self.key.as_str()) {
            Some(k) => Ok(k),
            None => Err(KeyProfileError::InvalidSecretKey(owned(self.identifier.as_str()))),
        }
    }
}

/// Why the tags of an event could not be resolved.
#[derive(Clone, Debug, PartialEq, Eq)]
pub enum NostrTagsResolveError {
    /// The event is encrypted but names no recipient.
    MissingPTag,
    /// The event is encrypted for someone else.
    NotRecipient,
    DecryptionError(String),
    ParseError,
}

/// The tags that a decrypted event content lists.
pub fn tags_from_cleartext(clear: &str) -> (r: Result<Vec<Vec<String>>, NostrTagsResolveError>)
    ensures
        match (r, tag_lists_in_json(clear@)) {
            (Ok(v), Some(w)) => deep_tags(v@) == w,
            (Err(e), None) => e == NostrTagsResolveError::ParseError,
            _ => false,
        },
{
    match decode_tag_lists(clear) {
        Some(v) => Ok(v),
        None => Err(NostrTagsResolveError::ParseError),
    }
}

/// The public key of the first `p` tag whose value names one.
pub open spec fn first_recipient(tags: Seq<Vec<String>>) -> Option<Seq<char>>
    decreases tags.len(),
{
    if tags.len() == 0 {
        None
    } else if tags[0]@.len() >= 2 && tags[0]@[0]@ == "p"@ && public_key_hex_of(tags[0]@[1]@) is Some {
        public_key_hex_of(tags[0]@[1]@)
    } else {
        first_recipient(tags.drop_first())
    }
}

fn find_recipient(tags: &Vec<Vec<String>>) -> (r: Option<String>)
    ensures
        match r {
            Some(k) => first_recipient(tags@) == Some(k@),
            None => first_recipient(tags@) is None,
        },
{
    let n = tags.len();
    let mut i: usize = 0;
    assert(tags@.subrange(0, n as int) =~= tags@);
    while i < n
        invariant
            n == tags@.len(),
            i <= n,
            first_recipient(tags@) == first_recipient(tags@.subrange(i as int, n as int)),
        decreases n - i,
    {
        let t = &tags[i];
        assert(tags@.subrange(i as int, n as int).drop_first() =~= tags@.subrange(i as int + 1, n as int));
        assert(tags@.subrange(i as int, n as int)[0] == tags@[i as int]);
        if t.len() >= 2 && same_text(t[0].as_str(), "p") {
            match public_key_hex(t[1].as_str()) {
                Some(k) => {
                    return Some(k);
                },
                None => {},
            }
        }
        i = i + 1;
    }
    None
}

/// The tags an event really carries. Plain events carry their tags as they
/// are. An event marked `encrypted` is decrypted only when its first `p`
/// tag that names a key names the daemon; its cleartext is the tag list.
pub fn resolve_tags(event: &NostrEventAdapter, keys: &nostr::Keys, daemon_pubkey: &str) -> (r: Result<Vec<Vec<String>>, NostrTagsResolveError>)
    ensures
        !has_tag_named(event.tags_spec(), "encrypted"@) ==> r is Ok && deep_tags(r->Ok_0@) == deep_tags(event.tags_spec()),
        has_tag_named(event.tags_spec(), "encrypted"@) ==> match first_recipient(event.tags_spec()) {
            None => r == Err::<Vec<Vec<String>>, NostrTagsResolveError>(NostrTagsResolveError::MissingPTag),
            Some(k) => if k != daemon_pubkey@ {
                r == Err::<Vec<Vec<String>>, NostrTagsResolveError>(NostrTagsResolveError::NotRecipient)
            } else {
                r matches Ok(v) ==> exists|clear: Seq<char>| tag_lists_in_json(clear) == Some(deep_tags(v@))
            },
        },
{
    let tags = event.tags();
    if !tag_is_present(tags.as_slice(), "encrypted") {
        return Ok(copy_tags(tags));
    }
    let recipient = match find_recipient(tags) {
        Some(k) => k,
        None => {
            return Err(NostrTagsResolveError::MissingPTag);
        },
    };
    if !same_text(recipient.as_str(), daemon_pubkey) {
        return Err(NostrTagsResolveError::NotRecipient);
    }
    let clear = match nip04_decrypt(keys, event.raw_author(), event.raw_content()) {
        Ok(c) => c,
        Err(e) => {
            return Err(NostrTagsResolveError::DecryptionError(e));
        },
    };
    tags_from_cleartext(clear.as_str())
}

} // verus!
