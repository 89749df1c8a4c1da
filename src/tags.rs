use vstd::prelude::*;
use crate::text::{owned, same_text};

verus! {

/// Whether a tag is `[key, value, ..]` for the given key.
pub open spec fn tag_has_key(t: Vec<String>, key: Seq<char>) -> bool {
    t@.len() >= 2 && t@[0]@ == key
}

/// The value of the first tag `[key, value, ..]`, if any.
pub open spec fn first_tag_value(tags: Seq<Vec<String>>, key: Seq<char>) -> Option<Seq<char>>
    decreases tags.len(),
{
    if tags.len() == 0 {
        None
    } else if tag_has_key(tags[0], key) {
        Some(tags[0]@[1]@)
    } else {
        first_tag_value(tags.drop_first(), key)
    }
}

/// Whether some tag is `[key, value, ..]`.
pub open spec fn has_tag_value(tags: Seq<Vec<String>>, key: Seq<char>, value: Seq<char>) -> bool {
    exists|i: int| 0 <= i < tags.len() && tag_has_key(#[trigger] tags[i], key) && tags[i]@[1]@ == value
}

/// Whether some tag's name (its first entry) is `key`.
pub open spec fn has_tag_named(tags: Seq<Vec<String>>, key: Seq<char>) -> bool {
    exists|i: int| 0 <= i < tags.len() && (#[trigger] tags[i])@.len() >= 1 && tags[i]@[0]@ == key
}

/// A two-entry tag `[key, value]`.
pub open spec fn is_pair(t: Vec<String>, key: Seq<char>, value: Seq<char>) -> bool {
    t@.len() == 2 && t@[0]@ == key && t@[1]@ == value
}

/// The value of the first tag named `key` that carries a value.
pub fn tag_value(tags: &[Vec<String>], key: &str) -> (r: Option<String>)
    ensures
        match (r, first_tag_value(tags@, key@)) {
            (Some(v), Some(w)) => v@ == w,
            (None, None) => true,
            _ => false,
        },
{
    let n = tags.len();
    let mut i: usize = 0;
    assert(tags@.subrange(0, n as int) =~= tags@);
    while i < n
        invariant
            n == tags@.len(),
            i <= n,
            first_tag_value(tags@, key@) == first_tag_value(tags@.subrange(i as int, n as int), key@),
        decreases n - i,
    {
        let t = &tags[i];
        assert(tags@.subrange(i as int, n as int).drop_first() =~= tags@.subrange(i as int + 1, n as int));
        assert(tags@.subrange(i as int, n as int)[0] == tags@[i as int]);
        if t.len() >= 2 && same_text(t[0].as_str(), key) {
            return Some(t[1].clone());
        }
        i = i + 1;
    }
    None
}

/// Whether some tag is `[key, value, ..]`.
pub fn tag_has_value(tags: &[Vec<String>], key: &str, value: &str) -> (r: bool)
    ensures
        r == has_tag_value(tags@, key@, value@),
{
    let n = tags.len();
    let mut i: usize = 0;
    while i < n
        invariant
            n == tags@.len(),
            i <= n,
            forall|j: int| 0 <= j < i ==> !(tag_has_key(#[trigger] tags@[j], key@) && tags@[j]@[1]@ == value@),
        decreases n - i,
    {
        let t = &tags[i];
        if t.len() >= 2 && same_text(t[0].as_str(), key) && same_text(t[1].as_str(), value) {
            assert(tag_has_key(tags@[i as int], key@));
            return true;
        }
        i = i + 1;
    }
    false
}

/// Whether some tag is named `key`, whatever it carries.
pub fn tag_is_present(tags: &[Vec<String>], key: &str) -> (r: bool)
    ensures
        r == has_tag_named(tags@, key@),
{
    let n = tags.len();
    let mut i: usize = 0;
    while i < n
        invariant
            n == tags@.len(),
            i <= n,
            forall|j: int| 0 <= j < i ==> !((#[trigger] tags@[j])@.len() >= 1 && tags@[j]@[0]@ == key@),
        decreases n - i,
    {
        let t = &tags[i];
        if t.len() >= 1 && same_text(t[0].as_str(), key) {
            return true;
        }
        i = i + 1;
    }
    false
}

/// The two-entry tag `[key, value]`.
pub fn pair_tag(key: &str, value: &str) -> (r: Vec<String>)
    ensures
        is_pair(r, key@, value@),
{
    let mut t: Vec<String> = Vec::new();
    t.push(owned(key));
    t.push(owned(value));
    t
}

/// The tags as plain sequences of texts.
pub open spec fn deep_tags(tags: Seq<Vec<String>>) -> Seq<Seq<Seq<char>>> {
    tags.map_values(|t: Vec<String>| t@.map_values(|s: String| s@))
}

/// A copy of the tags.
pub fn copy_tags(tags: &Vec<Vec<String>>) -> (r: Vec<Vec<String>>)
    ensures
        deep_tags(r@) == deep_tags(tags@),
{
    let mut out: Vec<Vec<String>> = Vec::new();
    let mut i: usize = 0;
    while i < tags.len()
        invariant
            i <= tags@.len(),
            out@.len() == i,
            forall|k: int| 0 <= k < i ==> (#[trigger] out@[k])@.map_values(|s: String| s@)
                == tags@[k]@.map_values(|s: String| s@),
        decreases tags@.len() - i,
    {
        let t = &tags[i];
        let mut copy: Vec<String> = Vec::new();
        let mut j: usize = 0;
        while j < t.len()
            invariant
                j <= t@.len(),
                copy@.len() == j,
                forall|k: int| 0 <= k < j ==> (#[trigger] copy@[k])@ == t@[k]@,
            decreases t@.len() - j,
        {
            copy.push(owned(t[j].as_str()));
            j = j + 1;
        }
        assert(copy@.map_values(|s: String| s@) =~= t@.map_values(|s: String| s@));
        out.push(copy);
        i = i + 1;
    }
    assert(deep_tags(out@) =~= deep_tags(tags@));
    out
}

} // verus!
