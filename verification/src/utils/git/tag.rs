//! The tags of a repository.

use crate::utils::collect::best_effort;
use crate::utils::collect::lemma_successes_are_outcomes;
use crate::utils::error::Error;
use crate::utils::error::ErrorKind;
use crate::utils::git::store;
use crate::utils::git::store_failure;
use crate::utils::git::Repository;
use crate::utils::git::TagEntry;
use crate::utils::text::from_utf8;
use crate::utils::text::same_text;
use git2::ObjectType as GitObjectType;
use git2::Oid as GitOid;
use git2::Tag as GitTag;
use vstd::prelude::*;
use vstd::utf8::decode_utf8;
use vstd::utf8::valid_utf8;

verus! {

/// How many bytes of the full name of a tag reference come before the name
/// of the tag: those of `refs/tags/`.
pub const TAG_PREFIX: usize = 10;

/// The name of the tag whose reference is called `full`: what follows the
/// prefix, where that is text.
pub open spec fn tag_name_of(full: Seq<u8>) -> Option<Seq<char>> {
    if full.len() >= TAG_PREFIX && valid_utf8(full.skip(TAG_PREFIX as int)) {
        Some(decode_utf8(full.skip(TAG_PREFIX as int)))
    } else {
        None
    }
}

/// Reads the name of a tag out of the full name of its reference.
pub fn tag_name(full: &Vec<u8>) -> (res: Option<String>)
    ensures
        match res {
            Some(name) => tag_name_of(full@) == Some(name@),
            None => tag_name_of(full@) is None,
        },
{
    if full.len() < TAG_PREFIX {
        return None;
    }
    let mut rest: Vec<u8> = Vec::new();
    let mut i: usize = TAG_PREFIX;
    while i < full.len()
        invariant
            TAG_PREFIX <= i <= full.len(),
            rest@ == full@.subrange(TAG_PREFIX as int, i as int),
        decreases full.len() - i,
    {
        rest.push(full[i]);
        i = i + 1;
    }
    assert(rest@ == full@.skip(TAG_PREFIX as int));
    from_utf8(rest)
}

/// Notes a tag reference that the object store told of, and asks for the
/// next one.
pub fn note_reference(found: &mut Vec<(GitOid, Vec<u8>)>, id: GitOid, name: Vec<u8>) -> (res: bool)
    ensures
        final(found)@ == old(found)@.push((id, name)),
        res,
{
    found.push((id, name));
    true
}

/// Whether no two entries of `tags` are of the same tag.
pub open spec fn distinct(tags: Seq<TagEntry>) -> bool {
    forall|i: int, j: int| 0 <= i < j < tags.len() ==> tags[i].tag@ != tags[j].tag@
}

/// Whether every entry of `tags` is linked under `refs/` by the name of its
/// tag.
pub open spec fn linked(tags: Seq<TagEntry>) -> bool {
    forall|i: int| 0 <= i < tags.len() ==> (#[trigger] tags[i]).link@ == "refs/"@ + tags[i].tag@
}

/// Whether `tags` has an entry for the tag `name`.
pub open spec fn lists(tags: Seq<TagEntry>, name: Seq<char>) -> bool {
    exists|i: int| 0 <= i < tags.len() && tags[i].tag@ == name
}

/// Decides `lists`.
pub fn is_listed(tags: &Vec<TagEntry>, name: &str) -> (res: bool)
    ensures
        res == lists(tags@, name@),
{
    let mut i: usize = 0;
    while i < tags.len()
        invariant
            i <= tags.len(),
            forall|j: int| 0 <= j < i ==> tags@[j].tag@ != name@,
        decreases tags.len() - i,
    {
        if same_text(tags[i].tag.as_str(), name) {
            return true;
        }
        i = i + 1;
    }
    false
}

/// The entries of `entries` without those of a tag that an earlier entry is
/// of: an entry is kept exactly where no entry kept before it is of the same
/// tag.
pub open spec fn firsts(entries: Seq<TagEntry>) -> Seq<TagEntry>
    decreases entries.len(),
{
    if entries.len() == 0 {
        Seq::empty()
    } else {
        let before = firsts(entries.drop_last());
        if lists(before, entries.last().tag@) {
            before
        } else {
            before.push(entries.last())
        }
    }
}

/// Computes `firsts`: the entries of `entries` without those of a tag that an
/// earlier entry is of, in their order. No tag is left twice, every entry
/// that is left is one of `entries`, and links stay what they were.
pub fn first_of_each(entries: Vec<TagEntry>) -> (res: Vec<TagEntry>)
    ensures
        res@ == firsts(entries@),
        distinct(res@),
        linked(entries@) ==> linked(res@),
        res@.len() <= entries@.len(),
        forall|k: int| 0 <= k < res@.len() ==> entries@.contains(#[trigger] res@[k]),
{
    let mut kept: Vec<TagEntry> = Vec::new();
    let ghost all = entries@;
    assert(all.take(0) == Seq::<TagEntry>::empty());
    for entry in it: entries
        invariant
            it.seq() == all,
            kept@ == firsts(all.take(it.index() as int)),
            distinct(kept@),
            kept@.len() <= it.index(),
            forall|k: int| 0 <= k < kept@.len() ==> all.contains(#[trigger] kept@[k]),
            linked(all) ==> linked(kept@),
    {
        assert(all.take(it.index() + 1).drop_last() == all.take(it.index() as int));
        assert(all.take(it.index() + 1).last() == entry);
        assert(all[it.index() as int] == entry);
        if !is_listed(&kept, entry.tag.as_str()) {
            kept.push(entry);
        }
    }
    assert(all.take(all.len() as int) == all);
    kept
}

impl Repository {
    /// The entry of the tag whose reference is called `full` and points at
    /// `id`. There is none where the name is no text, where the target cannot
    /// be read, and where the target is neither a tag object nor a commit.
    fn entry_of(&self, id: GitOid, full: &Vec<u8>) -> (res: Result<TagEntry, Error>)
        ensures
            res matches Ok(entry) ==> tag_name_of(full@) == Some(entry.tag@) && entry.link@
                == "refs/"@ + entry.tag@,
            tag_name_of(full@) is None ==> (res matches Err(error) && error@.kind
                == ErrorKind::Missing),
            res matches Err(error) ==> error@.kind == ErrorKind::Missing || error@.kind
                == ErrorKind::Store,
    {
        let name = match tag_name(full) {
            Some(name) => name,
            None => {
                return Err(Error::new(ErrorKind::Missing, "the name of the tag is no text"));
            },
        };
        let object = match store::find_object(&self.inner, id) {
            Ok(object) => object,
            Err(error) => {
                return Err(store_failure(error));
            },
        };
        match store::object_kind(&object) {
            Some(GitObjectType::Tag) => TagEntry::try_from_tag(name, &object),
            Some(GitObjectType::Commit) => TagEntry::try_from_commit(name, &object),
            _ => Err(Error::new(ErrorKind::Missing, "a tag was not a tag or lightweight tag")),
        }
    }

    /// One entry for each tag that can be read, in the order in which the
    /// object store tells them, and no tag twice. A tag whose name is no
    /// text, whose target cannot be read, or whose target is neither a tag
    /// object nor a commit is left out; the rest is still listed. The listing
    /// itself never fails: what cannot be listed is missing from it.
    pub fn tag_entries(&self) -> (res: Result<Vec<TagEntry>, Error>)
        ensures
            res matches Ok(tags) && distinct(tags@) && linked(tags@),
    {
        let mut found: Vec<(GitOid, Vec<u8>)> = Vec::new();
        match store::tag_references(&self.inner, &mut found) {
            Ok(()) => {},
            Err(error) => {
                return Err(store_failure(error));
            },
        }
        let mut outcomes: Vec<Result<TagEntry, Error>> = Vec::new();
        let mut i: usize = 0;
        while i < found.len()
            invariant
                i <= found.len(),
                forall|j: int|
                    0 <= j < outcomes@.len() ==> ((#[trigger] outcomes@[j]) matches Ok(entry)
                        ==> entry.link@ == "refs/"@ + entry.tag@),
            decreases found.len() - i,
        {
            let outcome = self.entry_of(found[i].0, &found[i].1);
            outcomes.push(outcome);
            i = i + 1;
        }
        let entries = best_effort(outcomes);
        assert forall|k: int| 0 <= k < entries@.len() implies (#[trigger] entries@[k]).link@
            == "refs/"@ + entries@[k].tag@ by {
            lemma_successes_are_outcomes(outcomes@, k);
            let j = choose|j: int|
                0 <= j < outcomes@.len() && outcomes@[j] == Ok::<TagEntry, Error>(entries@[k]);
            assert(outcomes@[j] matches Ok(entry) && entry == entries@[k]);
        }
        Ok(first_of_each(entries))
    }

    /// The tag object that `spec` leads to.
    pub fn tag(&self, spec: &str) -> (res: Result<GitTag<'_>, Error>)
        ensures
            res matches Err(error) ==> error@.kind == ErrorKind::Store && error@.contexts.len()
                == 0,
    {
        let object = match store::revparse_single(&self.inner, spec) {
            Ok(object) => object,
            Err(error) => {
                return Err(store_failure(error));
            },
        };
        match store::peel_to_tag(&object) {
            Ok(tag) => Ok(tag),
            Err(error) => Err(store_failure(error)),
        }
    }
}

} // verus!
