//! The object store: libgit2, through the `git2` crate. Everything in this
//! file is taken on trust.
//!
//! What a lookup answers depends on what is on disk at the moment of the
//! call, so the lookups promise nothing about their result: the code that
//! calls them is verified for every answer. What a value that is already
//! loaded says of itself depends on that value alone: what kind of object it
//! is, who signed it, what its message is. Each such answer has a name here,
//! and the function that asks states that its result is that name applied to
//! its argument.

use git2::Blob as GitBlob;
use git2::Branch as GitBranch;
use git2::BranchType as GitBranchType;
use git2::Branches as GitBranches;
use git2::Commit as GitCommit;
use git2::Config as GitConfig;
use git2::Diff as GitDiff;
use git2::DiffFindOptions as GitDiffFindOptions;
use git2::DiffOptions as GitDiffOptions;
use git2::DiffStats as GitDiffStats;
use git2::Error as GitError;
use git2::Object as GitObject;
use git2::ObjectType as GitObjectType;
use git2::Oid as GitOid;
use git2::Reference as GitReference;
use git2::References as GitReferences;
use git2::Repository as GitRepository;
use git2::Revwalk as GitRevwalk;
use git2::Signature as GitSignature;
use git2::Sort as GitSort;
use git2::Tag as GitTag;
use git2::Time as GitTime;
use git2::Tree as GitTree;
use git2::TreeEntry as GitTreeEntry;
use vstd::prelude::*;

verus! {

#[verifier::external_type_specification]
#[verifier::external_body]
pub struct ExRepository(GitRepository);

#[verifier::external_type_specification]
#[verifier::external_body]
pub struct ExCommit<'repo>(GitCommit<'repo>);

#[verifier::external_type_specification]
#[verifier::external_body]
pub struct ExObject<'repo>(GitObject<'repo>);

#[verifier::external_type_specification]
#[verifier::external_body]
pub struct ExTree<'repo>(GitTree<'repo>);

#[verifier::external_type_specification]
#[verifier::external_body]
pub struct ExTreeEntry<'tree>(GitTreeEntry<'tree>);

#[verifier::external_type_specification]
#[verifier::external_body]
pub struct ExBlob<'repo>(GitBlob<'repo>);

#[verifier::external_type_specification]
#[verifier::external_body]
pub struct ExTag<'repo>(GitTag<'repo>);

#[verifier::external_type_specification]
#[verifier::external_body]
pub struct ExReference<'repo>(GitReference<'repo>);

#[verifier::external_type_specification]
#[verifier::external_body]
pub struct ExReferences<'repo>(GitReferences<'repo>);

#[verifier::external_type_specification]
#[verifier::external_body]
pub struct ExBranch<'repo>(GitBranch<'repo>);

#[verifier::external_type_specification]
#[verifier::external_body]
pub struct ExBranches<'repo>(GitBranches<'repo>);

#[verifier::external_type_specification]
pub struct ExBranchType(GitBranchType);

#[verifier::external_type_specification]
pub struct ExObjectType(GitObjectType);

#[verifier::external_type_specification]
#[verifier::external_body]
pub struct ExRevwalk<'repo>(GitRevwalk<'repo>);

#[verifier::external_type_specification]
#[verifier::external_body]
pub struct ExDiff<'repo>(GitDiff<'repo>);

#[verifier::external_type_specification]
#[verifier::external_body]
pub struct ExDiffOptions(GitDiffOptions);

#[verifier::external_type_specification]
#[verifier::external_body]
pub struct ExDiffFindOptions(GitDiffFindOptions);

#[verifier::external_type_specification]
#[verifier::external_body]
pub struct ExDiffStats(GitDiffStats);

#[verifier::external_type_specification]
#[verifier::external_body]
pub struct ExSort(GitSort);

#[verifier::external_type_specification]
#[verifier::external_body]
pub struct ExSignature<'a>(GitSignature<'a>);

#[verifier::external_type_specification]
#[verifier::external_body]
pub struct ExTime(GitTime);

#[verifier::external_type_specification]
#[verifier::external_body]
pub struct ExOid(GitOid);

#[verifier::external_type_specification]
#[verifier::external_body]
pub struct ExConfig(GitConfig);

#[verifier::external_type_specification]
#[verifier::external_body]
pub struct ExError(GitError);

/// Whether `text` is free of the NUL character, which no string that crosses
/// into libgit2 may hold.
pub open spec fn nul_free(text: Seq<char>) -> bool {
    forall|i: int| 0 <= i < text.len() ==> text[i] != '\0'
}

/// `git2::Repository::open`: the store at `path`, or why there is none to be
/// had.
#[verifier::external_body]
pub(crate) fn open_store(path: &str) -> (res: Result<GitRepository, GitError>) {
    GitRepository::open(path)
}

/// Where an open store keeps its metadata, if that path is valid Unicode.
pub uninterp spec fn metadata_of(store: GitRepository) -> Option<Seq<char>>;

/// `git2::Repository::path`: where the store keeps its metadata, if that path
/// is valid Unicode.
#[verifier::external_body]
pub(crate) fn metadata_path(store: &GitRepository) -> (res: Option<String>)
    ensures
        match res {
            Some(path) => metadata_of(*store) == Some(path@),
            None => metadata_of(*store) is None,
        },
{
    store.path().to_str().map(str::to_owned)
}

/// The working directory of an open store, if it has one and its path is
/// valid Unicode.
pub uninterp spec fn workdir_of(store: GitRepository) -> Option<Seq<char>>;

/// `git2::Repository::workdir`: the working directory of the store, if it has
/// one and its path is valid Unicode.
#[verifier::external_body]
pub(crate) fn workdir_path(store: &GitRepository) -> (res: Option<String>)
    ensures
        match res {
            Some(path) => workdir_of(*store) == Some(path@),
            None => workdir_of(*store) is None,
        },
{
    store.workdir().and_then(std::path::Path::to_str).map(str::to_owned)
}

/// `git2::Repository::is_shallow`.
#[verifier::external_body]
pub(crate) fn store_is_shallow(store: &GitRepository) -> (res: bool) {
    store.is_shallow()
}

/// `git2::Repository::is_empty`.
#[verifier::external_body]
pub(crate) fn store_is_empty(store: &GitRepository) -> (res: Result<bool, GitError>) {
    store.is_empty()
}

/// `git2::Repository::head`.
#[verifier::external_body]
pub(crate) fn store_head<'r>(store: &'r GitRepository) -> (res: Result<
    GitReference<'r>,
    GitError,
>) {
    store.head()
}

/// `git2::Repository::config`.
#[verifier::external_body]
pub(crate) fn store_config(store: &GitRepository) -> (res: Result<GitConfig, GitError>) {
    store.config()
}

/// `git2::Config::get_string`.
#[verifier::external_body]
pub(crate) fn config_string(config: &GitConfig, key: &str) -> (res: Result<String, GitError>) {
    config.get_string(key)
}

/// `git2::Repository::revparse_single`.
#[verifier::external_body]
pub(crate) fn revparse_single<'r>(store: &'r GitRepository, spec: &str) -> (res: Result<
    GitObject<'r>,
    GitError,
>) {
    store.revparse_single(spec)
}

/// `git2::Repository::find_commit`.
#[verifier::external_body]
pub(crate) fn find_commit<'r>(store: &'r GitRepository, id: GitOid) -> (res: Result<
    GitCommit<'r>,
    GitError,
>) {
    store.find_commit(id)
}

/// `git2::Repository::find_object`, for an object of any kind.
#[verifier::external_body]
pub(crate) fn find_object<'r>(store: &'r GitRepository, id: GitOid) -> (res: Result<
    GitObject<'r>,
    GitError,
>) {
    store.find_object(id, None)
}

/// `git2::Repository::revwalk`.
#[verifier::external_body]
pub(crate) fn revwalk<'r>(store: &'r GitRepository) -> (res: Result<GitRevwalk<'r>, GitError>) {
    store.revwalk()
}

/// `git2::Revwalk::push`.
#[verifier::external_body]
pub(crate) fn walk_push(walk: &mut GitRevwalk<'_>, id: GitOid) -> (res: Result<(), GitError>) {
    walk.push(id)
}

/// `git2::Sort::TIME`: the order of a walk that goes by the time of the
/// commits, newest first.
#[verifier::external_body]
pub(crate) fn by_time() -> (res: GitSort) {
    GitSort::TIME
}

/// `git2::Revwalk::set_sorting`.
#[verifier::external_body]
pub(crate) fn walk_sort(walk: &mut GitRevwalk<'_>, order: GitSort) -> (res: Result<(), GitError>) {
    walk.set_sorting(order)
}

/// `git2::Revwalk::next`. Nothing is promised, not even that `None` is ever
/// returned.
#[verifier::external_body]
pub(crate) fn walk_next(walk: &mut GitRevwalk<'_>) -> (res: Option<Result<GitOid, GitError>>) {
    walk.next()
}

/// What kind of object a loaded object is.
pub uninterp spec fn kind_of(object: GitObject<'_>) -> Option<GitObjectType>;

/// `git2::Object::kind`.
#[verifier::external_body]
pub(crate) fn object_kind(object: &GitObject<'_>) -> (res: Option<GitObjectType>)
    ensures
        res == kind_of(*object),
{
    object.kind()
}

/// `git2::Object::peel_to_commit`.
#[verifier::external_body]
pub(crate) fn peel_to_commit<'r>(object: &GitObject<'r>) -> (res: Result<
    GitCommit<'r>,
    GitError,
>) {
    object.peel_to_commit()
}

/// `git2::Object::peel_to_blob`.
#[verifier::external_body]
pub(crate) fn peel_to_blob<'r>(object: &GitObject<'r>) -> (res: Result<GitBlob<'r>, GitError>) {
    object.peel_to_blob()
}

/// `git2::Object::peel_to_tag`.
#[verifier::external_body]
pub(crate) fn peel_to_tag<'r>(object: &GitObject<'r>) -> (res: Result<GitTag<'r>, GitError>) {
    object.peel_to_tag()
}

/// The commit that a loaded object is, if it is one.
pub uninterp spec fn commit_of(object: GitObject<'_>) -> Option<GitCommit<'_>>;

/// `git2::Object::as_commit`: the object as a commit, which it is exactly
/// where its kind is that of a commit.
#[verifier::external_body]
pub(crate) fn as_commit<'a, 'r>(object: &'a GitObject<'r>) -> (res: Option<&'a GitCommit<'r>>)
    ensures
        match res {
            Some(commit) => commit_of(*object) == Some(*commit),
            None => commit_of(*object) is None,
        },
        res is Some <==> kind_of(*object) == Some(GitObjectType::Commit),
{
    object.as_commit()
}

/// The tag object that a loaded object is, if it is one.
pub uninterp spec fn tag_of(object: GitObject<'_>) -> Option<GitTag<'_>>;

/// `git2::Object::as_tag`: the object as a tag object, which it is exactly
/// where its kind is that of a tag.
#[verifier::external_body]
pub(crate) fn as_tag<'a, 'r>(object: &'a GitObject<'r>) -> (res: Option<&'a GitTag<'r>>)
    ensures
        match res {
            Some(tag) => tag_of(*object) == Some(*tag),
            None => tag_of(*object) is None,
        },
        res is Some <==> kind_of(*object) == Some(GitObjectType::Tag),
{
    object.as_tag()
}

/// The tree that a loaded object is, if it is one.
pub uninterp spec fn tree_of(object: GitObject<'_>) -> Option<GitTree<'_>>;

/// `git2::Object::into_tree`: the object as a tree, or the object back where
/// it is none.
#[verifier::external_body]
pub(crate) fn into_tree<'r>(object: GitObject<'r>) -> (res: Result<GitTree<'r>, GitObject<'r>>)
    ensures
        match tree_of(object) {
            Some(tree) => res == Ok::<GitTree<'r>, GitObject<'r>>(tree),
            None => res == Err::<GitTree<'r>, GitObject<'r>>(object),
        },
{
    object.into_tree()
}

/// The blob that a loaded object is, if it is one.
pub uninterp spec fn blob_of(object: GitObject<'_>) -> Option<GitBlob<'_>>;

/// `git2::Object::into_blob`: the object as a blob, or the object back where
/// it is none.
#[verifier::external_body]
pub(crate) fn into_blob<'r>(object: GitObject<'r>) -> (res: Result<GitBlob<'r>, GitObject<'r>>)
    ensures
        match blob_of(object) {
            Some(blob) => res == Ok::<GitBlob<'r>, GitObject<'r>>(blob),
            None => res == Err::<GitBlob<'r>, GitObject<'r>>(object),
        },
{
    object.into_blob()
}

/// The id of a loaded commit.
pub uninterp spec fn id_of(commit: GitCommit<'_>) -> GitOid;

/// `git2::Commit::id`.
#[verifier::external_body]
pub(crate) fn commit_id(commit: &GitCommit<'_>) -> (res: GitOid)
    ensures
        res == id_of(*commit),
{
    commit.id()
}

/// `git2::Commit::tree`.
#[verifier::external_body]
pub(crate) fn commit_tree<'r>(commit: &GitCommit<'r>) -> (res: Result<GitTree<'r>, GitError>) {
    commit.tree()
}

/// How many parents a loaded commit names.
pub uninterp spec fn parents_of(commit: GitCommit<'_>) -> usize;

/// `git2::Commit::parent_count`.
#[verifier::external_body]
pub(crate) fn parent_count(commit: &GitCommit<'_>) -> (res: usize)
    ensures
        res == parents_of(*commit),
{
    commit.parent_count()
}

/// `git2::Commit::parent`. libgit2 takes the index as a 32-bit number, so
/// larger ones are kept out.
#[verifier::external_body]
pub(crate) fn parent<'r>(commit: &GitCommit<'r>, index: usize) -> (res: Result<
    GitCommit<'r>,
    GitError,
>)
    requires
        index <= u32::MAX,
{
    commit.parent(index)
}

/// The signature of whoever committed a loaded commit.
pub uninterp spec fn committer_of(commit: GitCommit<'_>) -> GitSignature<'static>;

/// `git2::Commit::committer`, as a signature that owns its data.
#[verifier::external_body]
pub(crate) fn committer(commit: &GitCommit<'_>) -> (res: GitSignature<'static>)
    ensures
        res == committer_of(*commit),
{
    commit.committer().to_owned()
}

/// When a signature was made.
pub uninterp spec fn time_of(signature: GitSignature<'_>) -> GitTime;

/// `git2::Signature::when`.
#[verifier::external_body]
pub(crate) fn signed_at(signature: &GitSignature<'_>) -> (res: GitTime)
    ensures
        res == time_of(*signature),
{
    signature.when()
}

/// The message of a loaded tag object, where it has one and the message is
/// text.
pub uninterp spec fn message_of(tag: GitTag<'_>) -> Option<Seq<char>>;

/// `git2::Tag::message`: the message, nothing where the tag has none, and an
/// error where the message is no text.
#[verifier::external_body]
pub(crate) fn tag_message(tag: &GitTag<'_>) -> (res: Result<Option<String>, GitError>)
    ensures
        match res {
            Ok(Some(message)) => message_of(*tag) == Some(message@),
            _ => message_of(*tag) is None,
        },
{
    tag.message().map(|message| message.map(str::to_owned))
}

/// The signature of whoever made a loaded tag object, if the tag names
/// anyone.
pub uninterp spec fn tagger_of(tag: GitTag<'_>) -> Option<GitSignature<'static>>;

/// `git2::Tag::tagger`, as a signature that owns its data.
#[verifier::external_body]
pub(crate) fn tagger(tag: &GitTag<'_>) -> (res: Option<GitSignature<'static>>)
    ensures
        res == tagger_of(*tag),
{
    tag.tagger().map(|signature| signature.to_owned())
}

/// `git2::Repository::tag_foreach`: each tag reference goes to
/// `note_reference` with the id it points at and its full name. The crate
/// does not look at what libgit2 answers and hands back `Ok` in every case.
#[verifier::external_body]
pub(crate) fn tag_references(store: &GitRepository, found: &mut Vec<(GitOid, Vec<u8>)>) -> (res:
    Result<(), GitError>)
    ensures
        res is Ok,
{
    store.tag_foreach(|id, name| crate::utils::git::tag::note_reference(found, id, name.to_vec()))
}

/// `git2::Repository::references`.
#[verifier::external_body]
pub(crate) fn references<'r>(store: &'r GitRepository) -> (res: Result<
    GitReferences<'r>,
    GitError,
>) {
    store.references()
}

/// `git2::References::next`. Nothing is promised, not even that `None` is ever
/// returned.
#[verifier::external_body]
pub(crate) fn references_next<'r>(references: &mut GitReferences<'r>) -> (res: Option<
    Result<GitReference<'r>, GitError>,
>) {
    references.next()
}

/// `git2::Repository::branches`, for branches of one kind.
#[verifier::external_body]
pub(crate) fn branches<'r>(store: &'r GitRepository, kind: GitBranchType) -> (res: Result<
    GitBranches<'r>,
    GitError,
>) {
    store.branches(Some(kind))
}

/// `git2::Branches::next`. Nothing is promised, not even that `None` is ever
/// returned.
#[verifier::external_body]
pub(crate) fn branches_next<'r>(branches: &mut GitBranches<'r>) -> (res: Option<
    Result<(GitBranch<'r>, GitBranchType), GitError>,
>) {
    branches.next()
}

/// The reference that a branch is.
pub uninterp spec fn reference_of(branch: GitBranch<'_>) -> GitReference<'_>;

/// `git2::Branch::get`: the reference that the branch is.
#[verifier::external_body]
pub(crate) fn branch_reference<'a, 'r>(branch: &'a GitBranch<'r>) -> (res: &'a GitReference<'r>)
    ensures
        *res == reference_of(*branch),
{
    branch.get()
}

/// `<git2::Oid as PartialEq>::eq`: whether two ids are the same, byte for
/// byte.
#[verifier::external_body]
pub(crate) fn same_id(a: GitOid, b: GitOid) -> (res: bool)
    ensures
        res == (a == b),
{
    a == b
}

/// Whether a loaded reference is a local branch.
pub uninterp spec fn is_branch_of(reference: GitReference<'_>) -> bool;

/// `git2::Reference::is_branch`.
#[verifier::external_body]
pub(crate) fn is_branch(reference: &GitReference<'_>) -> (res: bool)
    ensures
        res == is_branch_of(*reference),
{
    reference.is_branch()
}

/// The short name of a loaded reference, where it is text.
pub uninterp spec fn shorthand_of(reference: GitReference<'_>) -> Option<Seq<char>>;

/// `git2::Reference::shorthand`: the short name, or an error where it is no
/// text.
#[verifier::external_body]
pub(crate) fn shorthand(reference: &GitReference<'_>) -> (res: Result<String, GitError>)
    ensures
        match res {
            Ok(short) => shorthand_of(*reference) == Some(short@),
            Err(_) => shorthand_of(*reference) is None,
        },
{
    reference.shorthand().map(str::to_owned)
}

/// `git2::Reference::peel_to_commit`.
#[verifier::external_body]
pub(crate) fn reference_commit<'r>(reference: &GitReference<'r>) -> (res: Result<
    GitCommit<'r>,
    GitError,
>) {
    reference.peel_to_commit()
}

/// `git2::Tree::get_path`.
#[verifier::external_body]
pub(crate) fn tree_entry(tree: &GitTree<'_>, path: &str) -> (res: Result<
    GitTreeEntry<'static>,
    GitError,
>) {
    tree.get_path(std::path::Path::new(path))
}

/// `git2::TreeEntry::to_object`.
#[verifier::external_body]
pub(crate) fn entry_object<'r>(entry: &GitTreeEntry<'_>, store: &'r GitRepository) -> (res: Result<
    GitObject<'r>,
    GitError,
>) {
    entry.to_object(store)
}

/// Whether libgit2 takes the content of a loaded blob for binary.
pub uninterp spec fn binary_of(blob: GitBlob<'_>) -> bool;

/// `git2::Blob::is_binary`.
#[verifier::external_body]
pub(crate) fn blob_is_binary(blob: &GitBlob<'_>) -> (res: bool)
    ensures
        res == binary_of(*blob),
{
    blob.is_binary()
}

/// The bytes of a loaded blob.
pub uninterp spec fn content_of(blob: GitBlob<'_>) -> Seq<u8>;

/// `git2::Blob::content`, copied out.
#[verifier::external_body]
pub(crate) fn blob_content(blob: &GitBlob<'_>) -> (res: Vec<u8>)
    ensures
        res@ == content_of(*blob),
{
    blob.content().to_vec()
}

/// `git2::DiffOptions::new`: the options of a comparison that is restricted
/// to nothing.
#[verifier::external_body]
pub(crate) fn diff_options() -> (res: GitDiffOptions) {
    GitDiffOptions::new()
}

/// `git2::DiffOptions::pathspec`, which panics on a NUL: from now on the
/// options restrict a comparison to `pathspec`.
#[verifier::external_body]
pub(crate) fn restrict(options: &mut GitDiffOptions, pathspec: &str)
    requires
        nul_free(pathspec@),
{
    options.pathspec(pathspec);
}

/// `git2::Repository::diff_tree_to_tree`; an absent tree stands for the empty
/// one.
#[verifier::external_body]
pub(crate) fn diff_trees<'r>(
    store: &'r GitRepository,
    old: Option<&GitTree<'_>>,
    new: Option<&GitTree<'_>>,
    options: &mut GitDiffOptions,
) -> (res: Result<GitDiff<'r>, GitError>) {
    store.diff_tree_to_tree(old, new, Some(options))
}

/// `git2::DiffFindOptions::new`: the options of a search for renames and
/// copies, as libgit2 sets them by default.
#[verifier::external_body]
pub(crate) fn find_options() -> (res: GitDiffFindOptions) {
    GitDiffFindOptions::new()
}

/// `git2::DiffFindOptions::all`: switches every kind of search on or off.
#[verifier::external_body]
pub(crate) fn find_all(options: &mut GitDiffFindOptions, find: bool) {
    options.all(find);
}

/// `git2::Diff::find_similar`.
#[verifier::external_body]
pub(crate) fn find_similar(diff: &mut GitDiff<'_>, options: &mut GitDiffFindOptions) -> (res:
    Result<(), GitError>) {
    diff.find_similar(Some(options))
}

/// `git2::Diff::print` in the format of a patch. Each line of the patch goes
/// to `patch_line` with its origin (`git2::DiffLine::origin`) and its content
/// (`git2::DiffLine::content`); printing stops where `patch_line` says so.
#[verifier::external_body]
pub(crate) fn print_patch(diff: &GitDiff<'_>, text: &mut String) -> (res: Result<(), GitError>) {
    diff.print(
        git2::DiffFormat::Patch,
        |_, _, line| crate::utils::git::commit::patch_line(text, line.origin(), line.content().to_vec()),
    )
}

/// `git2::Diff::stats`.
#[verifier::external_body]
pub(crate) fn diff_stats(diff: &GitDiff<'_>) -> (res: Result<GitDiffStats, GitError>) {
    diff.stats()
}

/// How many files the figures of a comparison count as changed.
pub uninterp spec fn changed_of(stats: GitDiffStats) -> usize;

/// `git2::DiffStats::files_changed`.
#[verifier::external_body]
pub(crate) fn files_changed(stats: &GitDiffStats) -> (res: usize)
    ensures
        res == changed_of(*stats),
{
    stats.files_changed()
}

/// Whether an error of the store says that something was not found.
pub uninterp spec fn not_found_of(error: GitError) -> bool;

/// `git2::Error::code`: whether the error says that something was not found.
#[verifier::external_body]
pub(crate) fn is_not_found(error: &GitError) -> (res: bool)
    ensures
        res == not_found_of(*error),
{
    error.code() == git2::ErrorCode::NotFound
}

/// The message of an error of the store.
pub uninterp spec fn error_text_of(error: GitError) -> Seq<char>;

/// `git2::Error::message`.
#[verifier::external_body]
pub(crate) fn error_message(error: &GitError) -> (res: String)
    ensures
        res@ == error_text_of(*error),
{
    error.message().to_owned()
}

} // verus!
