//! Repositories below a configured root, and what can be asked of one.

use crate::config::Config;
use crate::utils::error::Context;
use crate::utils::error::Error;
use crate::utils::error::ErrorKind;
use crate::utils::error::ErrorView;
use crate::utils::git::access::answer;
use crate::utils::git::access::decide;
use crate::utils::git::access::Found;
use crate::utils::git::access::Verdict;
use crate::utils::git::access::Answer;
use crate::utils::git::access::Lookup;
use crate::utils::git::access::Opening;
use crate::utils::paths::below;
use crate::utils::paths::canonicalize;
use crate::utils::paths::is_below;
use crate::utils::paths::is_present;
use crate::utils::paths::join;
use git2::Commit as GitCommit;
use git2::Error as GitError;
use git2::Object as GitObject;
use git2::Repository as GitRepository;
use git2::Signature as GitSignature;
use vstd::prelude::*;
use vstd::string::StringExecFns;

pub mod access;
pub mod branch;
pub mod commit;
pub mod info;
pub mod page;
pub mod store;
pub mod tag;
pub mod tree;
pub mod walk;

verus! {

/// The failure that the object store reported as `error`: of kind `Store`,
/// with the store's own message, and no context yet.
pub fn store_failure(error: GitError) -> (res: Error)
    ensures
        res@ == (ErrorView {
            kind: ErrorKind::Store,
            message: store::error_text_of(error),
            contexts: Seq::empty(),
        }),
{
    let message = store::error_message(&error);
    Error::new(ErrorKind::Store, message.as_str())
}

impl<T> Context<T, GitError> for Result<T, GitError> {
    open spec fn carried(self) -> Option<T> {
        match self {
            Ok(value) => Some(value),
            Err(_) => None,
        }
    }

    /// The account of a failure of the object store is of kind `Store` and
    /// carries the one context; its message is the store's own.
    open spec fn accounts(self, context: Seq<char>, error: ErrorView) -> bool {
        self matches Err(cause) && error == (ErrorView {
            kind: ErrorKind::Store,
            message: store::error_text_of(cause),
            contexts: seq![context],
        })
    }

    fn context(self, context: &str) -> (res: Result<T, Error>) {
        match self {
            Ok(value) => Ok(value),
            Err(error) => {
                let wrapped = store_failure(error).context(context);
                assert(wrapped@.contexts =~= seq![context@]);
                Err(wrapped)
            },
        }
    }

    fn with_context<F: FnOnce() -> String>(self, context: F) -> (res: Result<T, Error>) {
        match self {
            Ok(value) => Ok(value),
            Err(error) => {
                let failure = store_failure(error);
                let described = context();
                let wrapped = failure.context(described.as_str());
                assert(wrapped@.contexts =~= seq![described@]);
                let res: Result<T, Error> = Err(wrapped);
                assert(self.accounts(described@, res->Err_0@));
                res
            },
        }
    }
}

/// One tag of a repository, ready to be listed.
pub struct TagEntry {
    pub link: String,
    pub tag: String,
    pub message: String,
    pub signature: GitSignature<'static>,
}

impl TagEntry {
    /// Whether this is the entry of the tag `name` with `message` and
    /// `signature`, linked under `refs/`.
    pub open spec fn describes(
        self,
        name: Seq<char>,
        message: Seq<char>,
        signature: GitSignature<'static>,
    ) -> bool {
        &&& self.tag@ == name
        &&& self.link@ == "refs/"@ + name
        &&& self.message@ == message
        &&& self.signature == signature
    }

    fn assemble(name: String, message: String, signature: GitSignature<'static>) -> (res: TagEntry)
        ensures
            res.describes(name@, message@, signature),
    {
        let mut link = String::from_str("refs/");
        link.append(name.as_str());
        TagEntry { link, tag: name, message, signature }
    }

    /// The entry of a lightweight tag, one that points straight at a commit:
    /// it has no message, and it is signed by whoever committed the commit.
    pub fn lightweight(name: String, committer: GitSignature<'static>) -> (res: TagEntry)
        ensures
            res.describes(name@, Seq::empty(), committer),
    {
        Self::assemble(name, String::new(), committer)
    }

    /// The entry of an annotated tag. It carries the tag's message, or none
    /// where the tag has none. It is signed by the tagger; a tag without a
    /// tagger is signed by `resolved`, the committer of the commit that the
    /// tag resolves to. Without either there is no entry.
    pub fn annotated(
        name: String,
        message: Option<String>,
        tagger: Option<GitSignature<'static>>,
        resolved: Option<GitSignature<'static>>,
    ) -> (res: Option<TagEntry>)
        ensures
            match (tagger, resolved) {
                (Some(signature), _) => res matches Some(entry) && entry.describes(
                    name@,
                    Self::text_of(message),
                    signature,
                ),
                (None, Some(signature)) => res matches Some(entry) && entry.describes(
                    name@,
                    Self::text_of(message),
                    signature,
                ),
                (None, None) => res is None,
            },
    {
        let signature = match tagger {
            Some(signature) => signature,
            None => match resolved {
                Some(signature) => signature,
                None => {
                    return None;
                },
            },
        };
        let message = match message {
            Some(message) => message,
            None => String::new(),
        };
        Some(Self::assemble(name, message, signature))
    }

    /// The text of a message that may be missing.
    pub open spec fn text_of(message: Option<String>) -> Seq<char> {
        match message {
            Some(message) => message@,
            None => Seq::empty(),
        }
    }

    /// The entry for the tag `name` where it points at the commit `obj`: an
    /// entry without a message, signed by whoever committed the commit. It
    /// fails exactly where `obj` is no commit.
    pub fn try_from_commit(name: String, obj: &GitObject<'_>) -> (res: Result<TagEntry, Error>)
        ensures
            match store::commit_of(*obj) {
                Some(commit) => res matches Ok(entry) && entry.describes(
                    name@,
                    Seq::empty(),
                    store::committer_of(commit),
                ),
                None => res matches Err(error) && error@.kind == ErrorKind::Missing
                    && error@.contexts.len() == 0,
            },
    {
        match store::as_commit(obj) {
            Some(commit) => Ok(Self::lightweight(name, store::committer(commit))),
            None => Err(Error::new(ErrorKind::Missing, "git object is not a commit")),
        }
    }

    /// The entry for the tag `name` where it points at the tag object `obj`.
    ///
    /// An object that is no tag object gives an error of the library's own.
    /// A tag with a tagger always gives an entry: it carries the tag's
    /// message and is signed by the tagger. For a tag without a tagger the
    /// object store is asked for the commit that the tag resolves to: where
    /// it has one, the entry carries the tag's message and is signed by
    /// whoever committed that commit; where it has none, that is the error.
    pub fn try_from_tag<'r>(name: String, obj: &GitObject<'r>) -> (res: Result<TagEntry, Error>)
        ensures
            match store::tag_of(*obj) {
                None => res matches Err(error) && error@.kind == ErrorKind::Missing
                    && error@.contexts.len() == 0,
                Some(tag) => match store::tagger_of(tag) {
                    Some(signature) => res matches Ok(entry) && entry.describes(
                        name@,
                        Self::shown(store::message_of(tag)),
                        signature,
                    ),
                    None => match res {
                        Ok(entry) => exists|commit: GitCommit<'r>| #[trigger]
                            entry.describes(
                                name@,
                                Self::shown(store::message_of(tag)),
                                store::committer_of(commit),
                            ),
                        Err(error) => error@.kind == ErrorKind::Store && error@.contexts.len()
                            == 1,
                    },
                },
            },
    {
        let tag = match store::as_tag(obj) {
            Some(tag) => tag,
            None => {
                return Err(Error::new(ErrorKind::Missing, "git object is not a tag"));
            },
        };
        let message = match store::tag_message(tag) {
            Ok(message) => message,
            Err(_) => None,
        };
        assert(Self::text_of(message) == Self::shown(store::message_of(*tag)));
        let tagger = store::tagger(tag);
        match tagger {
            Some(_) => match Self::annotated(name, message, tagger, None) {
                Some(entry) => Ok(entry),
                None => Err(Error::new(ErrorKind::Missing, "git tag does not have a tagger")),
            },
            None => match store::peel_to_commit(obj) {
                Ok(commit) => {
                    let resolved = Some(store::committer(&commit));
                    match Self::annotated(name, message, None, resolved) {
                        Some(entry) => {
                            let res: Result<TagEntry, Error> = Ok(entry);
                            assert(res->Ok_0.describes(
                                name@,
                                Self::shown(store::message_of(*tag)),
                                store::committer_of(commit),
                            ));
                            res
                        },
                        None => Err(
                            Error::new(ErrorKind::Missing, "git tag does not have a tagger"),
                        ),
                    }
                },
                Err(error) => Err(
                    store_failure(error).context("failed to peel object to commit"),
                ),
            },
        }
    }

    /// What is shown for a message that may be missing.
    pub open spec fn shown(message: Option<Seq<char>>) -> Seq<char> {
        match message {
            Some(message) => message,
            None => Seq::empty(),
        }
    }
}

/// What a lookup brings back: what was found, and what came with it.
struct Probe {
    found: Found,
    inner: Option<GitRepository>,
    metadata: Option<String>,
    workdir: Option<String>,
    failure: Option<Error>,
}

/// An open repository. There is no way to hold one for a place that is not
/// strictly below the root it was opened under.
pub struct Repository {
    inner: GitRepository,
    root: String,
    location: String,
    metadata: Option<String>,
    workdir: Option<String>,
}

impl Repository {
    #[verifier::type_invariant]
    spec fn placed(self) -> bool {
        &&& below(self.root@, self.location@)
        &&& self.metadata_at() == store::metadata_of(self.inner)
        &&& self.workdir_at() == store::workdir_of(self.inner)
    }

    /// The root that the repository was opened under.
    pub closed spec fn rooted_in(self) -> Seq<char> {
        self.root@
    }

    /// The canonical path of the repository.
    pub closed spec fn located_at(self) -> Seq<char> {
        self.location@
    }

    /// A path that may be missing, as text.
    pub open spec fn text(path: Option<String>) -> Option<Seq<char>> {
        match path {
            Some(path) => Some(path@),
            None => None,
        }
    }

    /// Where the object store keeps its metadata, if that path is text.
    pub closed spec fn metadata_at(self) -> Option<Seq<char>> {
        Self::text(self.metadata)
    }

    /// Where the working directory of the object store is, if it has one and
    /// that path is text.
    pub closed spec fn workdir_at(self) -> Option<Seq<char>> {
        Self::text(self.workdir)
    }


    /// Whether `location`, a canonical path, is a place where a repository
    /// of the root `root` can be.
    pub fn admits(root: &str, location: &str) -> (res: bool)
        ensures
            res == below(root@, location@),
    {
        is_below(root, location)
    }

    /// What a caller is told by `res`.
    pub open spec fn told(res: Result<Option<Repository>, Error>) -> Answer {
        match res {
            Ok(Some(repo)) => Answer::Handle(repo.located_at()),
            Ok(None) => Answer::Absent,
            Err(_) => Answer::Failure,
        }
    }

    /// Opens the repository `name` below the project root of `config`.
    ///
    /// The answer is `None` where nothing is at that name, where the name
    /// resolves to the root itself or to a place that is not below it, where
    /// no repository is there, and where the repository lacks the file that
    /// marks it as exported: a caller cannot tell these apart. It is an error
    /// where the name is there but does not resolve, and where the object
    /// store is there but does not open.
    ///
    /// What is on disk is looked at first; what is made of it is for `decide`
    /// to say, so the answer is the one that `answer` gives for what is
    /// found.
    pub fn open(config: &Config, name: &str) -> (res: Result<Option<Repository>, Error>)
        ensures
            exists|lookup: Lookup|
                Self::told(res) == #[trigger] answer(config.project_root@, name@, lookup),
            res matches Ok(Some(repo)) ==> repo.rooted_in() == config.project_root@ && below(
                config.project_root@,
                repo.located_at(),
            ),
            name@.len() == 0 ==> res matches Ok(None),
            res matches Err(error) ==> error@.contexts.len() == 1 && (error@.kind
                == ErrorKind::Path || error@.kind == ErrorKind::Store),
    {
        let probe = Self::look_up(config, name);
        let res = match decide(config.project_root.as_str(), name, &probe.found) {
            Verdict::Absent => Ok(None),
            Verdict::Failure => match probe.failure {
                Some(failure) => Err(failure),
                None => Ok(None),
            },
            Verdict::Handle(location) => match probe.inner {
                Some(inner) => Ok(
                    Some(
                        Repository {
                            inner,
                            root: config.project_root.clone(),
                            location,
                            metadata: probe.metadata,
                            workdir: probe.workdir,
                        },
                    ),
                ),
                None => Ok(None),
            },
        };
        assert(Self::told(res) == answer(config.project_root@, name@, probe.found@));
        res
    }

    /// Looks the repository `name` up below the project root of `config`:
    /// asks the disk and the object store, one question after the other, and
    /// stops where the answers so far settle what `decide` will say.
    fn look_up(config: &Config, name: &str) -> (res: Probe)
        ensures
            res.found@.present && res.found@.resolved is None ==> res.failure is Some,
            res.found@.opening is Failed ==> res.failure is Some,
            res.found@.opening is Opened ==> res.inner is Some,
            res.inner matches Some(inner) ==> Self::text(res.metadata) == store::metadata_of(inner)
                && Self::text(res.workdir) == store::workdir_of(inner),
            res.failure matches Some(error) ==> error@.contexts.len() == 1 && (error@.kind
                == ErrorKind::Path || error@.kind == ErrorKind::Store),
    {
        let mut probe = Probe {
            found: Found::nothing(),
            inner: None,
            metadata: None,
            workdir: None,
            failure: None,
        };
        if name.is_empty() {
            return probe;
        }
        let path = join(config.project_root.as_str(), name);
        probe.found.present = is_present(path.as_str());
        if !probe.found.present {
            return probe;
        }
        match canonicalize(path.as_str()) {
            Ok(location) => {
                probe.found.resolved = Some(location);
            },
            Err(reason) => {
                probe.failure = Some(
                    Error::new(ErrorKind::Path, reason.as_str()).context(
                        "failed to canonicalize path",
                    ),
                );
                return probe;
            },
        }
        let (inside, reachable, opened) = match &probe.found.resolved {
            Some(location) => {
                let inside = Self::admits(config.project_root.as_str(), location.as_str());
                let reachable = inside && is_present(location.as_str());
                let opened = if reachable {
                    Some(store::open_store(location.as_str()))
                } else {
                    None
                };
                (inside, reachable, opened)
            },
            None => (false, false, None),
        };
        probe.found.reachable = reachable;
        match opened {
            Some(Ok(inner)) => {
                probe.metadata = store::metadata_path(&inner);
                probe.workdir = store::workdir_path(&inner);
                probe.found.exported = match &probe.metadata {
                    Some(metadata) => is_present(
                        join(metadata.as_str(), config.export_ok.as_str()).as_str(),
                    ),
                    None => false,
                };
                probe.found.opening = Opening::Opened;
                probe.inner = Some(inner);
            },
            Some(Err(error)) => {
                if !store::is_not_found(&error) {
                    probe.found.opening = Opening::Failed;
                    probe.failure = Some(
                        store_failure(error).context("failed to actually open the repo"),
                    );
                }
            },
            None => {},
        }
        probe
    }

    /// The handle of the object store underneath.
    #[must_use]
    pub fn as_inner(&self) -> (res: &GitRepository)
        ensures
            *res == self.store(),
    {
        &self.inner
    }

    /// The handle of the object store underneath.
    pub closed spec fn store(self) -> GitRepository {
        self.inner
    }

    /// The canonical path of the repository, which lies strictly below the
    /// root.
    pub fn location(&self) -> (res: &str)
        ensures
            res@ == self.located_at(),
            below(self.rooted_in(), res@),
    {
        proof {
            use_type_invariant(self);
        }
        self.location.as_str()
    }

    /// The root that the repository was opened under.
    pub fn root(&self) -> (res: &str)
        ensures
            res@ == self.rooted_in(),
    {
        self.root.as_str()
    }
}

} // verus!
