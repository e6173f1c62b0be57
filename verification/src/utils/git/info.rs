//! What a repository says of itself.

use crate::utils::error::Error;
use crate::utils::error::ErrorKind;
use crate::utils::error::ErrorView;
use crate::utils::git::store;
use crate::utils::git::store_failure;
use crate::utils::git::Repository;
use crate::utils::media::escape_html;
use crate::utils::media::escaped;
use crate::utils::paths::file_name;
use crate::utils::paths::last_component;
use crate::utils::text::chars_of;
use crate::utils::text::find;
use crate::utils::text::from_utf8;
use crate::utils::text::string_of;
use crate::utils::text::until;
use git2::Commit as GitCommit;
use git2::Object as GitObject;
use git2::Reference as GitReference;
use git2::Time as GitTime;
use vstd::prelude::*;
use vstd::string::StringExecFns;

verus! {

/// The first line of `content`: what comes before its first line feed, and
/// before the carriage return in front of that line feed if there is one;
/// the whole of `content` where it has no line feed.
pub open spec fn first_line_of(content: Seq<char>) -> Seq<char> {
    let end = until(content, '\n');
    if 0 < end < content.len() && content[end - 1] == '\r' {
        content.take(end - 1)
    } else {
        content.take(end)
    }
}

/// The first line of `content`.
pub fn first_line(content: &str) -> (res: String)
    ensures
        res@ == first_line_of(content@),
{
    let chars = chars_of(content);
    let i = find(&chars, '\n');
    let end = if 0 < i && i < chars.len() && chars[i - 1] == '\r' {
        i - 1
    } else {
        i
    };
    assert(chars@.subrange(0, end as int) == chars@.take(end as int));
    string_of(&chars, 0, end)
}

/// The spec to work from: the ref that was asked for, or the short name of
/// the head where none was; an error where neither is to be had.
pub fn pick_spec(asked: Option<&str>, head: Option<String>) -> (res: Result<String, Error>)
    ensures
        match (asked, head) {
            (Some(r), _) => res matches Ok(spec) && spec@ == r@,
            (None, Some(short)) => res matches Ok(spec) && spec@ == short@,
            (None, None) => res matches Err(error) && error@ == (ErrorView {
                kind: ErrorKind::Missing,
                message: "failed to get repo ref spec"@,
                contexts: Seq::empty(),
            }),
        },
{
    match asked {
        Some(r) => Ok(r.to_owned()),
        None => match head {
            Some(short) => Ok(short),
            None => Err(Error::new(ErrorKind::Missing, "failed to get repo ref spec")),
        },
    }
}

/// How a readme is written.
#[derive(Clone, Copy, Debug, PartialEq, Eq, Structural)]
pub enum ReadmeFormat {
    Plaintext,
    Markdown,
    Html,
}

/// How many file names are tried for a readme.
pub const README_CANDIDATES: usize = 12;

/// The `i`-th file name that is tried for a readme. An earlier name wins over
/// a later one.
pub open spec fn candidate_name(i: int) -> Seq<char> {
    if i == 0 {
        "readme"@
    } else if i == 1 {
        "README.txt"@
    } else if i == 2 {
        "readme.txt"@
    } else if i == 3 {
        "readme.md"@
    } else if i == 4 {
        "README.mdown"@
    } else if i == 5 {
        "readme.mdown"@
    } else if i == 6 {
        "readme.markdown"@
    } else if i == 7 {
        "README.markdown"@
    } else if i == 8 {
        "readme.html"@
    } else if i == 9 {
        "README.html"@
    } else if i == 10 {
        "readme.htm"@
    } else {
        "README.htm"@
    }
}

/// How the readme under the `i`-th name is written: the names without an
/// extension and those that end in `.txt` are plain text, those that end in
/// `.md`, `.mdown` or `.markdown` are Markdown, the rest is HTML.
pub open spec fn candidate_format(i: int) -> ReadmeFormat {
    if i < 3 {
        ReadmeFormat::Plaintext
    } else if i < 8 {
        ReadmeFormat::Markdown
    } else {
        ReadmeFormat::Html
    }
}

/// The `i`-th file name that is tried for a readme, and how a readme of that
/// name is written.
pub fn candidate(i: usize) -> (res: (&'static str, ReadmeFormat))
    requires
        i < README_CANDIDATES,
    ensures
        res.0@ == candidate_name(i as int),
        res.1 == candidate_format(i as int),
{
    if i == 0 {
        ("readme", ReadmeFormat::Plaintext)
    } else if i == 1 {
        ("README.txt", ReadmeFormat::Plaintext)
    } else if i == 2 {
        ("readme.txt", ReadmeFormat::Plaintext)
    } else if i == 3 {
        ("readme.md", ReadmeFormat::Markdown)
    } else if i == 4 {
        ("README.mdown", ReadmeFormat::Markdown)
    } else if i == 5 {
        ("readme.mdown", ReadmeFormat::Markdown)
    } else if i == 6 {
        ("readme.markdown", ReadmeFormat::Markdown)
    } else if i == 7 {
        ("README.markdown", ReadmeFormat::Markdown)
    } else if i == 8 {
        ("readme.html", ReadmeFormat::Html)
    } else if i == 9 {
        ("README.html", ReadmeFormat::Html)
    } else if i == 10 {
        ("readme.htm", ReadmeFormat::Html)
    } else {
        ("README.htm", ReadmeFormat::Html)
    }
}

/// The first of `found` that is there, with its position.
pub fn first_found<T>(found: Vec<Option<T>>) -> (res: Option<(usize, T)>)
    ensures
        match res {
            Some((i, item)) => i < found.len() && found[i as int] == Some(item) && forall|j: int|
                0 <= j < i ==> found[j] is None,
            None => forall|j: int| 0 <= j < found.len() ==> found[j] is None,
        },
{
    let mut rest = found;
    let mut i: usize = 0;
    while i < rest.len()
        invariant
            i <= rest.len(),
            rest@ == found@,
            forall|j: int| 0 <= j < i ==> found@[j] is None,
        decreases rest.len() - i,
    {
        if rest[i].is_some() {
            let item = rest.remove(i);
            return Some((i, item.unwrap()));
        }
        i = i + 1;
    }
    None
}

/// The readme of a repository.
pub struct Readme {
    /// How the readme was written.
    pub format: ReadmeFormat,
    /// What to show for it: the page itself, unless the readme was written
    /// in Markdown; then its source, which is yet to be rendered.
    pub body: String,
}

/// What is shown for a readme with the content `text`, written as `format`
/// says. Plain text is escaped and set as preformatted text; HTML and
/// Markdown are taken as they are.
pub open spec fn readme_body(format: ReadmeFormat, text: Seq<char>) -> Seq<char> {
    match format {
        ReadmeFormat::Plaintext => "<pre>"@ + escaped(text) + "</pre>"@,
        ReadmeFormat::Html => text,
        ReadmeFormat::Markdown => text,
    }
}

/// Makes of the content of a readme what is shown for it.
pub fn render_readme(format: ReadmeFormat, text: String) -> (res: Readme)
    ensures
        res.format == format,
        res.body@ == readme_body(format, text@),
{
    match format {
        ReadmeFormat::Plaintext => {
            let mut page = String::from_str("<pre>");
            page.append(escape_html(text.as_str()).as_str());
            page.append("</pre>");
            Readme { format, body: page }
        },
        ReadmeFormat::Html => Readme { format, body: text },
        ReadmeFormat::Markdown => Readme { format, body: text },
    }
}

impl Repository {
    /// The description of a repository whose description file holds
    /// `content`: the first line of it.
    #[must_use]
    pub fn description(content: &str) -> (res: String)
        ensures
            res@ == first_line_of(content@),
    {
        first_line(content)
    }

    /// The reference that the head of the repository points to.
    pub fn head(&self) -> (res: Result<GitReference<'_>, Error>)
        ensures
            res matches Err(error) ==> error@.kind == ErrorKind::Store && error@.contexts.len()
                == 0,
    {
        match store::store_head(&self.inner) {
            Ok(head) => Ok(head),
            Err(error) => Err(store_failure(error)),
        }
    }

    /// Whether the repository holds no commit yet.
    pub fn is_empty(&self) -> (res: Result<bool, Error>)
        ensures
            res matches Err(error) ==> error@.kind == ErrorKind::Store && error@.contexts.len()
                == 0,
    {
        match store::store_is_empty(&self.inner) {
            Ok(empty) => Ok(empty),
            Err(error) => Err(store_failure(error)),
        }
    }

    /// Whether the repository holds only the newest part of its history.
    #[must_use]
    pub fn is_shallow(&self) -> (res: bool) {
        store::store_is_shallow(&self.inner)
    }

    /// When the commit at the head was committed.
    pub fn last_modified<'r>(&'r self) -> (res: Result<GitTime, Error>)
        ensures
            res matches Ok(time) ==> exists|commit: GitCommit<'r>| time == store::time_of(
                #[trigger] store::committer_of(commit),
            ),
            res matches Err(error) ==> error@.kind == ErrorKind::Store && error@.contexts.len()
                == 0,
    {
        let head = self.head()?;
        match store::reference_commit(&head) {
            Ok(commit) => {
                let time = store::signed_at(&store::committer(&commit));
                assert(time == store::time_of(store::committer_of(commit)));
                Ok(time)
            },
            Err(error) => Err(store_failure(error)),
        }
    }

    /// The name of a repository whose working directory and metadata are
    /// kept at these paths: the last component of the path of the working
    /// directory, or of the metadata directory where there is no working
    /// directory.
    pub open spec fn named(workdir: Option<Seq<char>>, metadata: Option<Seq<char>>) -> Option<
        Seq<char>,
    > {
        match workdir {
            Some(path) => last_component(path),
            None => match metadata {
                Some(path) => last_component(path),
                None => None,
            },
        }
    }

    /// The name of the repository: the last component of the path of its
    /// working directory, or of its metadata directory where it is bare, as
    /// the object store told these paths when the repository was opened.
    pub fn name(&self) -> (res: Option<String>)
        ensures
            match res {
                Some(name) => Self::named(self.workdir_at(), self.metadata_at()) == Some(name@),
                None => Self::named(self.workdir_at(), self.metadata_at()) is None,
            },
            res matches Some(name) ==> name@.len() > 0 && !name@.contains('/'),
            self.workdir_at() == store::workdir_of(self.store()),
            self.metadata_at() == store::metadata_of(self.store()),
    {
        proof {
            use_type_invariant(self);
        }
        match &self.workdir {
            Some(path) => file_name(path.as_str()),
            None => match &self.metadata {
                Some(path) => file_name(path.as_str()),
                None => None,
            },
        }
    }

    /// Who owns the repository, as its configuration says under
    /// `gitweb.owner`; nobody where it says nothing.
    #[must_use]
    pub fn owner(&self) -> (res: String) {
        let config = match store::store_config(&self.inner) {
            Ok(config) => config,
            Err(_) => {
                return String::new();
            },
        };
        match store::config_string(&config, "gitweb.owner") {
            Ok(owner) => owner,
            Err(_) => String::new(),
        }
    }

    /// Where the repository keeps its metadata, if that path is text: what
    /// the object store told when the repository was opened.
    #[must_use]
    pub fn path(&self) -> (res: Option<String>)
        ensures
            match res {
                Some(path) => self.metadata_at() == Some(path@),
                None => self.metadata_at() is None,
            },
            self.metadata_at() == store::metadata_of(self.store()),
    {
        proof {
            use_type_invariant(self);
        }
        self.metadata.clone()
    }

    /// The readme at the root of the commit at the head: the first of the
    /// candidate names that is there decides. `None` where none is there or
    /// where what is there is no file; a file that is no text counts as an
    /// empty one.
    #[must_use]
    pub fn readme(&self) -> (res: Option<Readme>)
        ensures
            res matches Some(readme) ==> exists|text: Seq<char>| readme.body@ == #[trigger] readme_body(
                readme.format,
                text,
            ),
    {
        let mut found: Vec<Option<GitObject<'_>>> = Vec::new();
        let mut i: usize = 0;
        while i < README_CANDIDATES
            invariant
                i <= README_CANDIDATES,
                found.len() == i,
            decreases README_CANDIDATES - i,
        {
            let mut spec = String::from_str("HEAD:");
            spec.append(candidate(i).0);
            found.push(store::revparse_single(&self.inner, spec.as_str()).ok());
            i = i + 1;
        }
        let (position, object) = match first_found(found) {
            Some(first) => first,
            None => {
                return None;
            },
        };
        let blob = match store::into_blob(object) {
            Ok(blob) => blob,
            Err(_) => {
                return None;
            },
        };
        let text = match from_utf8(store::blob_content(&blob)) {
            Some(text) => text,
            None => String::new(),
        };
        let ghost content = text@;
        let readme = render_readme(candidate(position).1, text);
        assert(readme.body@ == readme_body(readme.format, content));
        Some(readme)
    }

    /// The spec to work from: `r` where one is given, the short name of the
    /// head otherwise. It is an error where the head cannot be read, with or
    /// without an `r`.
    pub fn ref_or_head_shorthand<'r>(&'r self, r: Option<&str>) -> (res: Result<String, Error>)
        ensures
            res matches Ok(spec) ==> match r {
                Some(given) => spec@ == given@,
                None => exists|head: GitReference<'r>| #[trigger]
                    store::shorthand_of(head) == Some(spec@),
            },
            res matches Err(error) ==> error@.contexts.len() == 0 && (error@.kind
                == ErrorKind::Store || (error@.kind == ErrorKind::Missing && r is None)),
    {
        let head = self.head()?;
        let short = match r {
            Some(_) => None,
            None => store::shorthand(&head).ok(),
        };
        let res = pick_spec(r, short);
        assert(r is None && res is Ok ==> store::shorthand_of(head) == Some(res->Ok_0@));
        res
    }
}

} // verus!
