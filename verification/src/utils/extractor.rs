//! The parameters of a request, each checked before anything is looked up
//! with it.

use crate::utils::text::chars_of;
use crate::utils::text::same_text;
use crate::utils::text::trim_in_place;
use crate::utils::text::trimmed;
use crate::utils::Error;
use crate::utils::response::NOT_FOUND;
use vstd::prelude::*;

verus! {

/// Whether `c` is a digit of a lower-case hexadecimal number.
pub open spec fn is_hex(c: char) -> bool {
    '0' <= c <= '9' || 'a' <= c <= 'f'
}

/// Whether `s` is empty or begins with a dot.
pub open spec fn empty_or_dotted(s: Seq<char>) -> bool {
    s.len() == 0 || s[0] == '.'
}

/// What may name a repository or a ref: something that does not begin with a
/// dot.
pub open spec fn valid_name(s: Seq<char>) -> bool {
    !empty_or_dotted(s)
}

/// What may name a commit: one lower-case hexadecimal digit or more, and
/// nothing else.
pub open spec fn valid_commit(s: Seq<char>) -> bool {
    s.len() > 0 && forall|i: int| 0 <= i < s.len() ==> is_hex(#[trigger] s[i])
}

/// What may name an object, a path in a tree or a tag: anything but nothing.
pub open spec fn valid_text(s: Seq<char>) -> bool {
    s.len() > 0
}

/// Decides `valid_name`.
pub fn check_name(s: &str) -> (res: bool)
    ensures
        res == valid_name(s@),
{
    let chars = chars_of(s);
    chars.len() > 0 && chars[0] != '.'
}

/// Decides `valid_commit`.
pub fn check_commit(s: &str) -> (res: bool)
    ensures
        res == valid_commit(s@),
{
    let chars = chars_of(s);
    if chars.len() == 0 {
        return false;
    }
    let mut i: usize = 0;
    while i < chars.len()
        invariant
            i <= chars.len(),
            chars@ == s@,
            forall|j: int| 0 <= j < i ==> is_hex(#[trigger] chars@[j]),
        decreases chars.len() - i,
    {
        let c = chars[i];
        if !((c >= '0' && c <= '9') || (c >= 'a' && c <= 'f')) {
            return false;
        }
        i = i + 1;
    }
    true
}

/// Decides `valid_text`.
pub fn check_text(s: &str) -> (res: bool)
    ensures
        res == valid_text(s@),
{
    !s.is_empty()
}

/// The value of the first parameter called `name`, if there is one.
pub open spec fn param_value(params: Seq<(String, String)>, name: Seq<char>) -> Option<Seq<char>>
    decreases params.len(),
{
    if params.len() == 0 {
        None
    } else if params[0].0@ == name {
        Some(params[0].1@)
    } else {
        param_value(params.drop_first(), name)
    }
}

/// Looks `name` up among the parameters of a request.
pub fn get_param<'x>(params: &'x Vec<(String, String)>, name: &str) -> (res: Option<&'x str>)
    ensures
        match res {
            Some(value) => param_value(params@, name@) == Some(value@),
            None => param_value(params@, name@) is None,
        },
{
    let mut i: usize = 0;
    assert(params@.skip(0) == params@);
    while i < params.len()
        invariant
            i <= params.len(),
            param_value(params@, name@) == param_value(params@.skip(i as int), name@),
        decreases params.len() - i,
    {
        assert(params@.skip(i as int).drop_first() == params@.skip(i + 1));
        if same_text(params[i].0.as_str(), name) {
            return Some(params[i].1.as_str());
        }
        i = i + 1;
    }
    None
}

/// The id of a commit, as a request names it.
#[derive(Debug, Clone)]
pub struct Commit(pub String);

/// The path of a file under a repository's metadata, as a request names it.
#[derive(Debug, Clone)]
pub struct Obj(pub String);

/// The path of an entry in a tree, as a request names it.
#[derive(Debug, Clone)]
pub struct ObjectName(pub String);

/// A ref, as a request names it.
#[derive(Debug, Clone)]
pub struct Ref(pub String);

/// A repository, as a request names it.
#[derive(Debug, Clone)]
pub struct RepoName(pub String);

/// A tag, as a request names it.
#[derive(Debug, Clone)]
pub struct Tag(pub String);

impl Commit {
    /// Accepts `value`, white space at its ends aside, where it may name a
    /// commit.
    pub fn parse(value: String) -> (res: Result<Commit, &'static str>)
        ensures
            match res {
                Ok(commit) => valid_commit(trimmed(value@)) && commit.0@ == trimmed(value@),
                Err(reason) => !valid_commit(trimmed(value@)) && reason@ == "invalid commit ref"@,
            },
    {
        let mut value = value;
        trim_in_place(&mut value);
        if check_commit(value.as_str()) {
            Ok(Commit(value))
        } else {
            Err("invalid commit ref")
        }
    }

    /// The commit that the parameter `raw` names, which has to be there and
    /// to be a valid name; what to answer otherwise.
    pub fn from_param(raw: Option<&str>) -> (res: Result<Commit, Error>)
        ensures
            match res {
                Ok(commit) => raw matches Some(r) && valid_commit(r@) && commit.0@ == r@,
                Err(error) => error.status() == NOT_FOUND && !(raw matches Some(r) && valid_commit(
                    r@,
                )),
            },
    {
        match raw {
            None => Err(Error::new(NOT_FOUND, "page not found")),
            Some(raw) => if check_commit(raw) {
                Ok(Commit(raw.to_owned()))
            } else {
                Err(Error::new(NOT_FOUND, "commit does not exist in repo"))
            },
        }
    }

    pub fn as_str(&self) -> (res: &str)
        ensures
            res@ == self.0@,
    {
        self.0.as_str()
    }
}

impl Obj {
    /// Accepts `value`, white space at its ends aside, unless nothing is left.
    pub fn parse(value: String) -> (res: Result<Obj, &'static str>)
        ensures
            match res {
                Ok(obj) => valid_text(trimmed(value@)) && obj.0@ == trimmed(value@),
                Err(reason) => !valid_text(trimmed(value@)) && reason@ == "invalid object ref"@,
            },
    {
        let mut value = value;
        trim_in_place(&mut value);
        if check_text(value.as_str()) {
            Ok(Obj(value))
        } else {
            Err("invalid object ref")
        }
    }

    /// The object that the parameter `raw` names, which has to be there and
    /// not to be empty; what to answer otherwise.
    pub fn from_param(raw: Option<&str>) -> (res: Result<Obj, Error>)
        ensures
            match res {
                Ok(obj) => raw matches Some(r) && valid_text(r@) && obj.0@ == r@,
                Err(error) => error.status() == NOT_FOUND && !(raw matches Some(r) && valid_text(
                    r@,
                )),
            },
    {
        match raw {
            None => Err(Error::new(NOT_FOUND, "page not found")),
            Some(raw) => if check_text(raw) {
                Ok(Obj(raw.to_owned()))
            } else {
                Err(Error::new(NOT_FOUND, "object does not exist in repo"))
            },
        }
    }

    pub fn as_str(&self) -> (res: &str)
        ensures
            res@ == self.0@,
    {
        self.0.as_str()
    }
}

impl ObjectName {
    /// Accepts `value`, white space at its ends aside, unless nothing is left.
    pub fn parse(value: String) -> (res: Result<ObjectName, &'static str>)
        ensures
            match res {
                Ok(name) => valid_text(trimmed(value@)) && name.0@ == trimmed(value@),
                Err(reason) => !valid_text(trimmed(value@)) && reason@ == "invalid object name"@,
            },
    {
        let mut value = value;
        trim_in_place(&mut value);
        if check_text(value.as_str()) {
            Ok(ObjectName(value))
        } else {
            Err("invalid object name")
        }
    }

    /// The path that the parameter `raw` names, which has to be there and not
    /// to be empty; what to answer otherwise.
    pub fn from_param(raw: Option<&str>) -> (res: Result<ObjectName, Error>)
        ensures
            match res {
                Ok(name) => raw matches Some(r) && valid_text(r@) && name.0@ == r@,
                Err(error) => error.status() == NOT_FOUND && !(raw matches Some(r) && valid_text(
                    r@,
                )),
            },
    {
        match raw {
            None => Err(Error::new(NOT_FOUND, "page not found")),
            Some(raw) => if check_text(raw) {
                Ok(ObjectName(raw.to_owned()))
            } else {
                Err(Error::new(NOT_FOUND, "object does not exist in repo"))
            },
        }
    }

    pub fn as_str(&self) -> (res: &str)
        ensures
            res@ == self.0@,
    {
        self.0.as_str()
    }
}

impl Ref {
    /// Accepts `value`, white space at its ends aside, where it may name a
    /// ref.
    pub fn parse(value: String) -> (res: Result<Ref, &'static str>)
        ensures
            match res {
                Ok(r) => valid_name(trimmed(value@)) && r.0@ == trimmed(value@),
                Err(reason) => !valid_name(trimmed(value@)) && reason@ == "invalid ref"@,
            },
    {
        let mut value = value;
        trim_in_place(&mut value);
        if check_name(value.as_str()) {
            Ok(Ref(value))
        } else {
            Err("invalid ref")
        }
    }

    /// The ref that the parameter `raw` names, which has to be there and to
    /// be a valid name; what to answer otherwise.
    pub fn from_param(raw: Option<&str>) -> (res: Result<Ref, Error>)
        ensures
            match res {
                Ok(name) => raw matches Some(r) && valid_name(r@) && name.0@ == r@,
                Err(error) => error.status() == NOT_FOUND && !(raw matches Some(r) && valid_name(
                    r@,
                )),
            },
    {
        match raw {
            None => Err(Error::new(NOT_FOUND, "page not found")),
            Some(raw) => if check_name(raw) {
                Ok(Ref(raw.to_owned()))
            } else {
                Err(Error::new(NOT_FOUND, "ref does not exist in repo"))
            },
        }
    }

    pub fn as_str(&self) -> (res: &str)
        ensures
            res@ == self.0@,
    {
        self.0.as_str()
    }
}

impl RepoName {
    /// Accepts `value`, white space at its ends aside, where it may name a
    /// repository.
    pub fn parse(value: String) -> (res: Result<RepoName, &'static str>)
        ensures
            match res {
                Ok(name) => valid_name(trimmed(value@)) && name.0@ == trimmed(value@),
                Err(reason) => !valid_name(trimmed(value@)) && reason@ == "invalid repo name"@,
            },
    {
        let mut value = value;
        trim_in_place(&mut value);
        if check_name(value.as_str()) {
            Ok(RepoName(value))
        } else {
            Err("invalid repo name")
        }
    }

    /// The repository that the parameter `raw` names, which has to be there
    /// and to be a valid name; what to answer otherwise.
    pub fn from_param(raw: Option<&str>) -> (res: Result<RepoName, Error>)
        ensures
            match res {
                Ok(name) => raw matches Some(r) && valid_name(r@) && name.0@ == r@,
                Err(error) => error.status() == NOT_FOUND && !(raw matches Some(r) && valid_name(
                    r@,
                )),
            },
    {
        match raw {
            None => Err(Error::new(NOT_FOUND, "page not found")),
            Some(raw) => if check_name(raw) {
                Ok(RepoName(raw.to_owned()))
            } else {
                Err(Error::new(NOT_FOUND, "repo does not exist"))
            },
        }
    }

    pub fn as_str(&self) -> (res: &str)
        ensures
            res@ == self.0@,
    {
        self.0.as_str()
    }
}

impl Tag {
    /// Accepts `value`, white space at its ends aside, unless nothing is left.
    pub fn parse(value: String) -> (res: Result<Tag, &'static str>)
        ensures
            match res {
                Ok(tag) => valid_text(trimmed(value@)) && tag.0@ == trimmed(value@),
                Err(reason) => !valid_text(trimmed(value@)) && reason@ == "invalid tag"@,
            },
    {
        let mut value = value;
        trim_in_place(&mut value);
        if check_text(value.as_str()) {
            Ok(Tag(value))
        } else {
            Err("invalid tag")
        }
    }

    /// The tag that the parameter `raw` names, which has to be there and not
    /// to be empty; what to answer otherwise.
    pub fn from_param(raw: Option<&str>) -> (res: Result<Tag, Error>)
        ensures
            match res {
                Ok(tag) => raw matches Some(r) && valid_text(r@) && tag.0@ == r@,
                Err(error) => error.status() == NOT_FOUND && !(raw matches Some(r) && valid_text(
                    r@,
                )),
            },
    {
        match raw {
            None => Err(Error::new(NOT_FOUND, "page not found")),
            Some(raw) => if check_text(raw) {
                Ok(Tag(raw.to_owned()))
            } else {
                Err(Error::new(NOT_FOUND, "tag does not exist in repo"))
            },
        }
    }

    pub fn as_str(&self) -> (res: &str)
        ensures
            res@ == self.0@,
    {
        self.0.as_str()
    }
}

/// Passes a repository name that is valid once the white space at its ends
/// is set aside.
pub fn repo_name_checks(name: &str) -> (res: Result<(), Error>)
    ensures
        res is Ok <==> valid_name(trimmed(name@)),
        res matches Err(error) ==> error.status() == NOT_FOUND,
{
    match RepoName::parse(name.to_owned()) {
        Ok(_) => Ok(()),
        Err(_) => Err(Error::new(NOT_FOUND, "repo does not exist")),
    }
}

/// Passes a commit id that is valid once the white space at its ends is set
/// aside.
pub fn commit_checks(name: &str) -> (res: Result<(), Error>)
    ensures
        res is Ok <==> valid_commit(trimmed(name@)),
        res matches Err(error) ==> error.status() == NOT_FOUND,
{
    match Commit::parse(name.to_owned()) {
        Ok(_) => Ok(()),
        Err(_) => Err(Error::new(NOT_FOUND, "commit does not exist in repo")),
    }
}

} // verus!
