//! Failures of the infrastructure under a request: what went wrong first, and
//! what each layer above was doing when it saw it.

use vstd::prelude::*;

verus! {

/// What kind of thing failed first.
#[derive(Clone, Copy, Debug, PartialEq, Eq, Structural)]
pub enum ErrorKind {
    /// The object store refused an operation.
    Store,
    /// The filesystem refused an operation.
    Path,
    /// A value that had to be there was not.
    Missing,
}

/// A failure with the chain of contexts it passed through, innermost first.
#[must_use]
#[derive(Debug)]
pub struct Error {
    kind: ErrorKind,
    message: String,
    contexts: Vec<String>,
}

/// An `Error` as contracts see it.
pub struct ErrorView {
    pub kind: ErrorKind,
    pub message: Seq<char>,
    pub contexts: Seq<Seq<char>>,
}

impl ErrorView {
    /// This failure, seen from one layer further up.
    pub open spec fn wrapped(self, context: Seq<char>) -> ErrorView {
        ErrorView { contexts: self.contexts.push(context), ..self }
    }

    /// What the failure shows of itself in one line: the outermost context,
    /// or the first message where no layer has added one.
    pub open spec fn headline(self) -> Seq<char> {
        if self.contexts.len() > 0 {
            self.contexts.last()
        } else {
            self.message
        }
    }
}

impl View for Error {
    type V = ErrorView;

    closed spec fn view(&self) -> ErrorView {
        ErrorView {
            kind: self.kind,
            message: self.message@,
            contexts: self.contexts@.map_values(|c: String| c@),
        }
    }
}

impl Error {
    /// A failure of `kind` that no layer has commented on yet.
    pub fn new(kind: ErrorKind, message: &str) -> (res: Error)
        ensures
            res@ == (ErrorView { kind, message: message@, contexts: Seq::empty() }),
    {
        let res = Error { kind, message: message.to_owned(), contexts: Vec::new() };
        assert(res.contexts@.map_values(|c: String| c@) == Seq::<Seq<char>>::empty());
        res
    }

    /// Records what the caller was doing when the failure reached it.
    pub fn context(self, context: &str) -> (res: Error)
        ensures
            res@ == self@.wrapped(context@),
    {
        let mut contexts = self.contexts;
        let ghost before = contexts@;
        let added = context.to_owned();
        contexts.push(added);
        assert(contexts@.map_values(|c: String| c@) == before.map_values(|c: String| c@).push(
            context@,
        ));
        Error { kind: self.kind, message: self.message, contexts }
    }

    /// What kind of thing failed first.
    pub fn kind(&self) -> (res: ErrorKind)
        ensures
            res == self@.kind,
    {
        self.kind
    }

    /// The message of the first failure.
    pub fn message(&self) -> (res: &str)
        ensures
            res@ == self@.message,
    {
        self.message.as_str()
    }

    /// How many layers have added a context.
    pub fn depth(&self) -> (res: usize)
        ensures
            res == self@.contexts.len(),
    {
        self.contexts.len()
    }

    /// The context that layer `i` added, counting from the innermost.
    pub fn context_at(&self, i: usize) -> (res: &str)
        requires
            i < self@.contexts.len(),
        ensures
            res@ == self@.contexts[i as int],
    {
        self.contexts[i].as_str()
    }

    /// The one-line description of the failure.
    pub fn headline(&self) -> (res: &str)
        ensures
            res@ == self@.headline(),
    {
        let n = self.contexts.len();
        if n > 0 {
            self.contexts[n - 1].as_str()
        } else {
            self.message.as_str()
        }
    }
}

/// Hands `error` back unchanged; it exists so that a caller who drops the
/// result is warned.
#[must_use]
#[inline]
pub fn must_use(error: Error) -> (res: Error)
    ensures
        res == error,
{
    error
}

/// Turning "nothing" or a lower layer's failure into an `Error` that says
/// what was being attempted.
pub trait Context<T, E>: Sized {
    /// The value carried, if there is one.
    spec fn carried(self) -> Option<T>;

    /// Whether `error` is a fair account of this value's failure, given the
    /// context `context`.
    spec fn accounts(self, context: Seq<char>, error: ErrorView) -> bool;

    /// Passes a value through; describes its absence with `context`.
    fn context(self, context: &str) -> (res: Result<T, Error>)
        ensures
            match res {
                Ok(value) => self.carried() == Some(value),
                Err(error) => self.carried() is None && self.accounts(context@, error@),
            },
    ;

    /// As `context`, with a description that is only computed on failure.
    fn with_context<F: FnOnce() -> String>(self, context: F) -> (res: Result<T, Error>)
        requires
            context.requires(()),
        ensures
            match res {
                Ok(value) => self.carried() == Some(value),
                Err(error) => self.carried() is None && exists|c: String|
                    context.ensures((), c) && #[trigger] self.accounts(c@, error@),
            },
    ;
}

impl<T> Context<T, ()> for Option<T> {
    open spec fn carried(self) -> Option<T> {
        self
    }

    open spec fn accounts(self, context: Seq<char>, error: ErrorView) -> bool {
        error == (ErrorView { kind: ErrorKind::Missing, message: context, contexts: Seq::empty() })
    }

    fn context(self, context: &str) -> (res: Result<T, Error>) {
        match self {
            Some(value) => Ok(value),
            None => Err(must_use(Error::new(ErrorKind::Missing, context))),
        }
    }

    fn with_context<F: FnOnce() -> String>(self, context: F) -> (res: Result<T, Error>) {
        match self {
            Some(value) => Ok(value),
            None => {
                let described = context();
                let error = must_use(Error::new(ErrorKind::Missing, described.as_str()));
                assert(self.accounts(described@, error@));
                Err(error)
            },
        }
    }
}

impl<T> Context<T, Error> for Result<T, Error> {
    open spec fn carried(self) -> Option<T> {
        match self {
            Ok(value) => Some(value),
            Err(_) => None,
        }
    }

    open spec fn accounts(self, context: Seq<char>, error: ErrorView) -> bool {
        self matches Err(cause) && error == cause@.wrapped(context)
    }

    fn context(self, context: &str) -> (res: Result<T, Error>) {
        match self {
            Ok(value) => Ok(value),
            Err(error) => Err(error.context(context)),
        }
    }

    fn with_context<F: FnOnce() -> String>(self, context: F) -> (res: Result<T, Error>) {
        match self {
            Ok(value) => Ok(value),
            Err(error) => {
                let described = context();
                let wrapped = error.context(described.as_str());
                assert(self.accounts(described@, wrapped@));
                Err(wrapped)
            },
        }
    }
}

} // verus!
