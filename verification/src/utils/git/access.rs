//! Who gets to open what: the decision that `Repository::open` takes, as a
//! function of what the disk and the object store say.

use crate::utils::paths::below;
use crate::utils::paths::is_below;
use vstd::prelude::*;

verus! {

/// How the object store answers the attempt to open it.
#[derive(Clone, Copy, Debug, PartialEq, Eq, Structural)]
pub enum Opening {
    /// It opens.
    Opened,
    /// There is no object store at the place.
    NotThere,
    /// There is one, and it does not open.
    Failed,
}

/// What the disk and the object store say of a name while it is looked up.
/// An answer counts only as far as the lookup gets to ask for it.
pub struct Lookup {
    /// Whether something is at the name.
    pub present: bool,
    /// The canonical path that the name resolves to, if it resolves.
    pub resolved: Option<Seq<char>>,
    /// Whether something is at the canonical path.
    pub reachable: bool,
    /// How the object store at the canonical path answers.
    pub opening: Opening,
    /// Whether the object store holds the file that marks it as exported.
    pub exported: bool,
}

/// What a caller is told of a name.
pub enum Answer {
    /// No such repository.
    Absent,
    /// The infrastructure failed.
    Failure,
    /// The repository at this canonical path.
    Handle(Seq<char>),
}

/// What a caller is told of the repository `name` below `root`, given what
/// the lookup finds. A handle is only given for an exported repository at a
/// place strictly below the root. A failure is only reported for what is
/// there and does not work. Everything else is absent.
pub open spec fn answer(root: Seq<char>, name: Seq<char>, lookup: Lookup) -> Answer {
    if name.len() == 0 || !lookup.present {
        Answer::Absent
    } else {
        match lookup.resolved {
            None => Answer::Failure,
            Some(location) => if !below(root, location) || !lookup.reachable {
                Answer::Absent
            } else {
                match lookup.opening {
                    Opening::NotThere => Answer::Absent,
                    Opening::Failed => Answer::Failure,
                    Opening::Opened => if lookup.exported {
                        Answer::Handle(location)
                    } else {
                        Answer::Absent
                    },
                }
            },
        }
    }
}

/// A handle is only ever given for the place that the name resolves to, and
/// only where that place lies strictly below the root: not for the root
/// itself, and not for anything that a name reaches by going up or through a
/// link that leads out.
pub proof fn lemma_handle_is_below(root: Seq<char>, name: Seq<char>, lookup: Lookup)
    ensures
        answer(root, name, lookup) matches Answer::Handle(location) ==> lookup.resolved == Some(
            location,
        ) && below(root, location) && location != root,
        lookup.resolved matches Some(location) && !below(root, location) ==> answer(
            root,
            name,
            lookup,
        ) is Absent,
{
    if let Some(location) = lookup.resolved {
        crate::utils::paths::lemma_below_is_strict(root, location);
    }
}

/// A repository that is not marked as exported is as absent as one that is
/// not there at all: the answer for it is the answer for a name at which
/// nothing is.
pub proof fn lemma_unexported_is_absent(
    root: Seq<char>,
    name: Seq<char>,
    hidden: Lookup,
    missing: Lookup,
)
    requires
        hidden.opening is Opened,
        hidden.resolved is Some,
        !hidden.exported,
        !missing.present,
    ensures
        answer(root, name, hidden) == answer(root, name, missing),
        answer(root, name, hidden) is Absent,
{
}

/// What the disk and the object store said of a name while it was looked up,
/// as far as they were asked.
#[derive(Debug)]
pub struct Found {
    /// Whether something is at the name.
    pub present: bool,
    /// The canonical path that the name resolves to, if it resolves.
    pub resolved: Option<String>,
    /// Whether something is at the canonical path.
    pub reachable: bool,
    /// How the object store at the canonical path answered.
    pub opening: Opening,
    /// Whether the object store holds the file that marks it as exported.
    pub exported: bool,
}

impl View for Found {
    type V = Lookup;

    open spec fn view(&self) -> Lookup {
        Lookup {
            present: self.present,
            resolved: match self.resolved {
                Some(location) => Some(location@),
                None => None,
            },
            reachable: self.reachable,
            opening: self.opening,
            exported: self.exported,
        }
    }
}

impl Found {
    /// What is found where nothing is looked at: nothing.
    pub fn nothing() -> (res: Found)
        ensures
            res@ == (Lookup {
                present: false,
                resolved: None,
                reachable: false,
                opening: Opening::NotThere,
                exported: false,
            }),
    {
        Found {
            present: false,
            resolved: None,
            reachable: false,
            opening: Opening::NotThere,
            exported: false,
        }
    }
}

/// What a caller is told of a name, to act on.
#[derive(Debug)]
pub enum Verdict {
    /// No such repository.
    Absent,
    /// The infrastructure failed.
    Failure,
    /// The repository at this canonical path.
    Handle(String),
}

impl View for Verdict {
    type V = Answer;

    open spec fn view(&self) -> Answer {
        match self {
            Verdict::Absent => Answer::Absent,
            Verdict::Failure => Answer::Failure,
            Verdict::Handle(location) => Answer::Handle(location@),
        }
    }
}

/// Decides what a caller is told of the repository `name` below `root`, given
/// what was found. In particular a repository that is not marked as exported
/// is absent, as one that is not there is; and a handle is given for no place
/// but one strictly below the root.
pub fn decide(root: &str, name: &str, found: &Found) -> (res: Verdict)
    ensures
        res@ == answer(root@, name@, found@),
{
    if name.is_empty() || !found.present {
        return Verdict::Absent;
    }
    let location = match &found.resolved {
        Some(location) => location,
        None => {
            return Verdict::Failure;
        },
    };
    if !is_below(root, location.as_str()) || !found.reachable {
        return Verdict::Absent;
    }
    match found.opening {
        Opening::NotThere => Verdict::Absent,
        Opening::Failed => Verdict::Failure,
        Opening::Opened => if found.exported {
            Verdict::Handle(location.clone())
        } else {
            Verdict::Absent
        },
    }
}

} // verus!
