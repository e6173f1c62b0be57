//! One page of a log, and the spec under which the next page is found.

use crate::utils::error::Context;
use crate::utils::error::Error;
use crate::utils::error::ErrorKind;
use crate::utils::git::Repository;
use crate::utils::text::chars_of;
use crate::utils::text::decimal;
use crate::utils::text::is_digit;
use crate::utils::text::last_index_of;
use crate::utils::text::lemma_decimal_denotes;
use crate::utils::text::lemma_decimal_parses;
use crate::utils::text::lemma_last_index_is;
use crate::utils::text::lemma_last_index_of;
use crate::utils::text::parse_number;
use crate::utils::text::parsed_number;
use crate::utils::text::push_decimal;
use crate::utils::text::rfind;
use crate::utils::text::string_of;
use git2::Commit as GitCommit;
use vstd::prelude::*;

verus! {

/// Where the count at the end of a spec begins, and the count: a spec
/// counts where it ends in a tilde and one digit or more, with a value that a
/// `usize` holds. A spec that ends in anything else does not count, whatever
/// tildes it holds further to the front.
pub open spec fn trailing_count(spec: Seq<char>) -> Option<(int, usize)> {
    match last_index_of(spec, '~') {
        Some(i) => match parsed_number(spec.skip(i + 1)) {
            Some(n) => Some((i, n)),
            None => None,
        },
        None => None,
    }
}

/// What a spec counts back from: what stands before the tilde of its count,
/// or the whole of it where it does not end in a count.
pub open spec fn stem_of(spec: Seq<char>) -> Seq<char> {
    match trailing_count(spec) {
        Some((i, _)) => spec.take(i),
        None => spec,
    }
}

/// How many generations a spec counts back from its stem: the count it ends
/// in, or none.
pub open spec fn reach_of(spec: Seq<char>) -> nat {
    match trailing_count(spec) {
        Some((_, n)) => n as nat,
        None => 0,
    }
}

/// The spec that names the commit `per_page` generations behind the one that
/// `spec` names. A spec that ends in a tilde and a number has that number
/// raised by `per_page`; any other spec gets `~` and `per_page` appended to
/// the whole of it.
pub open spec fn next_cursor(spec: Seq<char>, per_page: usize) -> Seq<char> {
    stem_of(spec) + seq!['~'] + decimal((reach_of(spec) + per_page) as nat)
}

/// A spec that ends in a count is its stem, a tilde and the count, so the
/// spec of its next page is the text up to and including that tilde, and the
/// count raised by `per_page`.
pub proof fn lemma_cursor_of_count(spec: Seq<char>, per_page: usize)
    ensures
        match trailing_count(spec) {
            Some((i, n)) => next_cursor(spec, per_page) == spec.take(i + 1) + decimal(
                (n + per_page) as nat,
            ),
            None => next_cursor(spec, per_page) == spec + seq!['~'] + decimal(per_page as nat),
        },
{
    if let Some((i, n)) = trailing_count(spec) {
        lemma_last_index_of(spec, '~');
        assert(spec.take(i + 1) == spec.take(i) + seq!['~']);
    }
}

/// The spec of the next page counts back from the same stem, and one page
/// further: so the page after the page after `spec` lies two pages behind
/// `spec`, and so on. This holds as long as the count is a number that the
/// spec of the page after that can still be read with.
pub proof fn lemma_cursor_advances(spec: Seq<char>, per_page: usize)
    requires
        reach_of(spec) + per_page <= usize::MAX,
    ensures
        stem_of(next_cursor(spec, per_page)) == stem_of(spec),
        reach_of(next_cursor(spec, per_page)) == reach_of(spec) + per_page,
{
    let stem = stem_of(spec);
    let count = (reach_of(spec) + per_page) as usize;
    let digits = decimal(count as nat);
    let next = next_cursor(spec, per_page);
    lemma_decimal_denotes(count as nat);
    lemma_decimal_parses(count);
    assert(next[stem.len() as int] == '~');
    assert forall|j: int| stem.len() < j < next.len() implies next[j] != '~' by {
        assert(next[j] == digits[j - stem.len() - 1]);
        assert(is_digit(digits[j - stem.len() - 1]));
    }
    lemma_last_index_is(next, '~', stem.len() as int);
    assert(next.take(stem.len() as int) == stem);
    assert(next.skip(stem.len() as int + 1) == digits);
}

/// Whether a page of `per_page` has a successor, given that `received`
/// commits came back when one more than `per_page` was asked for. A shallow
/// repository has no history to page through.
pub open spec fn has_next_page(received: nat, per_page: usize, shallow: bool) -> bool {
    !shallow && received > per_page
}

/// Where one commit more than fits on a page was asked for and as many came
/// back, the page has a successor; where no more than fit came back, it has
/// none.
pub proof fn lemma_lookahead_tells(received: nat, per_page: usize)
    ensures
        received == per_page + 1 ==> has_next_page(received, per_page, false),
        received <= per_page ==> !has_next_page(received, per_page, false),
        !has_next_page(received, per_page, true),
{
}

/// Computes `next_cursor`.
pub fn next_page_spec(spec: &str, per_page: usize) -> (res: String)
    ensures
        res@ == next_cursor(spec@, per_page),
{
    let chars = chars_of(spec);
    let mut out: Vec<char> = Vec::new();
    let counted = match rfind(&chars, '~') {
        Some(i) => {
            proof {
                lemma_last_index_of(chars@, '~');
            }
            match parse_number(&chars, i + 1) {
                Some(n) => Some((i, n)),
                None => None,
            }
        },
        None => None,
    };
    let (stem, offset): (usize, u128) = match counted {
        Some((i, n)) => (i, n as u128 + per_page as u128),
        None => (chars.len(), per_page as u128),
    };
    let mut i: usize = 0;
    while i < stem
        invariant
            i <= stem <= chars.len(),
            out@ == chars@.take(i as int),
        decreases stem - i,
    {
        out.push(chars[i]);
        i = i + 1;
    }
    out.push('~');
    push_decimal(&mut out, offset);
    assert(chars@.take(chars.len() as int) == chars@);
    assert(out@.subrange(0, out.len() as int) == out@);
    string_of(&out, 0, out.len())
}

/// How many commits to ask for so that it shows whether a page of
/// `per_page` has a successor: one more, where there is such a number.
pub fn lookahead(per_page: usize) -> (res: usize)
    ensures
        res == if per_page < usize::MAX {
            per_page + 1
        } else {
            per_page as int
        },
{
    if per_page < usize::MAX {
        per_page + 1
    } else {
        per_page
    }
}

/// One page of a listing, and the spec of the page after it.
pub struct Page<T> {
    pub items: Vec<T>,
    pub next: Option<String>,
}

/// Cuts a page of `per_page` items out of `items`, the items that a request
/// for one more than `per_page` was answered with.
///
/// There is a next page exactly where more than `per_page` items came back
/// and the repository is not shallow; it is then found under
/// `next_cursor(spec, per_page)`. The page holds the items without the one
/// that was only asked for to see whether there are more.
pub fn paginate<T>(items: Vec<T>, spec: &str, per_page: usize, shallow: bool) -> (res: Page<T>)
    ensures
        res.items@ == if items.len() > per_page {
            items@.take(per_page as int)
        } else {
            items@
        },
        res.next is Some <==> has_next_page(items.len() as nat, per_page, shallow),
        res.next matches Some(cursor) ==> cursor@ == next_cursor(spec@, per_page),
{
    let mut items = items;
    if items.len() > per_page {
        items.truncate(per_page);
        let next = if shallow {
            None
        } else {
            Some(next_page_spec(spec, per_page))
        };
        Page { items, next }
    } else {
        Page { items, next: None }
    }
}

/// One page of the log of a repository.
pub struct LogPage<'repo> {
    /// The commits of the page, newest first.
    pub commits: Vec<GitCommit<'repo>>,
    /// The spec that the log starts from.
    pub branch: String,
    /// The spec that the next page starts from, if there is a next page.
    pub next_page: Option<String>,
}

impl Repository {
    /// The first page of the log that starts at `r`, or at the head where
    /// no `r` is given, with `per_page` commits at most; with an `object`,
    /// the log of that path alone. `None` where the spec names no commit.
    pub fn log_page(&self, r: Option<&str>, object: Option<&str>, per_page: usize) -> (res: Result<
        Option<LogPage<'_>>,
        Error,
    >)
        ensures
            res matches Ok(Some(page)) ==> {
                &&& page.commits.len() <= per_page
                &&& r matches Some(given) ==> page.branch@ == given@
                &&& page.next_page matches Some(cursor) ==> page.commits.len() == per_page
                    && cursor@ == next_cursor(page.branch@, per_page)
            },
            res matches Err(error) ==> error@.kind == ErrorKind::Store || (error@.kind
                == ErrorKind::Missing && r is None),
    {
        let spec = self.ref_or_head_shorthand(r)?;
        let shallow = self.is_shallow();
        let commits = match self.commits_for_obj(spec.as_str(), lookahead(per_page), object).context(
            "failed to get commits for object",
        )? {
            Some(commits) => commits,
            None => {
                return Ok(None);
            },
        };
        let page = paginate(commits, spec.as_str(), per_page, shallow);
        Ok(Some(LogPage { commits: page.items, branch: spec, next_page: page.next }))
    }
}

} // verus!
