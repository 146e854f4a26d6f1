//! The ways a build can fail, each naming the file concerned.
use vstd::prelude::*;

verus! {

pub enum BuildError {
    /// The path does not lie under the source root.
    Path(String),
    /// The file has an opening front-matter marker and no closing one.
    Malformed(String),
    /// The document (first) names a layout (second) that is not registered.
    UnknownLayout(String, String),
    /// The template engine refused the document (first) with a message (second).
    Render(String, String),
    /// Reading or writing the file (first) failed with a message (second).
    Io(String, String),
}

impl BuildError {
    /// An equal copy of this error.
    pub fn copy_of(&self) -> (r: BuildError)
        ensures
            r == *self,
    {
        match self {
            BuildError::Path(p) => BuildError::Path(p.clone()),
            BuildError::Malformed(p) => BuildError::Malformed(p.clone()),
            BuildError::UnknownLayout(p, l) => BuildError::UnknownLayout(p.clone(), l.clone()),
            BuildError::Render(p, m) => BuildError::Render(p.clone(), m.clone()),
            BuildError::Io(p, m) => BuildError::Io(p.clone(), m.clone()),
        }
    }

    /// The error as a line of text.
    pub fn message(&self) -> (r: String)
        ensures
            r@ == message_of(*self),
    {
        match self {
            BuildError::Path(p) => {
                let mut r = String::from_str("path is not under the source root: ");
                r.append(p.as_str());
                r
            },
            BuildError::Malformed(p) => {
                let mut r = String::from_str("no content after header in ");
                r.append(p.as_str());
                r
            },
            BuildError::UnknownLayout(p, l) => {
                let mut r = String::from_str("unknown layout ");
                r.append(l.as_str());
                r.append(" in ");
                r.append(p.as_str());
                r
            },
            BuildError::Render(p, m) => {
                let mut r = String::from_str("cannot render ");
                r.append(p.as_str());
                r.append(": ");
                r.append(m.as_str());
                r
            },
            BuildError::Io(p, m) => {
                let mut r = String::from_str("cannot access ");
                r.append(p.as_str());
                r.append(": ");
                r.append(m.as_str());
                r
            },
        }
    }
}

/// The text that describes `e`.
pub open spec fn message_of(e: BuildError) -> Seq<char> {
    match e {
        BuildError::Path(p) => "path is not under the source root: "@ + p@,
        BuildError::Malformed(p) => "no content after header in "@ + p@,
        BuildError::UnknownLayout(p, l) => "unknown layout "@ + l@ + " in "@ + p@,
        BuildError::Render(p, m) => "cannot render "@ + p@ + ": "@ + m@,
        BuildError::Io(p, m) => "cannot access "@ + p@ + ": "@ + m@,
    }
}

/// The outcome of a set of independent tasks: the first failure in task
/// order, or success when every task succeeded.
pub fn first_error(results: &Vec<Result<(), BuildError>>) -> (r: Result<(), BuildError>)
    ensures
        r is Ok <==> forall|i: int| 0 <= i < results@.len() ==> results@[i] is Ok,
        r is Err ==> exists|i: int|
            0 <= i < results@.len() && #[trigger] results@[i] == r && forall|j: int|
                0 <= j < i ==> results@[j] is Ok,
{
    let mut i: usize = 0;
    while i < results.len()
        invariant
            i <= results@.len(),
            forall|j: int| 0 <= j < i ==> results@[j] is Ok,
        decreases results.len() - i,
    {
        match &results[i] {
            Ok(()) => {},
            Err(e) => {
                let r = Err(e.copy_of());
                assert(results@[i as int] == r);
                return r;
            },
        }
        i = i + 1;
    }
    Ok(())
}

/// Whether every task succeeded.
pub open spec fn all_ok(rs: Seq<Result<(), BuildError>>) -> bool {
    forall|i: int| 0 <= i < rs.len() ==> rs[i] is Ok
}

/// Whether a set of tasks succeeded does not depend on the order in which
/// their outcomes are listed.
pub proof fn law_success_order_free(a: Seq<Result<(), BuildError>>, b: Seq<Result<(), BuildError>>)
    requires
        a.to_multiset() == b.to_multiset(),
    ensures
        all_ok(a) == all_ok(b),
{
    broadcast use vstd::seq_lib::group_to_multiset_ensures;

    if !all_ok(a) {
        let i = choose|i: int| 0 <= i < a.len() && !(a[i] is Ok);
        assert(a.contains(a[i]));
        assert(a.to_multiset().count(a[i]) > 0);
        assert(b.to_multiset().count(a[i]) > 0);
        assert(b.contains(a[i]));
    }
    if !all_ok(b) {
        let i = choose|i: int| 0 <= i < b.len() && !(b[i] is Ok);
        assert(b.contains(b[i]));
        assert(b.to_multiset().count(b[i]) > 0);
        assert(a.to_multiset().count(b[i]) > 0);
        assert(a.contains(b[i]));
    }
}

} // verus!
