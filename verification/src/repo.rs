//! Repository identifiers and the set of them that a sweep works through.

use vstd::prelude::*;
use vstd::string::*;

verus! {

/// The fully-qualified name of a repository within the hosting service, such
/// as `org/name`. Its view is the name's characters.
#[derive(Debug, PartialEq, Eq)]
pub struct Repo(pub String);

impl View for Repo {
    type V = Seq<char>;

    open spec fn view(&self) -> Seq<char> {
        self.0@
    }
}

impl Clone for Repo {
    fn clone(&self) -> (copy: Repo)
        ensures
            copy@ == self@,
    {
        Repo(self.0.clone())
    }
}

impl Repo {
    /// The repository called `full_name`.
    pub fn new(full_name: String) -> (repo: Repo)
        ensures
            repo@ == full_name@,
    {
        Repo(full_name)
    }

    /// The name as text.
    pub fn as_str(&self) -> (name: &str)
        ensures
            name@ == self@,
    {
        self.0.as_str()
    }

    /// The name, as it is written into logs and handed to the job runner.
    pub fn to_string(&self) -> (name: String)
        ensures
            name@ == self@,
    {
        self.0.clone()
    }
}

/// The names of a sequence of repositories, in the same order.
pub open spec fn names_of(repos: Seq<Repo>) -> Seq<Seq<char>> {
    repos.map_values(|repo: Repo| repo@)
}

/// What a list of names looks like in a log line: every name followed by a
/// comma, the last one too.
pub open spec fn rendered(names: Seq<Seq<char>>) -> Seq<char>
    decreases names.len(),
{
    if names.len() == 0 {
        Seq::empty()
    } else {
        rendered(names.drop_last()) + names.last() + seq![',']
    }
}

/// The repositories of one sweep, in the order in which they were collected.
/// Its view is the sequence of their names.
#[derive(Debug, PartialEq, Eq)]
pub struct Repos(pub Vec<Repo>);

impl View for Repos {
    type V = Seq<Seq<char>>;

    open spec fn view(&self) -> Seq<Seq<char>> {
        names_of(self.0@)
    }
}

impl Repos {
    /// How many repositories there are.
    pub fn len(&self) -> (count: usize)
        ensures
            count == self@.len(),
    {
        self.0.len()
    }

    /// Whether there is no repository at all.
    pub fn is_empty(&self) -> (empty: bool)
        ensures
            empty == (self@.len() == 0),
    {
        self.0.len() == 0
    }

    /// All names in order, each followed by a comma.
    pub fn to_string(&self) -> (text: String)
        ensures
            text@ == rendered(self@),
    {
        let mut text = String::new();
        let mut i: usize = 0;
        while i < self.0.len()
            invariant
                i <= self.0.len(),
                text@ == rendered(self@.take(i as int)),
            decreases self.0.len() - i,
        {
            text.append(self.0[i].as_str());
            text.append(",");
            proof {
                reveal_strlit(",");
                assert(self@.take(i + 1).drop_last() =~= self@.take(i as int));
            }
            i += 1;
        }
        proof {
            assert(self@.take(self.0.len() as int) =~= self@);
        }
        text
    }
}

} // verus!
