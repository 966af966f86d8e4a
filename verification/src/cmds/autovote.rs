//! What the automatic vote decides: which installed packages to vote for,
//! and which votes to take back.

use crate::helper::{PkgName, PkgVersion};
use crate::text::same_text;
use vstd::prelude::*;

verus! {

/// The names without repetition: each at the place where it comes first.
pub open spec fn merged(names: Seq<Seq<char>>) -> Seq<Seq<char>>
    decreases names.len(),
{
    if names.len() == 0 {
        Seq::empty()
    } else if merged(names.drop_last()).contains(names.last()) {
        merged(names.drop_last())
    } else {
        merged(names.drop_last()).push(names.last())
    }
}

/// The names without repetition hold each of the names, and none twice.
pub proof fn lemma_merged(names: Seq<Seq<char>>)
    ensures
        merged(names).no_duplicates(),
        forall|name: Seq<char>| merged(names).contains(name) <==> names.contains(name),
    decreases names.len(),
{
    if names.len() > 0 {
        let front = names.drop_last();
        let last = names.last();
        lemma_merged(front);
        let m = merged(front);
        assert forall|name: Seq<char>| merged(names).contains(name) <==> names.contains(
            name,
        ) by {
            if names.contains(name) {
                let i = choose|i: int| 0 <= i < names.len() && names[i] == name;
                if i < front.len() {
                    assert(front[i] == name);
                    assert(front.contains(name));
                    assert(m.contains(name));
                    if !m.contains(last) {
                        let j = choose|j: int| 0 <= j < m.len() && m[j] == name;
                        assert(m.push(last)[j] == name);
                    }
                } else {
                    if !m.contains(last) {
                        assert(m.push(last)[m.len() as int] == last);
                    }
                }
            }
            if merged(names).contains(name) {
                let j = choose|j: int| 0 <= j < merged(names).len() && merged(names)[j] == name;
                if j < m.len() {
                    assert(m[j] == name);
                    assert(m.contains(name));
                    assert(front.contains(name));
                    let i = choose|i: int| 0 <= i < front.len() && front[i] == name;
                    assert(names[i] == name);
                } else {
                    assert(name == last);
                    assert(names[names.len() - 1] == name);
                }
            }
        }
    }
}

/// The names but `name`, in their order.
pub open spec fn without(names: Seq<Seq<char>>, name: Seq<char>) -> Seq<Seq<char>>
    decreases names.len(),
{
    if names.len() == 0 {
        Seq::empty()
    } else if names.last() == name {
        without(names.drop_last(), name)
    } else {
        without(names.drop_last(), name).push(names.last())
    }
}

/// The installed packages that are left to vote for, and the voted
/// packages whose vote is to be taken back. The voted packages are gone
/// through in order: one that is installed is struck from the installed
/// ones, and its vote stays; the vote of one that is not installed, or no
/// longer among them, is to be taken back.
pub open spec fn planned(installed: Seq<Seq<char>>, voted: Seq<Seq<char>>) -> (
    Seq<Seq<char>>,
    Seq<Seq<char>>,
)
    decreases voted.len(),
{
    if voted.len() == 0 {
        (installed, Seq::empty())
    } else {
        let (left, unvotes) = planned(installed, voted.drop_last());
        if left.contains(voted.last()) {
            (without(left, voted.last()), unvotes)
        } else {
            (left, unvotes.push(voted.last()))
        }
    }
}

/// Whether `names` holds `name`.
pub fn holds(names: &Vec<String>, name: &str) -> (r: bool)
    ensures
        r == names.deep_view().contains(name@),
{
    let mut i: usize = 0;
    while i < names.len()
        invariant
            i <= names.len(),
            forall|j: int| 0 <= j < i ==> names.deep_view()[j] != name@,
        decreases names.len() - i,
    {
        assert(names.deep_view()[i as int] == names@[i as int]@);
        if same_text(names[i].as_str(), name) {
            return true;
        }
        i += 1;
    }
    false
}

/// The names but `name`.
pub fn strike(names: &Vec<String>, name: &str) -> (r: Vec<String>)
    ensures
        r.deep_view() == without(names.deep_view(), name@),
{
    let ghost all = names.deep_view();
    let mut r: Vec<String> = Vec::new();
    let mut i: usize = 0;
    assert(all.take(0) =~= Seq::empty());
    assert(r.deep_view() =~= Seq::empty());
    while i < names.len()
        invariant
            i <= names.len(),
            all == names.deep_view(),
            r.deep_view() == without(all.take(i as int), name@),
        decreases names.len() - i,
    {
        proof {
            assert(all.take(i + 1).drop_last() =~= all.take(i as int));
            assert(all.take(i + 1).last() == names@[i as int]@);
        }
        if !same_text(names[i].as_str(), name) {
            let ghost before = r.deep_view();
            r.push(names[i].clone());
            assert(r.deep_view() =~= before.push(names@[i as int]@));
        }
        i += 1;
    }
    assert(all.take(names.len() as int) =~= all);
    r
}

/// The names of the packages of all repositories, repository after
/// repository.
pub open spec fn all_names(repos: Seq<Seq<(Seq<char>, Seq<char>)>>) -> Seq<Seq<char>>
    decreases repos.len(),
{
    if repos.len() == 0 {
        Seq::empty()
    } else {
        all_names(repos.drop_last()) + Seq::new(
            repos.last().len(),
            |i: int| repos.last()[i].0,
        )
    }
}

/// The installed packages of the repositories without repetition: a
/// package that several repositories hold counts for the first of them.
pub fn installed_names(repos: &Vec<Vec<(PkgName, PkgVersion)>>) -> (r: Vec<String>)
    ensures
        r.deep_view() == merged(all_names(repos.deep_view())),
        r.deep_view().no_duplicates(),
{
    proof {
        lemma_merged(all_names(repos.deep_view()));
    }
    let ghost all = repos.deep_view();
    let mut r: Vec<String> = Vec::new();
    let mut i: usize = 0;
    assert(all.take(0) =~= Seq::empty());
    assert(r.deep_view() =~= Seq::empty());
    while i < repos.len()
        invariant
            i <= repos.len(),
            all == repos.deep_view(),
            r.deep_view() == merged(all_names(all.take(i as int))),
        decreases repos.len() - i,
    {
        let repo = &repos[i];
        let ghost before = all_names(all.take(i as int));
        let ghost names = Seq::new(repo.deep_view().len(), |k: int| repo.deep_view()[k].0);
        proof {
            assert(all.take(i + 1).drop_last() =~= all.take(i as int));
            assert(all.take(i + 1).last() == repo.deep_view());
            assert(before + names.take(0) =~= before);
        }
        let mut j: usize = 0;
        while j < repo.len()
            invariant
                j <= repo.len(),
                names == Seq::new(repo.deep_view().len(), |k: int| repo.deep_view()[k].0),
                r.deep_view() == merged(before + names.take(j as int)),
            decreases repo.len() - j,
        {
            proof {
                let now = before + names.take(j + 1);
                assert(now.drop_last() =~= before + names.take(j as int));
                assert(now.last() == repo@[j as int].0@);
            }
            if !holds(&r, repo[j].0.as_str()) {
                let ghost known = r.deep_view();
                r.push(repo[j].0.clone());
                assert(r.deep_view() =~= known.push(repo@[j as int].0@));
            }
            j += 1;
        }
        assert(names.take(repo.len() as int) =~= names);
        i += 1;
    }
    assert(all.take(repos.len() as int) =~= all);
    r
}

/// What the automatic vote is to do.
#[derive(PartialEq, Eq, Debug)]
pub struct Plan {
    /// The installed packages that are not voted: those among them that
    /// the site knows are to be voted for.
    pub candidates: Vec<String>,
    /// The voted packages that are not installed: their votes are to be
    /// taken back.
    pub unvotes: Vec<String>,
}

/// Decides what the automatic vote is to do, from the installed packages,
/// without repetition, and the voted packages.
pub fn plan(installed: Vec<String>, voted: &Vec<String>) -> (r: Plan)
    ensures
        (r.candidates.deep_view(), r.unvotes.deep_view()) == planned(
            installed.deep_view(),
            voted.deep_view(),
        ),
{
    let ghost all = voted.deep_view();
    let ghost start = installed.deep_view();
    let mut left = installed;
    let mut unvotes: Vec<String> = Vec::new();
    let mut i: usize = 0;
    assert(all.take(0) =~= Seq::empty());
    assert(unvotes.deep_view() =~= Seq::empty());
    while i < voted.len()
        invariant
            i <= voted.len(),
            all == voted.deep_view(),
            (left.deep_view(), unvotes.deep_view()) == planned(start, all.take(i as int)),
        decreases voted.len() - i,
    {
        proof {
            assert(all.take(i + 1).drop_last() =~= all.take(i as int));
            assert(all.take(i + 1).last() == voted@[i as int]@);
        }
        if holds(&left, voted[i].as_str()) {
            left = strike(&left, voted[i].as_str());
        } else {
            let ghost before = unvotes.deep_view();
            unvotes.push(voted[i].clone());
            assert(unvotes.deep_view() =~= before.push(voted@[i as int]@));
        }
        i += 1;
    }
    assert(all.take(voted.len() as int) =~= all);
    Plan { candidates: left, unvotes }
}

} // verus!
