//! What the local package manager says, read from the output of its
//! commands. Running the commands is the caller's part.

use crate::decimal::{parse_i32, parsed_i32};
use crate::text::{chars_of, same_text, split, split_on, string_of, trim, trimmed};
use vstd::prelude::*;

verus! {

/// The name of a package.
pub type PkgName = String;

/// The version of a package.
pub type PkgVersion = String;

/// How an installed version stands to the one on offer.
#[derive(PartialEq, Eq, Debug, Clone, Copy)]
pub enum Versioning {
    Older,
    Same,
    Newer,
}

/// The repositories to list.
#[derive(PartialEq, Eq, Debug, Clone, Copy)]
pub enum SelectRepository {
    Official,
    NonOfficial,
    All,
}

/// Why the output of a command could not be used.
#[derive(PartialEq, Eq, Debug, Clone, Copy)]
pub enum HelperError {
    /// The command did not end with success.
    Failed,
    /// The output is not what the command is known to print.
    Malformed,
}

/// Whether the permission bits of a file let its owner read and write it,
/// and nobody else.
pub fn is_file_secure(mode: u32) -> (r: bool)
    ensures
        r == (mode & 0o666 == 0o600),
{
    mode & 0o666 == 0o600
}

/// What the number that the comparison of two versions printed says.
pub open spec fn versioning(output: Seq<char>) -> Option<Versioning> {
    match parsed_i32(trimmed(output)) {
        None => None,
        Some(n) => Some(
            if n < 0 {
                Versioning::Older
            } else if n == 0 {
                Versioning::Same
            } else {
                Versioning::Newer
            },
        ),
    }
}

fn versioning_of(output: &str) -> (r: Option<Versioning>)
    ensures
        r == versioning(output@),
{
    let number = trim(output);
    match parse_i32(number.as_str()) {
        None => None,
        Some(n) => Some(
            if n < 0 {
                Versioning::Older
            } else if n == 0 {
                Versioning::Same
            } else {
                Versioning::Newer
            },
        ),
    }
}

/// The outcome of the comparison of two versions, from whether the
/// command succeeded and what it printed: a negative number where the
/// first is older, zero where they are the same, a positive number where
/// the first is newer.
pub fn vercmp(success: bool, output: &str) -> (r: Result<Versioning, HelperError>)
    ensures
        r == if !success {
            Err::<Versioning, HelperError>(HelperError::Failed)
        } else {
            match versioning(output@) {
                Some(v) => Ok(v),
                None => Err(HelperError::Malformed),
            }
        },
{
    if !success {
        return Err(HelperError::Failed);
    }
    match versioning_of(output) {
        Some(v) => Ok(v),
        None => Err(HelperError::Malformed),
    }
}

/// Whether a repository is one of the official ones.
pub open spec fn is_official(repo: Seq<char>) -> bool {
    repo == "core"@ || repo == "extra"@ || repo == "community"@ || repo == "multilib"@
}

/// Whether a line of the repository list names a repository that is asked
/// for.
pub open spec fn is_selected(repo: Seq<char>, select: SelectRepository) -> bool {
    repo.len() > 0 && match select {
        SelectRepository::Official => is_official(repo),
        SelectRepository::NonOfficial => !is_official(repo),
        SelectRepository::All => true,
    }
}

/// The lines that name a repository that is asked for, in their order.
pub open spec fn selected_repos(lines: Seq<Seq<char>>, select: SelectRepository) -> Seq<
    Seq<char>,
>
    decreases lines.len(),
{
    if lines.len() == 0 {
        Seq::empty()
    } else if is_selected(lines.last(), select) {
        selected_repos(lines.drop_last(), select).push(lines.last())
    } else {
        selected_repos(lines.drop_last(), select)
    }
}

fn selected(repo: &String, select: SelectRepository) -> (r: bool)
    ensures
        r == is_selected(repo@, select),
{
    let name = repo.as_str();
    if name.unicode_len() == 0 {
        return false;
    }
    let official = same_text(name, "core") || same_text(name, "extra") || same_text(
        name,
        "community",
    ) || same_text(name, "multilib");
    match select {
        SelectRepository::Official => official,
        SelectRepository::NonOfficial => !official,
        SelectRepository::All => true,
    }
}

/// The repositories of the system that are asked for, from whether the
/// command that lists them succeeded and what it printed, one repository
/// to a line.
pub fn list_repos(success: bool, output: &str, select: SelectRepository) -> (r: Result<
    Vec<String>,
    HelperError,
>)
    ensures
        match r {
            Ok(repos) => success && repos.deep_view() == selected_repos(
                split_on(output@, '\n'),
                select,
            ),
            Err(e) => !success && e == HelperError::Failed,
        },
{
    if !success {
        return Err(HelperError::Failed);
    }
    let text = chars_of(output);
    let lines = split(&text, '\n');
    let ghost all = lines.deep_view();
    let mut repos: Vec<String> = Vec::new();
    let mut i: usize = 0;
    assert(all.take(0) =~= Seq::empty());
    assert(repos.deep_view() =~= Seq::empty());
    while i < lines.len()
        invariant
            i <= lines.len(),
            all == lines.deep_view(),
            repos.deep_view() == selected_repos(all.take(i as int), select),
        decreases lines.len() - i,
    {
        let line = string_of(&lines[i]);
        proof {
            assert(lines@[i as int].deep_view() =~= lines@[i as int]@);
            assert(all.take(i + 1).drop_last() =~= all.take(i as int));
            assert(all.take(i + 1).last() == line@);
        }
        if selected(&line, select) {
            let ghost before = repos.deep_view();
            repos.push(line);
            assert(repos.deep_view() =~= before.push(line@));
        }
        i += 1;
    }
    assert(all.take(lines.len() as int) =~= all);
    Ok(repos)
}

/// The package and the version that a line names: its first two columns,
/// with one space between each two columns.
pub open spec fn pkg_entry(line: Seq<char>) -> Option<(Seq<char>, Seq<char>)> {
    let cols = split_on(line, ' ');
    if cols.len() >= 2 {
        Some((cols[0], cols[1]))
    } else {
        None
    }
}

/// The package and version of each line that is not empty, in the order of
/// the lines; `None` where such a line has no two columns.
pub open spec fn pkg_entries(lines: Seq<Seq<char>>) -> Option<Seq<(Seq<char>, Seq<char>)>>
    decreases lines.len(),
{
    if lines.len() == 0 {
        Some(Seq::empty())
    } else {
        match pkg_entries(lines.drop_last()) {
            None => None,
            Some(front) => if lines.last().len() == 0 {
                Some(front)
            } else {
                match pkg_entry(lines.last()) {
                    None => None,
                    Some(entry) => Some(front.push(entry)),
                }
            },
        }
    }
}

proof fn lemma_bad_line_stays(lines: Seq<Seq<char>>, k: int)
    requires
        0 <= k <= lines.len(),
        pkg_entries(lines.take(k)) is None,
    ensures
        pkg_entries(lines) is None,
    decreases lines.len() - k,
{
    if k == lines.len() {
        assert(lines.take(k) =~= lines);
    } else {
        assert(lines.drop_last().take(k) =~= lines.take(k));
        lemma_bad_line_stays(lines.drop_last(), k);
    }
}

/// The packages that a listing of one package and version to a line names.
pub fn parse_pkg_list(output: &str) -> (r: Result<Vec<(PkgName, PkgVersion)>, HelperError>)
    ensures
        match r {
            Ok(pkgs) => pkg_entries(split_on(output@, '\n')) == Some(pkgs.deep_view()),
            Err(e) => pkg_entries(split_on(output@, '\n')) is None && e == HelperError::Malformed,
        },
{
    let text = chars_of(output);
    let lines = split(&text, '\n');
    let ghost all = lines.deep_view();
    let mut pkgs: Vec<(String, String)> = Vec::new();
    let mut i: usize = 0;
    assert(all.take(0) =~= Seq::empty());
    assert(pkgs.deep_view() =~= Seq::empty());
    while i < lines.len()
        invariant
            i <= lines.len(),
            all == lines.deep_view(),
            all == split_on(output@, '\n'),
            pkg_entries(all.take(i as int)) == Some(pkgs.deep_view()),
        decreases lines.len() - i,
    {
        proof {
            assert(lines@[i as int].deep_view() =~= lines@[i as int]@);
            assert(all.take(i + 1).drop_last() =~= all.take(i as int));
            assert(all.take(i + 1).last() == lines@[i as int]@);
        }
        if lines[i].len() > 0 {
            let cols = split(&lines[i], ' ');
            if cols.len() < 2 {
                proof {
                    lemma_bad_line_stays(all, i + 1);
                }
                return Err(HelperError::Malformed);
            }
            let name = string_of(&cols[0]);
            let version = string_of(&cols[1]);
            proof {
                assert(cols@[0].deep_view() =~= cols@[0]@);
                assert(cols@[1].deep_view() =~= cols@[1]@);
                assert(cols.deep_view()[0] == name@);
                assert(cols.deep_view()[1] == version@);
            }
            let ghost before = pkgs.deep_view();
            pkgs.push((name, version));
            assert(pkgs.deep_view() =~= before.push((name@, version@)));
        }
        i += 1;
    }
    assert(all.take(lines.len() as int) =~= all);
    Ok(pkgs)
}

/// The installed packages, from what the package manager printed for the
/// query of all of them: one entry for each line, in the order of the
/// lines. Where a name comes more than once, its last entry is the one
/// that counts: see `installed_version`.
pub fn list_installed_pkgs(output: &str) -> (r: Result<Vec<(PkgName, PkgVersion)>, HelperError>)
    ensures
        match r {
            Ok(pkgs) => pkg_entries(split_on(output@, '\n')) == Some(pkgs.deep_view()),
            Err(e) => pkg_entries(split_on(output@, '\n')) is None && e == HelperError::Malformed,
        },
{
    parse_pkg_list(output)
}

/// The installed packages of one repository, from the name and version
/// columns of the lines that the package manager marked as installed.
pub fn list_installed_pkgs_repo(output: &str) -> (r: Result<
    Vec<(PkgName, PkgVersion)>,
    HelperError,
>)
    ensures
        match r {
            Ok(pkgs) => pkg_entries(split_on(output@, '\n')) == Some(pkgs.deep_view()),
            Err(e) => pkg_entries(split_on(output@, '\n')) is None && e == HelperError::Malformed,
        },
{
    parse_pkg_list(output)
}

/// The version under which the last entry of that name lists the package.
pub open spec fn version_of(pkgs: Seq<(Seq<char>, Seq<char>)>, name: Seq<char>) -> Option<
    Seq<char>,
>
    decreases pkgs.len(),
{
    if pkgs.len() == 0 {
        None
    } else if pkgs.last().0 == name {
        Some(pkgs.last().1)
    } else {
        version_of(pkgs.drop_last(), name)
    }
}

/// The installed version of a package: that of the last entry of its name.
pub fn installed_version(pkgs: &Vec<(PkgName, PkgVersion)>, name: &str) -> (r: Option<String>)
    ensures
        match r {
            Some(version) => version_of(pkgs.deep_view(), name@) == Some(version@),
            None => version_of(pkgs.deep_view(), name@) is None,
        },
{
    let ghost all = pkgs.deep_view();
    let mut i: usize = pkgs.len();
    assert(all.take(i as int) =~= all);
    while i > 0
        invariant
            i <= pkgs.len(),
            all == pkgs.deep_view(),
            version_of(all, name@) == version_of(all.take(i as int), name@),
        decreases i,
    {
        proof {
            assert(all.take(i as int).drop_last() =~= all.take(i - 1));
            assert(all.take(i as int).last() == pkgs@[i - 1].deep_view());
        }
        if same_text(pkgs[i - 1].0.as_str(), name) {
            return Some(pkgs[i - 1].1.clone());
        }
        i -= 1;
    }
    None
}

} // verus!
