//! Resolving what the user names: repositories, branches.

use vstd::prelude::*;
use vstd::string::*;
use crate::cli::types::{GitBranch, Repo};
use crate::ident::{spec_uuid_of_text, spec_uuid_text, uuid_of_text, uuid_text};
use crate::text::{from_chars, lowercase, spec_lowercase, to_chars};

verus! {

/// The position of the last `@` among the first `n` characters, if there is one.
pub open spec fn spec_last_at(s: Seq<char>, n: int) -> Option<int>
    decreases n,
{
    if n <= 0 || n > s.len() {
        None
    } else if s[n - 1] == '@' {
        Some(n - 1)
    } else {
        spec_last_at(s, n - 1)
    }
}

/// A repository reference split at its last `@`: what stands before it,
/// and the branch after it. A reference without `@`, or with nothing
/// after it, is all repository.
pub open spec fn spec_split_repo_branch(input: Seq<char>) -> (Seq<char>, Option<Seq<char>>) {
    match spec_last_at(input, input.len() as int) {
        Some(i) => if i + 1 < input.len() {
            (input.subrange(0, i), Some(input.subrange(i + 1, input.len() as int)))
        } else {
            (input, None)
        },
        None => (input, None),
    }
}

/// Splits a repository reference of the form `repo@branch`.
pub fn split_repo_branch(input: &str) -> (r: (String, Option<String>))
    ensures
        (r.0@, r.1.deep_view()) == spec_split_repo_branch(input@),
{
    let chars = to_chars(input);
    let mut n: usize = chars.len();
    while n > 0 && chars[n - 1] != '@'
        invariant
            n <= chars.len(),
            spec_last_at(chars@, chars.len() as int) == spec_last_at(chars@, n as int),
        decreases n,
    {
        n -= 1;
    }
    if n > 0 && n < chars.len() {
        let left = from_chars(&chars, 0, n - 1);
        let branch = from_chars(&chars, n, chars.len());
        (left, Some(branch))
    } else {
        (input.to_owned(), None)
    }
}

/// The position of the first branch called `name`, if there is one.
pub open spec fn spec_branch_named(branches: Seq<GitBranch>, name: Seq<char>) -> Option<int> {
    if exists|i: int| 0 <= i < branches.len() && (#[trigger] branches[i]).name@ == name {
        Some(
            choose|i: int|
                0 <= i < branches.len() && (#[trigger] branches[i]).name@ == name && forall|j: int|
                    0 <= j < i ==> (#[trigger] branches[j]).name@ != name,
        )
    } else {
        None
    }
}

/// The default branch of a repository: `main` where there is one, else
/// `master`, else the first branch.
pub open spec fn spec_default_branch(branches: Seq<GitBranch>) -> Option<Seq<char>> {
    if spec_branch_named(branches, "main"@) is Some {
        Some("main"@)
    } else if spec_branch_named(branches, "master"@) is Some {
        Some("master"@)
    } else if branches.len() > 0 {
        Some(branches[0].name@)
    } else {
        None
    }
}

/// The position of the first branch called `name`.
pub fn branch_named(branches: &Vec<GitBranch>, name: &str) -> (r: Option<usize>)
    ensures
        r matches Some(i) ==> i < branches.len() && branches[i as int].name@ == name@,
        r is Some <==> spec_branch_named(branches@, name@) is Some,
{
    let wanted = name.to_owned();
    let mut i: usize = 0;
    while i < branches.len()
        invariant
            i <= branches.len(),
            wanted@ == name@,
            forall|j: int| 0 <= j < i ==> (#[trigger] branches[j]).name@ != name@,
        decreases branches.len() - i,
    {
        if branches[i].name == wanted {
            return Some(i);
        }
        i += 1;
    }
    None
}

/// Picks the default branch from the branches of a repository.
pub fn default_branch_from_list(branches: &Vec<GitBranch>) -> (r: Option<String>)
    ensures
        r.deep_view() == spec_default_branch(branches@),
{
    match branch_named(branches, "main") {
        Some(i) => {
            return Some(branches[i].name.clone());
        },
        None => {},
    }
    match branch_named(branches, "master") {
        Some(i) => {
            return Some(branches[i].name.clone());
        },
        None => {},
    }
    if branches.len() > 0 {
        Some(branches[0].name.clone())
    } else {
        None
    }
}

/// `tail` stands at the end of `s`.
pub open spec fn spec_ends_with(s: Seq<char>, tail: Seq<char>) -> bool {
    tail.len() <= s.len() && s.subrange(s.len() - tail.len(), s.len() as int) == tail
}

/// Whether `tail` stands at the end of `s`.
pub fn ends_with(s: &Vec<char>, tail: &Vec<char>) -> (b: bool)
    ensures
        b == spec_ends_with(s@, tail@),
{
    if tail.len() > s.len() {
        return false;
    }
    let offset: usize = s.len() - tail.len();
    let mut k: usize = 0;
    while k < tail.len()
        invariant
            k <= tail.len() <= s.len(),
            offset == s.len() - tail.len(),
            forall|m: int| 0 <= m < k ==> s[offset + m] == tail[m],
        decreases tail.len() - k,
    {
        if s[offset + k] != tail[k] {
            assert(s@.subrange(s.len() - tail.len(), s.len() as int)[k as int] != tail@[k as int]);
            return false;
        }
        k += 1;
    }
    assert(s@.subrange(s.len() - tail.len(), s.len() as int) =~= tail@);
    true
}

/// The repository answers to the lowercased key: by its name, by its
/// display name, or by the end of its path, all without regard to case.
pub open spec fn spec_answers_to(repo: Repo, lower_key: Seq<char>) -> bool {
    spec_lowercase(repo.name@) == lower_key || spec_lowercase(repo.display_name@) == lower_key
        || spec_ends_with(spec_lowercase(repo.path@), lower_key)
}

/// Whether the repository answers to the lowercased key.
pub fn answers_to(repo: &Repo, lower_key: &str) -> (b: bool)
    ensures
        b == spec_answers_to(*repo, lower_key@),
{
    let key = lower_key.to_owned();
    if lowercase(repo.name.as_str()) == key {
        return true;
    }
    if lowercase(repo.display_name.as_str()) == key {
        return true;
    }
    let path = lowercase(repo.path.as_str());
    let path_chars = to_chars(path.as_str());
    let key_chars = to_chars(lower_key);
    ends_with(&path_chars, &key_chars)
}

/// The repository at `i` is the one that `key` names: the one with
/// that identifier where the key reads as an identifier, else one that
/// answers to the key.
pub open spec fn spec_matches_key(repos: Seq<Repo>, key: Seq<char>, i: int) -> bool {
    match spec_uuid_of_text(key) {
        Some(id) => repos[i].id == id,
        None => spec_answers_to(repos[i], spec_lowercase(key)),
    }
}

/// Finds the first repository that a key names, by identifier, name,
/// display name or path.
pub fn find_repo(repos: &Vec<Repo>, key: &str) -> (r: Option<usize>)
    ensures
        r matches Some(i) ==> i < repos.len() && spec_matches_key(repos@, key@, i as int)
            && forall|j: int| 0 <= j < i ==> !spec_matches_key(repos@, key@, j),
        r is None ==> forall|j: int| 0 <= j < repos.len() ==> !spec_matches_key(repos@, key@, j),
{
    let id = uuid_of_text(key);
    let lower = lowercase(key);
    let mut i: usize = 0;
    while i < repos.len()
        invariant
            i <= repos.len(),
            id == spec_uuid_of_text(key@),
            lower@ == spec_lowercase(key@),
            forall|j: int| 0 <= j < i ==> !spec_matches_key(repos@, key@, j),
        decreases repos.len() - i,
    {
        let hit = match id {
            Some(wanted) => repos[i].id == wanted,
            None => answers_to(&repos[i], lower.as_str()),
        };
        if hit {
            return Some(i);
        }
        i += 1;
    }
    None
}

/// The scheme of the task stream for a server with the given scheme:
/// the secure one for `https`, the plain one for `http`, none for any other.
pub open spec fn spec_ws_scheme(scheme: Seq<char>) -> Option<Seq<char>> {
    if scheme == "https"@ {
        Some("wss"@)
    } else if scheme == "http"@ {
        Some("ws"@)
    } else {
        None
    }
}

/// Maps the scheme of a server address to the scheme of its task stream.
pub fn ws_scheme(scheme: &str) -> (r: Option<&'static str>)
    ensures
        r.deep_view() == spec_ws_scheme(scheme@),
{
    let given = scheme.to_owned();
    if given == "https".to_owned() {
        Some("wss")
    } else if given == "http".to_owned() {
        Some("ws")
    } else {
        None
    }
}

/// The path of the task stream on the server.
pub open spec fn spec_tasks_stream_path() -> Seq<char> {
    "/api/tasks/stream/ws"@
}

/// The path of the task stream on the server.
pub fn tasks_stream_path() -> (s: &'static str)
    ensures
        s@ == spec_tasks_stream_path(),
{
    "/api/tasks/stream/ws"
}

/// The query that asks the task stream for the tasks of one project.
pub fn tasks_stream_query(project_id: u128) -> (q: String)
    ensures
        q@ == "project_id="@ + spec_uuid_text(project_id),
{
    let mut q = "project_id=".to_owned();
    q.append(uuid_text(project_id).as_str());
    q
}

} // verus!
