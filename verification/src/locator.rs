//! The executable locator: the first matching, executable entry of an
//! ordered listing of the search path.

use vstd::prelude::*;
use crate::path::program_name;
use crate::path::program_name_of;
use crate::path::is_executable;

verus! {

/// One entry of a search-path directory, as it was seen when the listing was
/// taken.
#[derive(Debug, Clone)]
pub struct Candidate {
    /// Where the entry lies.
    pub path: String,
    /// The name that the entry answers to: the stem of its file name.
    pub name: String,
    /// Whether the entry passed the platform's executable test.
    pub executable: bool,
}

/// What a [`Candidate`] stands for.
pub struct CandidateView {
    pub path: Seq<char>,
    pub name: Seq<char>,
    pub executable: bool,
}

impl View for Candidate {
    type V = CandidateView;

    open spec fn view(&self) -> CandidateView {
        CandidateView { path: self.path@, name: self.name@, executable: self.executable }
    }
}

impl DeepView for Candidate {
    type V = CandidateView;

    open spec fn deep_view(&self) -> CandidateView {
        self@
    }
}

/// Whether `candidate` can run as `name`: the names agree exactly and the
/// entry is executable.
pub open spec fn answers_to(name: Seq<char>, candidate: CandidateView) -> bool {
    candidate.executable && candidate.name == name
}

/// Whether none of `candidates` can run as `name`.
pub open spec fn no_match(name: Seq<char>, candidates: Seq<CandidateView>) -> bool {
    forall|j: int| 0 <= j < candidates.len() ==> !answers_to(name, #[trigger] candidates[j])
}

/// Whether `i` is the position of the first of `candidates` that can run as
/// `name`.
pub open spec fn is_first_match(name: Seq<char>, candidates: Seq<CandidateView>, i: int) -> bool {
    &&& 0 <= i < candidates.len()
    &&& answers_to(name, candidates[i])
    &&& no_match(name, candidates.take(i))
}

/// The position of the first of `candidates` that can run as `name`.
pub open spec fn first_match(name: Seq<char>, candidates: Seq<CandidateView>) -> Option<int>
    decreases candidates.len(),
{
    if candidates.len() == 0 {
        None
    } else if answers_to(name, candidates[0]) {
        Some(0)
    } else {
        match first_match(name, candidates.drop_first()) {
            Some(i) => Some(i + 1),
            None => None,
        }
    }
}

/// The path of the first of `candidates` that can run as `name`.
pub open spec fn find_spec(name: Seq<char>, candidates: Seq<CandidateView>) -> Option<Seq<char>> {
    match first_match(name, candidates) {
        Some(i) => Some(candidates[i].path),
        None => None,
    }
}

/// [`first_match`] is the least matching position, and is `None` exactly
/// when nothing matches.
pub proof fn lemma_first_match(name: Seq<char>, candidates: Seq<CandidateView>)
    ensures
        match first_match(name, candidates) {
            Some(i) => is_first_match(name, candidates, i),
            None => no_match(name, candidates),
        },
    decreases candidates.len(),
{
    if candidates.len() > 0 && !answers_to(name, candidates[0]) {
        let rest = candidates.drop_first();
        lemma_first_match(name, rest);
        match first_match(name, rest) {
            Some(i) => {
                assert forall|j: int| 0 <= j < i + 1 implies !answers_to(
                    name,
                    #[trigger] candidates.take(i + 1)[j],
                ) by {
                    if j > 0 {
                        assert(candidates.take(i + 1)[j] == rest.take(i)[j - 1]);
                    }
                }
            },
            None => {
                assert forall|j: int| 0 <= j < candidates.len() implies !answers_to(
                    name,
                    #[trigger] candidates[j],
                ) by {
                    if j > 0 {
                        assert(candidates[j] == rest[j - 1]);
                    }
                }
            },
        }
    }
}

/// A first match, wherever it was found, is the one [`first_match`] names.
pub proof fn lemma_first_match_unique(name: Seq<char>, candidates: Seq<CandidateView>, i: int)
    requires
        is_first_match(name, candidates, i),
    ensures
        first_match(name, candidates) == Some(i),
{
    lemma_first_match(name, candidates);
    match first_match(name, candidates) {
        Some(k) => {
            if k < i {
                assert(candidates.take(i)[k] == candidates[k]);
            } else if i < k {
                assert(candidates.take(k)[i] == candidates[i]);
            }
        },
        None => {},
    }
}

/// Nothing is found exactly when nothing matches.
pub proof fn lemma_find_none(name: Seq<char>, candidates: Seq<CandidateView>)
    ensures
        find_spec(name, candidates) is None <==> no_match(name, candidates),
{
    lemma_first_match(name, candidates);
}

/// Searching two listings one after the other: what the first holds wins,
/// and the second is searched only where the first holds no match.
pub proof fn lemma_find_concat(name: Seq<char>, a: Seq<CandidateView>, b: Seq<CandidateView>)
    ensures
        find_spec(name, a + b) == match find_spec(name, a) {
            Some(path) => Some(path),
            None => find_spec(name, b),
        },
{
    let both = a + b;
    lemma_first_match(name, a);
    lemma_first_match(name, b);
    match first_match(name, a) {
        Some(i) => {
            assert(both.take(i) == a.take(i));
            lemma_first_match_unique(name, both, i);
        },
        None => {
            match first_match(name, b) {
                Some(j) => {
                    let k = a.len() + j;
                    assert forall|m: int| 0 <= m < k implies !answers_to(
                        name,
                        #[trigger] both.take(k)[m],
                    ) by {
                        if m >= a.len() {
                            assert(both.take(k)[m] == b.take(j)[m - a.len()]);
                        }
                    }
                    lemma_first_match_unique(name, both, k);
                },
                None => {
                    assert(no_match(name, both));
                    lemma_first_match(name, both);
                },
            }
        },
    }
}

/// Of a search path given directory by directory, the earliest directory
/// that holds a match decides: the result is that directory's own first
/// match, whatever later directories hold.
pub proof fn lemma_earliest_directory_wins(
    name: Seq<char>,
    dirs: Seq<Seq<CandidateView>>,
    d: int,
)
    requires
        0 <= d < dirs.len(),
        !no_match(name, dirs[d]),
        forall|k: int| 0 <= k < d ==> no_match(name, #[trigger] dirs[k]),
    ensures
        find_spec(name, dirs.flatten()) == find_spec(name, dirs[d]),
        find_spec(name, dirs[d]) is Some,
    decreases d,
{
    let rest = dirs.drop_first();
    lemma_find_concat(name, dirs[0], rest.flatten());
    lemma_find_none(name, dirs[0]);
    lemma_find_none(name, dirs[d]);
    if d > 0 {
        assert forall|k: int| 0 <= k < d - 1 implies no_match(name, #[trigger] rest[k]) by {
            assert(rest[k] == dirs[k + 1]);
        }
        lemma_earliest_directory_wins(name, rest, d - 1);
    }
}

/// A name that only one directory of the search path holds resolves to that
/// directory's entry, wherever the directory stands.
pub proof fn lemma_only_directory_wins(name: Seq<char>, dirs: Seq<Seq<CandidateView>>, d: int)
    requires
        0 <= d < dirs.len(),
        !no_match(name, dirs[d]),
        forall|k: int| 0 <= k < dirs.len() && k != d ==> no_match(name, #[trigger] dirs[k]),
    ensures
        find_spec(name, dirs.flatten()) == find_spec(name, dirs[d]),
        find_spec(name, dirs[d]) is Some,
{
    lemma_earliest_directory_wins(name, dirs, d);
}

/// The directories of `dirs` that hold a match for `name`, in order.
pub open spec fn matching_directories(name: Seq<char>, dirs: Seq<Seq<CandidateView>>) -> Seq<
    Seq<CandidateView>,
>
    decreases dirs.len(),
{
    if dirs.len() == 0 {
        Seq::empty()
    } else if no_match(name, dirs[0]) {
        matching_directories(name, dirs.drop_first())
    } else {
        seq![dirs[0]] + matching_directories(name, dirs.drop_first())
    }
}

/// Directories that hold no match do not count: the search gives what it
/// would give with them left out.
pub proof fn lemma_unmatched_directories_ignored(name: Seq<char>, dirs: Seq<Seq<CandidateView>>)
    ensures
        find_spec(name, dirs.flatten()) == find_spec(
            name,
            matching_directories(name, dirs).flatten(),
        ),
    decreases dirs.len(),
{
    if dirs.len() > 0 {
        let rest = dirs.drop_first();
        lemma_unmatched_directories_ignored(name, rest);
        lemma_find_concat(name, dirs[0], rest.flatten());
        lemma_find_none(name, dirs[0]);
        if !no_match(name, dirs[0]) {
            let kept = matching_directories(name, rest);
            assert((seq![dirs[0]] + kept).drop_first() == kept);
            lemma_find_concat(name, dirs[0], kept.flatten());
        }
    }
}

/// Two search paths that agree on the directories that hold a match, and on
/// their order, resolve `name` alike: the others may be moved, added or
/// taken away.
pub proof fn lemma_reordering_unmatched_directories(
    name: Seq<char>,
    dirs: Seq<Seq<CandidateView>>,
    other: Seq<Seq<CandidateView>>,
)
    requires
        matching_directories(name, dirs) == matching_directories(name, other),
    ensures
        find_spec(name, dirs.flatten()) == find_spec(name, other.flatten()),
{
    lemma_unmatched_directories_ignored(name, dirs);
    lemma_unmatched_directories_ignored(name, other);
}

/// Finds the first of `candidates` that is executable and answers to
/// `name`, in the order given, and returns its path.
pub fn find<'a>(name: &str, candidates: &'a Vec<Candidate>) -> (found: Option<&'a str>)
    ensures
        crate::path::opt_str_view(found) == find_spec(name@, candidates.deep_view()),
{
    let ghost all = candidates.deep_view();
    let mut i: usize = 0;
    while i < candidates.len()
        invariant
            i <= candidates.len(),
            all == candidates.deep_view(),
            no_match(name@, all.take(i as int)),
        decreases candidates.len() - i,
    {
        let candidate = &candidates[i];
        if candidate.executable && candidate.name.as_str().eq(name) {
            proof {
                lemma_first_match_unique(name@, all, i as int);
            }
            return Some(candidate.path.as_str());
        }
        assert forall|j: int| 0 <= j < i + 1 implies !answers_to(
            name@,
            #[trigger] all.take(i + 1)[j],
        ) by {
            if j < i {
                assert(all.take(i + 1)[j] == all.take(i as int)[j]);
            }
        }
        i += 1;
    }
    proof {
        assert(all.take(i as int) == all);
        lemma_first_match(name@, all);
    }
    None
}

/// Whether `candidates` lists `files` in order, each under the name that its
/// path gives it. Only the executable flags are left open.
pub open spec fn lists(candidates: Seq<CandidateView>, files: Seq<Seq<char>>) -> bool {
    &&& candidates.len() == files.len()
    &&& forall|i: int|
        0 <= i < files.len() ==> {
            &&& (#[trigger] candidates[i]).path == files[i]
            &&& candidates[i].name == program_name(files[i])
        }
}

/// The listing of `files` in which nothing is executable.
pub open spec fn unprobed(files: Seq<Seq<char>>) -> Seq<CandidateView> {
    Seq::new(
        files.len(),
        |i: int| CandidateView { path: files[i], name: program_name(files[i]), executable: false },
    )
}

/// Takes a listing of `files`: names each by the stem of its path and asks
/// the file system whether it is executable. The flags are whatever the
/// file system answered at the time of the call.
pub fn probe(files: &Vec<String>) -> (candidates: Vec<Candidate>)
    ensures
        lists(candidates.deep_view(), files.deep_view()),
{
    let mut candidates: Vec<Candidate> = Vec::new();
    let mut i: usize = 0;
    while i < files.len()
        invariant
            i <= files.len(),
            candidates.len() == i,
            forall|k: int|
                0 <= k < i ==> {
                    &&& (#[trigger] candidates[k]).path@ == files[k]@
                    &&& candidates[k].name@ == program_name(files[k]@)
                },
        decreases files.len() - i,
    {
        let file = files[i].as_str();
        let name = program_name_of(file).to_owned();
        let executable = is_executable(file);
        candidates.push(Candidate { path: file.to_owned(), name, executable });
        i += 1;
    }
    candidates
}

} // verus!
