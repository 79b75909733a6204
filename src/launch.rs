//! Resolving what to launch, and the bounded wait for readiness.
use vstd::prelude::*;
use crate::error::{SupervisorError, ErrorView};

verus! {

/// Name of the backend's working directory, under the current directory.
pub const BACKEND_DIR_NAME: &'static str = "python-backend";

/// Name of the backend's entry script, inside its working directory.
pub const BACKEND_SCRIPT_NAME: &'static str = "main.py";

/// Health probes made while waiting for a freshly spawned backend, one
/// second apart.
pub const READINESS_ATTEMPTS: u32 = 30;

/// Interpreter names to try, in order, on Windows or elsewhere.
pub open spec fn candidate_names(windows: bool) -> Seq<Seq<char>> {
    if windows {
        seq!["python.exe"@, "python3.exe"@, "py.exe"@]
    } else {
        seq!["python3"@, "python"@]
    }
}

/// The interpreter names to try, in order of preference.
pub fn executable_candidates(windows: bool) -> (r: Vec<String>)
    ensures
        names_of(r@) == candidate_names(windows),
{
    let mut r: Vec<String> = Vec::new();
    if windows {
        r.push(String::from_str("python.exe"));
        r.push(String::from_str("python3.exe"));
        r.push(String::from_str("py.exe"));
    } else {
        r.push(String::from_str("python3"));
        r.push(String::from_str("python"));
    }
    assert(names_of(r@) =~= candidate_names(windows));
    r
}

/// The texts of a sequence of strings.
pub open spec fn names_of(v: Seq<String>) -> Seq<Seq<char>> {
    v.map_values(|s: String| s@)
}

/// Index of the first candidate that could be invoked, if any.
pub open spec fn first_usable_index(usable: Seq<bool>, n: int) -> Option<int> {
    if exists|i: int| 0 <= i < n && i < usable.len() && usable[i] {
        let i = choose|i: int|
            0 <= i < n && i < usable.len() && usable[i] && forall|j: int|
                0 <= j < i ==> !usable[j];
        Some(i)
    } else {
        None
    }
}

/// What a launch resolves to: the interpreter is checked first (the first
/// usable of the candidates), then the backend directory, then the script.
pub open spec fn resolution(
    dir_exists: bool,
    script_exists: bool,
    candidates: Seq<Seq<char>>,
    usable: Seq<bool>,
) -> Result<Seq<char>, ErrorView> {
    match first_usable_index(usable, candidates.len() as int) {
        None => Err(ErrorView::ExecutableNotFound),
        Some(i) => if !dir_exists {
            Err(ErrorView::DirectoryNotFound)
        } else if !script_exists {
            Err(ErrorView::ScriptNotFound)
        } else {
            Ok(candidates[i])
        },
    }
}

proof fn lemma_first_usable(usable: Seq<bool>, n: int, i: int)
    requires
        0 <= i < n,
        i < usable.len(),
        usable[i],
        forall|j: int| 0 <= j < i ==> !usable[j],
    ensures
        first_usable_index(usable, n) == Some(i),
{
    let k = choose|k: int|
        0 <= k < n && k < usable.len() && usable[k] && forall|j: int| 0 <= j < k ==> !usable[j];
    assert(k == i) by {
        if k < i {
            assert(!usable[k]);
        }
        if i < k {
            assert(!usable[i]);
        }
    }
}

/// Decides the interpreter to launch with, given which candidates
/// answered a version query (`usable[i]` for `candidates[i]`) and which
/// backend paths exist.
pub fn resolve_launch(
    dir_exists: bool,
    script_exists: bool,
    candidates: &Vec<String>,
    usable: &Vec<bool>,
) -> (r: Result<String, SupervisorError>)
    ensures
        match r {
            Ok(s) => resolution(dir_exists, script_exists, names_of(candidates@), usable@) == Ok::<Seq<char>, ErrorView>(s@),
            Err(e) => resolution(dir_exists, script_exists, names_of(candidates@), usable@) == Err::<Seq<char>, ErrorView>(e@),
        },
{
    let ghost names = names_of(candidates@);
    let mut i: usize = 0;
    while i < candidates.len()
        invariant
            i <= candidates.len(),
            names == names_of(candidates@),
            forall|j: int| 0 <= j < i && j < usable@.len() ==> !usable@[j],
        decreases candidates.len() - i,
    {
        if i < usable.len() && usable[i] {
            proof {
                lemma_first_usable(usable@, names.len() as int, i as int);
            }
            if !dir_exists {
                return Err(SupervisorError::DirectoryNotFound);
            }
            if !script_exists {
                return Err(SupervisorError::ScriptNotFound);
            }
            let chosen = candidates[i].clone();
            assert(names[i as int] == chosen@);
            return Ok(chosen);
        }
        i = i + 1;
    }
    assert(first_usable_index(usable@, names.len() as int) is None);
    Err(SupervisorError::ExecutableNotFound)
}

/// Verdict after one probe of the readiness wait.
#[derive(Debug, Clone, Copy, PartialEq, Eq, Structural)]
pub enum Readiness {
    /// The backend answered healthy.
    Ready,
    /// Not yet; sleep a second and probe again.
    Retry,
    /// The last allowed probe failed.
    TimedOut,
}

/// The verdict on the `n`-th probe (counting from one) of a wait allowed
/// `limit` probes.
pub open spec fn readiness_after(n: nat, limit: nat, healthy: bool) -> Readiness {
    if healthy {
        Readiness::Ready
    } else if n >= limit {
        Readiness::TimedOut
    } else {
        Readiness::Retry
    }
}

/// A bounded wait for a spawned backend to answer healthy: at most
/// `limit` probes.
pub struct ReadinessWait {
    attempts: u32,
    limit: u32,
}

impl ReadinessWait {
    pub closed spec fn attempts(&self) -> nat {
        self.attempts as nat
    }

    pub closed spec fn limit(&self) -> nat {
        self.limit as nat
    }

    /// A wait allowed `limit` probes, none made yet.
    pub fn new(limit: u32) -> (r: ReadinessWait)
        ensures
            r.attempts() == 0,
            r.limit() == limit,
    {
        ReadinessWait { attempts: 0, limit }
    }

    /// Whether every allowed probe has been made.
    pub fn is_exhausted(&self) -> (r: bool)
        ensures
            r == (self.attempts() >= self.limit()),
    {
        self.attempts >= self.limit
    }

    /// Books the outcome of one more probe and gives the verdict.
    pub fn record(&mut self, healthy: bool) -> (r: Readiness)
        requires
            old(self).attempts() < old(self).limit(),
        ensures
            final(self).attempts() == old(self).attempts() + 1,
            final(self).limit() == old(self).limit(),
            r == readiness_after(final(self).attempts(), final(self).limit(), healthy),
    {
        self.attempts = self.attempts + 1;
        if healthy {
            Readiness::Ready
        } else if self.attempts >= self.limit {
            Readiness::TimedOut
        } else {
            Readiness::Retry
        }
    }
}

} // verus!
