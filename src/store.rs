//! The store of runs: one directory per run under a common root, named by
//! the run's id.

use vstd::prelude::*;

verus! {

/// A run: its id and its directory.
#[derive(Clone, Debug, PartialEq, Eq)]
pub struct Run {
    pub id: String,
    pub run_directory: String,
}

/// The root directory that holds one directory per run.
#[derive(Clone, Debug, PartialEq, Eq)]
pub struct Runs {
    run_directory: String,
}

/// Why a query names no single run.
#[derive(Clone, Copy, Debug, PartialEq, Eq, Structural)]
pub enum ResolveError {
    NotFound,
    AmbiguousId,
}

/// Whether `id` has the hyphenated lower-case form of a UUID: 36
/// characters, hyphens at 8, 13, 18 and 23, lower-case hex digits elsewhere.
pub open spec fn is_uuid_form(id: Seq<char>) -> bool {
    &&& id.len() == 36
    &&& forall|i: int|
        0 <= i < 36 ==> if i == 8 || i == 13 || i == 18 || i == 23 {
            #[trigger] id[i] == '-'
        } else {
            ('0' <= id[i] <= '9') || ('a' <= id[i] <= 'f')
        }
}

/// `dir` and `name` joined by a path separator.
pub open spec fn join_path(dir: Seq<char>, name: Seq<char>) -> Seq<char> {
    dir + seq!['/'] + name
}

/// Whether `p` is a prefix of `s`.
pub open spec fn is_prefix(p: Seq<char>, s: Seq<char>) -> bool {
    p.len() <= s.len() && s.subrange(0, p.len() as int) == p
}

/// The ids among `ids` that start with `query`, in their order.
pub open spec fn matching_ids(ids: Seq<String>, query: Seq<char>) -> Seq<String>
    decreases ids.len(),
{
    if ids.len() == 0 {
        Seq::empty()
    } else {
        let rest = matching_ids(ids.drop_last(), query);
        if is_prefix(query, ids.last()@) {
            rest.push(ids.last())
        } else {
            rest
        }
    }
}

/// Whether `run` is the run named `id` in the root `root`.
pub open spec fn run_at(root: Seq<char>, id: String, run: Run) -> bool {
    run.id == id && run.run_directory@ == join_path(root, id@)
}

/// `dir` joined with `name`.
fn join(dir: &String, name: &str) -> (r: String)
    ensures
        r@ == join_path(dir@, name@),
{
    let mut out = dir.clone();
    out.append("/");
    proof {
        reveal_strlit("/");
    }
    out.append(name);
    out
}

/// Whether `s` starts with `p`.
fn starts_with(s: &str, p: &str) -> (r: bool)
    ensures
        r == is_prefix(p@, s@),
{
    let n = p.unicode_len();
    let m = s.unicode_len();
    if n > m {
        return false;
    }
    let mut i: usize = 0;
    while i < n
        invariant
            n == p@.len(),
            m == s@.len(),
            n <= m,
            i <= n,
            forall|j: int| 0 <= j < i ==> s@[j] == p@[j],
        decreases n - i,
    {
        if s.get_char(i) != p.get_char(i) {
            return false;
        }
        i = i + 1;
    }
    assert(s@.subrange(0, n as int) =~= p@);
    true
}

/// Relies on uuid's `Uuid::new_v4` and its `to_string`: a fresh random id,
/// which `Display` writes in the hyphenated lower-case form.
#[verifier::external_body]
fn fresh_id() -> (r: String)
    ensures
        is_uuid_form(r@),
{
    uuid::Uuid::new_v4().to_string()
}

impl Runs {
    pub closed spec fn root(&self) -> Seq<char> {
        self.run_directory@
    }

    /// The store whose runs live in the `runs` directory of `data_dir`.
    pub fn new(data_dir: &String) -> (r: Runs)
        ensures
            r.root() == join_path(data_dir@, "runs"@),
    {
        Runs { run_directory: join(data_dir, "runs") }
    }

    /// The directory that holds the runs.
    pub fn run_directory(&self) -> (r: String)
        ensures
            r@ == self.root(),
    {
        self.run_directory.clone()
    }

    /// The run named `id`.
    pub fn run_named(&self, id: &String) -> (r: Run)
        ensures
            run_at(self.root(), *id, r),
    {
        Run { id: id.clone(), run_directory: join(&self.run_directory, id.as_str()) }
    }

    /// The run whose id starts with `id`, among the directory names `ids`
    /// found in the root: no such run is `NotFound`, more than one is
    /// `AmbiguousId`.
    pub fn get_run(&self, ids: &Vec<String>, id: &String) -> (r: Result<Run, ResolveError>)
        ensures
            matching_ids(ids@, id@).len() == 0 <==> r == Err::<Run, ResolveError>(ResolveError::NotFound),
            matching_ids(ids@, id@).len() >= 2 <==> r == Err::<Run, ResolveError>(ResolveError::AmbiguousId),
            matching_ids(ids@, id@).len() == 1 <==> r is Ok,
            r is Ok ==> run_at(self.root(), matching_ids(ids@, id@)[0], r->Ok_0),
    {
        let mut found: Vec<String> = Vec::new();
        let mut i: usize = 0;
        while i < ids.len()
            invariant
                i <= ids@.len(),
                found@ == matching_ids(ids@.subrange(0, i as int), id@),
            decreases ids@.len() - i,
        {
            let ghost before = ids@.subrange(0, i as int);
            assert(ids@.subrange(0, i + 1).drop_last() == before);
            if starts_with(ids[i].as_str(), id.as_str()) {
                found.push(ids[i].clone());
            }
            i = i + 1;
        }
        assert(ids@.subrange(0, ids@.len() as int) == ids@);
        if found.len() == 0 {
            Err(ResolveError::NotFound)
        } else if found.len() == 1 {
            Ok(self.run_named(&found[0]))
        } else {
            Err(ResolveError::AmbiguousId)
        }
    }

    /// The runs named by the directory names `ids` found in the root, in
    /// their order.
    pub fn get_all(&self, ids: &Vec<String>) -> (r: Vec<Run>)
        ensures
            r@.len() == ids@.len(),
            forall|i: int| 0 <= i < ids@.len() ==> run_at(self.root(), #[trigger] ids@[i], r@[i]),
    {
        let mut out: Vec<Run> = Vec::new();
        let mut i: usize = 0;
        while i < ids.len()
            invariant
                i <= ids@.len(),
                out@.len() == i,
                forall|j: int| 0 <= j < i ==> run_at(self.root(), #[trigger] ids@[j], out@[j]),
            decreases ids@.len() - i,
        {
            out.push(self.run_named(&ids[i]));
            i = i + 1;
        }
        out
    }

    /// A new run with a fresh random UUID as its id; its directory is not
    /// created here.
    pub fn new_run(&self) -> (r: Run)
        ensures
            run_at(self.root(), r.id, r),
            is_uuid_form(r.id@),
    {
        let id = fresh_id();
        self.run_named(&id)
    }
}

impl Run {
    /// The file that holds the run's record.
    pub fn get_data_file(&self) -> (r: String)
        ensures
            r@ == join_path(self.run_directory@, "data"@),
    {
        join(&self.run_directory, "data")
    }

    /// The file that collects the run's output.
    pub fn get_output_file(&self) -> (r: String)
        ensures
            r@ == join_path(self.run_directory@, "output.log"@),
    {
        join(&self.run_directory, "output.log")
    }
}

} // verus!
