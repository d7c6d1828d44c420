//! Finding the configuration that applies to a source file: the directories
//! to search, the decision at each of them, and which one wins.

use vstd::prelude::*;
use vstd::string::{StrSliceExecFns, StringExecFns};
use crate::config::{Options, RootMode};

verus! {

/// What `path_clean::clean` makes of a path.
pub uninterp spec fn cleaned(path: Seq<char>) -> Seq<char>;

/// Relies on `path_clean::clean`: a lexical clean-up of the path (repeated
/// and trailing separators, `.` and `..` elements), whose result depends on
/// the text alone and is never empty (`.` stands for an empty result).
#[verifier::external_body]
fn clean_path(path: &str) -> (r: String)
    ensures
        r@ == cleaned(path@),
        r@.len() > 0,
{
    path_clean::clean(path).to_string_lossy().into_owned()
}

/// The index of the last `/` among the first `n` characters, or -1.
pub open spec fn last_slash_before(p: Seq<char>, n: int) -> int
    decreases n,
{
    if n <= 0 {
        -1
    } else if p[n - 1] == '/' {
        n - 1
    } else {
        last_slash_before(p, n - 1)
    }
}

proof fn last_slash_bounds(p: Seq<char>, n: int)
    requires
        0 <= n <= p.len(),
    ensures
        -1 <= last_slash_before(p, n) < n,
        last_slash_before(p, n) >= 0 ==> p[last_slash_before(p, n)] == '/',
    decreases n,
{
    if n > 0 && p[n - 1] != '/' {
        last_slash_bounds(p, n - 1);
    }
}

/// The directory that holds a path: the text before its last `/` (the root
/// `/` for a top-level entry); none for the root itself or a path with no
/// `/`.
pub open spec fn parent_of(p: Seq<char>) -> Option<Seq<char>> {
    let i = last_slash_before(p, p.len() as int);
    if i < 0 || p.len() <= 1 {
        None
    } else if i == 0 {
        Some(seq!['/'])
    } else {
        Some(p.subrange(0, i))
    }
}

proof fn parent_is_shorter(p: Seq<char>)
    ensures
        parent_of(p) matches Some(q) ==> q.len() < p.len(),
{
    last_slash_bounds(p, p.len() as int);
}

/// The directory that holds `path`.
pub fn parent_dir(path: &String) -> (r: Option<String>)
    ensures
        r matches Some(q) ==> parent_of(path@) == Some(q@),
        r is None ==> parent_of(path@) is None,
{
    let s = path.as_str();
    let n = s.unicode_len();
    let mut k: usize = n;
    let mut found: bool = false;
    while k > 0 && !found
        invariant
            k <= n,
            n == path@.len(),
            s@ == path@,
            found ==> k > 0 && last_slash_before(path@, n as int) == k - 1,
            !found ==> last_slash_before(path@, n as int) == last_slash_before(path@, k as int),
        decreases k + (if found { 0int } else { 1int }),
    {
        if s.get_char(k - 1) == '/' {
            found = true;
        } else {
            k = k - 1;
        }
    }
    if !found {
        assert(last_slash_before(path@, 0) == -1);
    }
    if !found || n <= 1 {
        None
    } else if k == 1 {
        let r = String::from_str("/");
        proof {
            reveal_strlit("/");
        }
        assert(r@ =~= seq!['/']);
        Some(r)
    } else {
        Some(String::from_str(s.substring_char(0, k - 1)))
    }
}

/// Whether `dirs` is `start` followed by each directory's parent in turn, up
/// to one that has none.
pub open spec fn is_ancestor_chain(start: Option<Seq<char>>, dirs: Seq<Seq<char>>) -> bool {
    match start {
        None => dirs.len() == 0,
        Some(d) => {
            &&& dirs.len() > 0
            &&& dirs[0] == d
            &&& forall|i: int| 0 <= i < dirs.len() - 1 ==> parent_of(#[trigger] dirs[i]) == Some(dirs[i + 1])
            &&& parent_of(dirs.last()) is None
        },
    }
}

pub open spec fn dirs_view(v: Seq<String>) -> Seq<Seq<char>> {
    v.map_values(|s: String| s@)
}

/// The directory `dir` and all that hold it, nearest first.
pub fn ancestors_of(dir: String) -> (r: Vec<String>)
    ensures
        is_ancestor_chain(Some(dir@), dirs_view(r@)),
{
    let ghost start = dir@;
    let mut r: Vec<String> = Vec::new();
    let mut cur: String = dir;
    loop
        invariant
            start == dir@,
            r@.len() == 0 ==> cur@ == start,
            r@.len() > 0 ==> dirs_view(r@)[0] == start,
            r@.len() > 0 ==> parent_of(dirs_view(r@).last()) == Some(cur@),
            forall|i: int|
                0 <= i < r@.len() - 1 ==> parent_of(#[trigger] dirs_view(r@)[i]) == Some(
                    dirs_view(r@)[i + 1],
                ),
        decreases cur@.len(),
    {
        let next = parent_dir(&cur);
        proof {
            parent_is_shorter(cur@);
        }
        let ghost before = r@;
        let ghost c = cur@;
        r.push(cur);
        assert(dirs_view(r@) =~= dirs_view(before).push(c));
        let ghost dv = dirs_view(r@);
        assert forall|i: int| 0 <= i < dv.len() - 1 implies parent_of(#[trigger] dv[i]) == Some(
            dv[i + 1],
        ) by {
            if i < before.len() - 1 {
                assert(dirs_view(before)[i] == dv[i]);
                assert(dirs_view(before)[i + 1] == dv[i + 1]);
            } else {
                assert(dv[i] == dirs_view(before).last());
            }
        }
        assert(dv[0] == start);
        match next {
            Some(p) => {
                cur = p;
            },
            None => {
                assert(dv.last() == c);
                assert(is_ancestor_chain(Some(start), dv));
                return r;
            },
        }
    }
}

/// The identity of a source unit: anonymous, or backed by a path.
#[derive(Clone, Debug, PartialEq, Eq)]
pub enum SourceId {
    Anon,
    Real(String),
}

/// The source identity that a file name gives: an empty name is anonymous.
pub fn source_id(filename: &String) -> (r: SourceId)
    ensures
        filename@.len() == 0 ==> r == SourceId::Anon,
        filename@.len() > 0 ==> r == SourceId::Real(*filename),
{
    if filename.as_str().unicode_len() == 0 {
        SourceId::Anon
    } else {
        SourceId::Real(filename.clone())
    }
}

/// Where to look for configuration files.
#[derive(Debug)]
pub enum Lookup {
    /// Look at no file: build from the invocation's options alone.
    Skip,
    /// Look in each of `dirs`, nearest first; `root` bounds the walk.
    Walk { dirs: Vec<String>, root: Option<String> },
}

/// The directories to search for a file at `path`: those that hold its
/// cleaned path, nearest first.
pub fn source_dirs(path: &String) -> (r: Vec<String>)
    ensures
        is_ancestor_chain(parent_of(cleaned(path@)), dirs_view(r@)),
{
    let c = clean_path(path.as_str());
    match parent_dir(&c) {
        Some(d) => ancestors_of(d),
        None => {
            let r: Vec<String> = Vec::new();
            assert(dirs_view(r@) =~= Seq::<Seq<char>>::empty());
            r
        },
    }
}

pub open spec fn root_view(root: Option<String>) -> Option<Seq<char>> {
    match root {
        Some(r) => Some(r@),
        None => None,
    }
}

/// How to look up configuration files for `file`: not at all when lookup
/// is switched off or the source is anonymous, else in the directories that
/// hold it, bounded by the declared root, cleaned as the path is.
pub fn plan_lookup(opts: &Options, file: &SourceId) -> (r: Lookup)
    ensures
        !opts.swcrc ==> r is Skip,
        *file == SourceId::Anon ==> r is Skip,
        opts.swcrc ==> match *file {
            SourceId::Anon => r is Skip,
            SourceId::Real(p) => match r {
                Lookup::Skip => false,
                Lookup::Walk { dirs, root } => {
                    &&& is_ancestor_chain(parent_of(cleaned(p@)), dirs_view(dirs@))
                    &&& root_view(root) == match opts.root {
                        None => None,
                        Some(want) => Some(cleaned(want@)),
                    }
                },
            },
        },
{
    if !opts.swcrc {
        return Lookup::Skip;
    }
    match file {
        SourceId::Anon => Lookup::Skip,
        SourceId::Real(p) => {
            let root = match &opts.root {
                Some(want) => Some(clean_path(want.as_str())),
                None => None,
            };
            Lookup::Walk { dirs: source_dirs(p), root }
        },
    }
}

/// What was found at one directory of the walk.
#[derive(Clone, Debug)]
pub struct DirProbe {
    pub dir: String,
    /// Whether the cache holds a configuration for this directory.
    pub cached: bool,
    /// Whether the directory holds a configuration file.
    pub has_file: bool,
}

/// The decision at one directory of the walk.
#[derive(Clone, Copy, Debug, PartialEq, Eq, Structural)]
pub enum WalkStep {
    /// Take the cached configuration of this directory.
    UseCached,
    /// Load this directory's configuration file.
    LoadFile,
    /// Stop: no file applies.
    Stop,
    /// Go on to the parent directory.
    Ascend,
}

/// Whether the walk stops at `dir` when nothing was found there: it is the
/// declared root and the root mode is strict.
pub open spec fn stops_at(dir: Seq<char>, root: Option<String>, mode: RootMode) -> bool {
    mode == RootMode::Root && (root matches Some(r) && r@ == dir)
}

/// Whether a directory supplies the configuration.
pub open spec fn applies(p: DirProbe) -> bool {
    p.cached || p.has_file
}

/// The decision at one directory: a cached configuration first, then a file
/// there, then the root boundary; else on to the parent.
pub fn walk_step(probe: &DirProbe, root: &Option<String>, mode: RootMode) -> (r: WalkStep)
    ensures
        probe.cached ==> r == WalkStep::UseCached,
        !probe.cached && probe.has_file ==> r == WalkStep::LoadFile,
        !applies(*probe) && stops_at(probe.dir@, *root, mode) ==> r == WalkStep::Stop,
        !applies(*probe) && !stops_at(probe.dir@, *root, mode) ==> r == WalkStep::Ascend,
{
    if probe.cached {
        WalkStep::UseCached
    } else if probe.has_file {
        WalkStep::LoadFile
    } else {
        let at_root = match root {
            Some(r) => r.eq(&probe.dir),
            None => false,
        };
        if at_root && mode == RootMode::Root {
            WalkStep::Stop
        } else {
            WalkStep::Ascend
        }
    }
}

/// The directory whose configuration applies, among the probed directories
/// (nearest first): the first that supplies one, unless the walk stopped
/// at the strict root before it.
pub fn select_config_dir(probes: &Vec<DirProbe>, root: &Option<String>, mode: RootMode) -> (r:
    Option<usize>)
    ensures
        r matches Some(i) ==> i < probes@.len() && applies(probes@[i as int]) && forall|j: int|
            0 <= j < i ==> !applies(#[trigger] probes@[j]) && !stops_at(probes@[j].dir@, *root, mode),
        r is None ==> forall|i: int|
            0 <= i < probes@.len() && applies(#[trigger] probes@[i]) ==> exists|j: int|
                0 <= j < i && stops_at(#[trigger] probes@[j].dir@, *root, mode),
{
    let mut i: usize = 0;
    while i < probes.len()
        invariant
            i <= probes@.len(),
            forall|j: int|
                0 <= j < i ==> !applies(#[trigger] probes@[j]) && !stops_at(
                    probes@[j].dir@,
                    *root,
                    mode,
                ),
        decreases probes@.len() - i,
    {
        match walk_step(&probes[i], root, mode) {
            WalkStep::UseCached | WalkStep::LoadFile => {
                return Some(i);
            },
            WalkStep::Stop => {
                assert forall|k: int| 0 <= k < probes@.len() && applies(#[trigger] probes@[k]) implies exists|j: int|
                    0 <= j < k && stops_at(#[trigger] probes@[j].dir@, *root, mode) by {
                    assert(k > i);
                    assert(stops_at(probes@[i as int].dir@, *root, mode));
                }
                return None;
            },
            WalkStep::Ascend => {},
        }
        i = i + 1;
    }
    None
}

/// The name of the configuration file that a directory may hold.
pub open spec fn config_file_name() -> Seq<char> {
    seq!['.', 's', 'w', 'c', 'r', 'c']
}

/// The path of the configuration file in `dir`.
pub open spec fn config_file_in(dir: Seq<char>) -> Seq<char> {
    if dir.len() > 0 && dir.last() == '/' {
        dir + config_file_name()
    } else {
        dir + seq!['/'] + config_file_name()
    }
}

/// The path of the configuration file in `dir`.
pub fn config_file_path(dir: &String) -> (r: String)
    ensures
        r@ == config_file_in(dir@),
{
    let s = dir.as_str();
    let n = s.unicode_len();
    let mut r = dir.clone();
    if !(n > 0 && s.get_char(n - 1) == '/') {
        r.append("/");
    }
    r.append(".swcrc");
    proof {
        reveal_strlit("/");
        reveal_strlit(".swcrc");
    }
    assert(r@ =~= config_file_in(dir@));
    r
}

} // verus!
