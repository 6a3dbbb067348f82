//! A test case: a source project that is built in every environment, with
//! the environment variables and mounts that its container is given.
use vstd::prelude::*;
use crate::environment::{cargo_home_path, Environment};
use crate::text::{copy_strings, has_prefix, starts_with, views};

verus! {

/// The key under which compiler flags are passed to the build tool.
pub open spec fn flags_key() -> Seq<char> {
    "RUSTFLAGS="@
}

/// The compiler flag that asks for a statically linked C runtime.
pub open spec fn static_flag() -> Seq<char> {
    "-C target-feature=+crt-static"@
}

/// Whether an environment entry `NAME[=VALUE]` sets the compiler flags.
pub open spec fn is_flags_entry(v: Seq<char>) -> bool {
    has_prefix(v, flags_key())
}

/// The position of the first compiler-flags entry, if there is one.
pub open spec fn first_flags_entry(vs: Seq<Seq<char>>) -> Option<int>
    decreases vs.len(),
{
    if vs.len() == 0 {
        None
    } else {
        match first_flags_entry(vs.drop_last()) {
            Some(i) => Some(i),
            None => if is_flags_entry(vs.last()) { Some(vs.len() - 1) } else { None },
        }
    }
}

/// The entries with the static-linking flag merged in: appended to the
/// first compiler-flags entry, or added as a new entry where there is none.
pub open spec fn merged_flags(vs: Seq<Seq<char>>) -> Seq<Seq<char>> {
    match first_flags_entry(vs) {
        Some(i) => vs.update(i, vs[i] + " "@ + static_flag()),
        None => vs.push(flags_key() + static_flag()),
    }
}

/// No two entries set the compiler flags.
pub open spec fn flags_unique(vs: Seq<Seq<char>>) -> bool {
    forall|i: int, j: int|
        0 <= i < vs.len() && 0 <= j < vs.len() && #[trigger] is_flags_entry(vs[i])
            && #[trigger] is_flags_entry(vs[j]) ==> i == j
}

/// The bind mounts of a test case: four toolchain caches under `cache`,
/// then the project's source root at the build root.
pub open spec fn volume_specs(cache: Seq<char>, home: Seq<char>, root: Seq<char>) -> Seq<
    Seq<char>,
> {
    seq![
        cache + "/registry:"@ + home + "/registry"@,
        cache + "/registry-index:"@ + home + "/registry/index"@,
        cache + "/registry-git:"@ + home + "/registry/git"@,
        cache + "/git-db:"@ + home + "/git/db"@,
        root + ":/build"@,
    ]
}

proof fn lemma_first_flags_entry(vs: Seq<Seq<char>>)
    ensures
        match first_flags_entry(vs) {
            Some(i) => 0 <= i < vs.len() && is_flags_entry(vs[i]) && forall|k: int|
                0 <= k < i ==> !#[trigger] is_flags_entry(vs[k]),
            None => forall|k: int| 0 <= k < vs.len() ==> !#[trigger] is_flags_entry(vs[k]),
        },
    decreases vs.len(),
{
    if vs.len() > 0 {
        lemma_first_flags_entry(vs.drop_last());
        assert(forall|k: int| 0 <= k < vs.len() - 1 ==> vs.drop_last()[k] == vs[k]);
    }
}

proof fn lemma_prefix_extends(a: Seq<char>, b: Seq<char>, p: Seq<char>)
    requires
        has_prefix(a, p),
    ensures
        has_prefix(a + b, p),
{
    assert((a + b).subrange(0, p.len() as int) =~= a.subrange(0, p.len() as int));
}

/// Merging the static-linking flag into environment entries that set the
/// compiler flags at most once leaves exactly one such entry: the old one
/// with the flag appended after a space, in place, or else a new entry
/// appended at the end. Every other entry stays as it was.
pub proof fn lemma_static_flag_merge(vs: Seq<Seq<char>>)
    requires
        flags_unique(vs),
    ensures
        flags_unique(merged_flags(vs)),
        exists|i: int| 0 <= i < merged_flags(vs).len() && #[trigger] is_flags_entry(merged_flags(vs)[i]),
        match first_flags_entry(vs) {
            Some(i) => {
                &&& merged_flags(vs).len() == vs.len()
                &&& merged_flags(vs)[i] == vs[i] + " "@ + static_flag()
                &&& forall|k: int| 0 <= k < vs.len() && k != i ==> #[trigger] merged_flags(vs)[k] == vs[k]
            },
            None => {
                &&& merged_flags(vs).len() == vs.len() + 1
                &&& merged_flags(vs).last() == flags_key() + static_flag()
                &&& forall|k: int| 0 <= k < vs.len() ==> #[trigger] merged_flags(vs)[k] == vs[k]
            },
        },
{
    lemma_first_flags_entry(vs);
    let m = merged_flags(vs);
    match first_flags_entry(vs) {
        Some(i) => {
            lemma_prefix_extends(vs[i], " "@ + static_flag(), flags_key());
            assert(vs[i] + " "@ + static_flag() == vs[i] + (" "@ + static_flag()));
            assert(is_flags_entry(m[i]));
            assert forall|a: int, b: int|
                0 <= a < m.len() && 0 <= b < m.len() && #[trigger] is_flags_entry(m[a])
                    && #[trigger] is_flags_entry(m[b]) implies a == b by {
                if a != i {
                    assert(m[a] == vs[a]);
                    assert(a == i);
                }
                if b != i {
                    assert(m[b] == vs[b]);
                    assert(b == i);
                }
            }
        },
        None => {
            let e = flags_key() + static_flag();
            assert(e.subrange(0, flags_key().len() as int) =~= flags_key());
            assert(is_flags_entry(m[vs.len() as int]));
            assert forall|a: int, b: int|
                0 <= a < m.len() && 0 <= b < m.len() && #[trigger] is_flags_entry(m[a])
                    && #[trigger] is_flags_entry(m[b]) implies a == b by {
                if a < vs.len() {
                    assert(m[a] == vs[a]);
                }
                if b < vs.len() {
                    assert(m[b] == vs[b]);
                }
            }
        },
    }
}

/// A source project built as one test.
#[derive(Clone, Debug)]
pub struct TestCrate {
    path: String,
    name: String,
    env: Vec<String>,
}

/// A test case as plain values.
pub struct TestCrateView {
    pub path: Seq<char>,
    pub name: Seq<char>,
    pub env: Seq<Seq<char>>,
}

impl View for TestCrate {
    type V = TestCrateView;

    closed spec fn view(&self) -> TestCrateView {
        TestCrateView { path: self.path@, name: self.name@, env: views(self.env@) }
    }
}

/// Adds the static-linking flag to environment entries `NAME[=VALUE]`.
pub fn merge_static_flag(entries: Vec<String>) -> (r: Vec<String>)
    ensures
        views(r@) == merged_flags(views(entries@)),
{
    let ghost vs = views(entries@);
    let mut vars = entries;
    let mut i: usize = 0;
    while i < vars.len()
        invariant
            vs == views(entries@),
            views(vars@) == vs,
            i <= vars@.len(),
            forall|k: int| 0 <= k < i ==> !#[trigger] is_flags_entry(vs[k]),
        decreases vars@.len() - i,
    {
        assert(vs[i as int] == vars@[i as int]@);
        if starts_with(vars[i].as_str(), "RUSTFLAGS=") {
            assert(first_flags_entry(vs) == Some(i as int)) by {
                lemma_first_flags_entry(vs);
                match first_flags_entry(vs) {
                    Some(j) => {
                        if j < i {
                            assert(!is_flags_entry(vs[j]));
                        }
                        if j > i {
                            assert(is_flags_entry(vs[i as int]));
                        }
                    },
                    None => {
                        assert(!is_flags_entry(vs[i as int]));
                    },
                }
            }
            let mut merged = String::from_str(vars[i].as_str());
            merged.append(" ");
            merged.append("-C target-feature=+crt-static");
            assert(merged@ == vs[i as int] + " "@ + static_flag());
            let ghost before = vars@;
            vars.set(i, merged);
            assert(vars@ == before.update(i as int, merged));
            assert(views(vars@) =~= vs.update(i as int, merged@));
            return vars;
        }
        i = i + 1;
    }
    assert(first_flags_entry(vs) is None) by {
        lemma_first_flags_entry(vs);
        if let Some(j) = first_flags_entry(vs) {
            assert(!is_flags_entry(vs[j]));
        }
    }
    let mut entry = String::from_str("RUSTFLAGS=");
    entry.append("-C target-feature=+crt-static");
    let ghost before = vars@;
    vars.push(entry);
    assert(views(vars@) =~= views(before).push(entry@));
    vars
}

impl TestCrate {
    /// A test case with its source root, its name and its declared
    /// environment entries.
    pub fn new(path: String, name: String, env: Vec<String>) -> (r: TestCrate)
        ensures
            r@ == (TestCrateView { path: path@, name: name@, env: views(env@) }),
    {
        TestCrate { path, name, env }
    }

    /// The root directory of the project's sources.
    pub fn path(&self) -> (r: &str)
        ensures
            r@ == self@.path,
    {
        self.path.as_str()
    }

    /// The name of the project, which is also the test's name.
    pub fn name(&self) -> (r: &str)
        ensures
            r@ == self@.name,
    {
        self.name.as_str()
    }

    /// A copy of this test case.
    pub fn duplicate(&self) -> (r: TestCrate)
        ensures
            r@ == self@,
    {
        TestCrate {
            path: String::from_str(self.path.as_str()),
            name: String::from_str(self.name.as_str()),
            env: copy_strings(&self.env),
        }
    }

    /// The container's environment entries: the declared ones, with the
    /// static-linking flag merged in.
    pub fn env_vars(&self) -> (r: Vec<String>)
        ensures
            views(r@) == merged_flags(self@.env),
    {
        merge_static_flag(copy_strings(&self.env))
    }

    /// The container's bind mounts, with the toolchain caches kept under
    /// `cache_dir` on the host.
    pub fn volumes(&self, cache_dir: &str, env: &Environment) -> (r: Vec<String>)
        ensures
            views(r@) == volume_specs(cache_dir@, cargo_home_path(), self@.path),
    {
        let home = env.cargo_home();
        let mut a = String::from_str(cache_dir);
        a.append("/registry:");
        a.append(home);
        a.append("/registry");
        let mut b = String::from_str(cache_dir);
        b.append("/registry-index:");
        b.append(home);
        b.append("/registry/index");
        let mut c = String::from_str(cache_dir);
        c.append("/registry-git:");
        c.append(home);
        c.append("/registry/git");
        let mut d = String::from_str(cache_dir);
        d.append("/git-db:");
        d.append(home);
        d.append("/git/db");
        let mut e = String::from_str(self.path.as_str());
        e.append(":/build");
        let r = vec![a, b, c, d, e];
        assert(views(r@) =~= volume_specs(cache_dir@, cargo_home_path(), self@.path));
        r
    }
}

} // verus!
