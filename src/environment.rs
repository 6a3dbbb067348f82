//! The catalog of build environments. Each environment names a container
//! image (by label) and the static-libc target its toolchain builds for.
use vstd::prelude::*;

verus! {

/// A build environment in which a test project is compiled.
#[derive(Clone, Debug)]
pub struct Environment {
    name: String,
    musl_target: String,
}

/// An environment as plain values: its name and its target identifier.
pub struct EnvironmentView {
    pub name: Seq<char>,
    pub target: Seq<char>,
}

/// The catalog: every environment, in the order in which it is listed.
pub open spec fn catalog() -> Seq<EnvironmentView> {
    seq![
        EnvironmentView {
            name: "alpine-custom-rust"@,
            target: "x86_64-alpine-linux-musl"@,
        },
        EnvironmentView {
            name: "alpine-official-rust"@,
            target: "x86_64-unknown-linux-musl"@,
        },
        EnvironmentView { name: "debian-rust"@, target: "x86_64-unknown-linux-musl"@ },
    ]
}

/// The position in the catalog of the environment called `name`, if any.
pub open spec fn catalog_index(name: Seq<char>) -> Option<int> {
    if catalog()[0].name == name {
        Some(0)
    } else if catalog()[1].name == name {
        Some(1)
    } else if catalog()[2].name == name {
        Some(2)
    } else {
        None
    }
}

/// Where the toolchain of every environment keeps its package caches.
pub open spec fn cargo_home_path() -> Seq<char> {
    "/root/.cargo"@
}

impl View for Environment {
    type V = EnvironmentView;

    closed spec fn view(&self) -> EnvironmentView {
        EnvironmentView { name: self.name@, target: self.musl_target@ }
    }
}

/// The views of a sequence of environments.
pub open spec fn env_views(v: Seq<Environment>) -> Seq<EnvironmentView> {
    v.map_values(|e: Environment| e@)
}

impl Environment {
    /// An environment with the given name and target identifier.
    pub fn new(name: &str, musl_target: &str) -> (r: Environment)
        ensures
            r@ == (EnvironmentView { name: name@, target: musl_target@ }),
    {
        Environment { name: String::from_str(name), musl_target: String::from_str(musl_target) }
    }

    /// The environment of the catalog called exactly `name`.
    pub fn from_name(name: &str) -> (r: Option<Environment>)
        ensures
            match catalog_index(name@) {
                Some(i) => r matches Some(e) && e@ == catalog()[i],
                None => r is None,
            },
    {
        let all = all_environments();
        let wanted = String::from_str(name);
        assert(all@.len() == catalog().len());
        let mut i: usize = 0;
        while i < all.len()
            invariant
                wanted@ == name@,
                all@.len() == 3,
                env_views(all@) == catalog(),
                i <= all@.len(),
                forall|k: int| 0 <= k < i ==> #[trigger] catalog()[k].name != name@,
            decreases all@.len() - i,
        {
            if all[i].name == wanted {
                assert(catalog()[i as int] == all@[i as int]@);
                return Some(Environment::new(all[i].name.as_str(), all[i].musl_target.as_str()));
            }
            assert(catalog()[i as int] == all@[i as int]@);
            i = i + 1;
        }
        assert(catalog()[0].name != name@ && catalog()[1].name != name@ && catalog()[2].name != name@);
        None
    }

    /// The environment's name, which is also the label of its image.
    pub fn name(&self) -> (r: &str)
        ensures
            r@ == self@.name,
    {
        self.name.as_str()
    }

    /// The static-libc target identifier of the environment's toolchain.
    pub fn musl_target(&self) -> (r: &str)
        ensures
            r@ == self@.target,
    {
        self.musl_target.as_str()
    }

    /// The toolchain's home directory inside the container.
    pub fn cargo_home(&self) -> (r: &'static str)
        ensures
            r@ == cargo_home_path(),
    {
        "/root/.cargo"
    }
}

/// Every environment of the catalog, in catalog order.
pub fn all_environments() -> (r: Vec<Environment>)
    ensures
        env_views(r@) == catalog(),
{
    let r = vec![
        Environment::new("alpine-custom-rust", "x86_64-alpine-linux-musl"),
        Environment::new("alpine-official-rust", "x86_64-unknown-linux-musl"),
        Environment::new("debian-rust", "x86_64-unknown-linux-musl"),
    ];
    assert(env_views(r@) =~= catalog());
    r
}

/// The names of every environment of the catalog, in catalog order.
pub fn all_environment_names() -> (r: Vec<String>)
    ensures
        r@.len() == catalog().len(),
        forall|i: int| 0 <= i < r@.len() ==> #[trigger] r@[i]@ == catalog()[i].name,
{
    let all = all_environments();
    let mut r: Vec<String> = Vec::new();
    let mut i: usize = 0;
    while i < all.len()
        invariant
            env_views(all@) == catalog(),
            i <= all@.len(),
            r@.len() == i,
            forall|k: int| 0 <= k < i ==> #[trigger] r@[k]@ == catalog()[k].name,
        decreases all@.len() - i,
    {
        assert(all@[i as int]@ == catalog()[i as int]);
        r.push(String::from_str(all[i].name()));
        i = i + 1;
    }
    r
}

} // verus!
