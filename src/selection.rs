//! Choosing the environments and test cases of a run by name. An unknown
//! name rejects the whole selection before any container is launched.
use vstd::prelude::*;
use crate::environment::{all_environments, catalog, catalog_index, env_views, Environment};
use crate::test_case::TestCrate;
use crate::text::views;

verus! {

/// Why a selection was rejected.
#[derive(Clone, Debug, PartialEq, Eq)]
pub enum SelectionError {
    /// No environment has this name.
    UnknownEnvironment { name: String },
    /// No test case has this name.
    UnknownTest { name: String },
}

/// The position of the first element of `s` that satisfies `p`, if any.
pub open spec fn first_index<T>(s: Seq<T>, p: spec_fn(T) -> bool) -> Option<int>
    decreases s.len(),
{
    if s.len() == 0 {
        None
    } else {
        match first_index(s.drop_last(), p) {
            Some(i) => Some(i),
            None => if p(s.last()) { Some(s.len() - 1) } else { None },
        }
    }
}

proof fn lemma_first_index<T>(s: Seq<T>, p: spec_fn(T) -> bool)
    ensures
        match first_index(s, p) {
            Some(i) => 0 <= i < s.len() && p(s[i]) && forall|k: int| 0 <= k < i ==> !p(#[trigger] s[k]),
            None => forall|k: int| 0 <= k < s.len() ==> !p(#[trigger] s[k]),
        },
    decreases s.len(),
{
    if s.len() > 0 {
        lemma_first_index(s.drop_last(), p);
        assert(forall|k: int| 0 <= k < s.len() - 1 ==> s.drop_last()[k] == s[k]);
    }
}

/// `name` is not the name of an environment of the catalog.
pub open spec fn unknown_environment(name: Seq<char>) -> bool {
    catalog_index(name) is None
}

/// The names of the test cases.
pub open spec fn test_names(tests: Seq<TestCrate>) -> Seq<Seq<char>> {
    tests.map_values(|t: TestCrate| t@.name)
}

/// The position of the first of `tests` called `name`, if any.
pub open spec fn test_position(tests: Seq<TestCrate>, name: Seq<char>) -> Option<int> {
    first_index(test_names(tests), |n: Seq<char>| n == name)
}

/// `name` is not the name of any of `tests`.
pub open spec fn unknown_test(tests: Seq<TestCrate>, name: Seq<char>) -> bool {
    !test_names(tests).contains(name)
}

/// The environments called `names`, in that order; all of them when no
/// name is given.
pub fn select_environments(names: &Vec<String>) -> (r: Result<Vec<Environment>, SelectionError>)
    ensures
        names@.len() == 0 ==> (r matches Ok(v) && env_views(v@) == catalog()),
        names@.len() > 0 ==> match first_index(views(names@), |n: Seq<char>| unknown_environment(n)) {
            Some(i) => r matches Err(SelectionError::UnknownEnvironment { name }) && name@
                == names@[i]@,
            None => r matches Ok(v) && v@.len() == names@.len() && forall|k: int|
                0 <= k < v@.len() ==> #[trigger] v@[k]@ == catalog()[catalog_index(
                    names@[k]@,
                ).unwrap()],
        },
{
    if names.len() == 0 {
        return Ok(all_environments());
    }
    let ghost p = |n: Seq<char>| unknown_environment(n);
    let ghost ns = views(names@);
    let mut v: Vec<Environment> = Vec::new();
    let mut i: usize = 0;
    while i < names.len()
        invariant
            ns == views(names@),
            p == (|n: Seq<char>| unknown_environment(n)),
            i <= names@.len(),
            v@.len() == i,
            forall|k: int| 0 <= k < i ==> !p(#[trigger] ns[k]),
            forall|k: int|
                0 <= k < i ==> #[trigger] v@[k]@ == catalog()[catalog_index(names@[k]@).unwrap()],
        decreases names@.len() - i,
    {
        assert(ns[i as int] == names@[i as int]@);
        match Environment::from_name(names[i].as_str()) {
            Some(e) => {
                v.push(e);
            },
            None => {
                proof {
                    lemma_first_index(ns, p);
                    if let Some(j) = first_index(ns, p) {
                        if j > i {
                            assert(p(ns[i as int]));
                        }
                    }
                }
                return Err(
                    SelectionError::UnknownEnvironment { name: String::from_str(names[i].as_str()) },
                );
            },
        }
        i = i + 1;
    }
    proof {
        lemma_first_index(ns, p);
        if let Some(j) = first_index(ns, p) {
            assert(!p(ns[j]));
        }
    }
    Ok(v)
}

/// The position of the first test case called `name`, if any.
fn find_test(tests: &Vec<TestCrate>, name: &String) -> (r: Option<usize>)
    ensures
        match r {
            Some(i) => i < tests@.len() && tests@[i as int]@.name == name@ && forall|k: int|
                0 <= k < i ==> #[trigger] tests@[k]@.name != name@,
            None => unknown_test(tests@, name@),
        },
{
    let mut i: usize = 0;
    while i < tests.len()
        invariant
            i <= tests@.len(),
            forall|k: int| 0 <= k < i ==> #[trigger] tests@[k]@.name != name@,
        decreases tests@.len() - i,
    {
        let candidate = String::from_str(tests[i].name());
        if candidate == *name {
            return Some(i);
        }
        i = i + 1;
    }
    assert forall|k: int| 0 <= k < test_names(tests@).len() implies test_names(tests@)[k]
        != name@ by {
        assert(test_names(tests@)[k] == tests@[k]@.name);
    }
    None
}

/// The test cases called `names`, in that order; all of them when no name
/// is given.
pub fn select_tests(tests: &Vec<TestCrate>, names: &Vec<String>) -> (r: Result<
    Vec<TestCrate>,
    SelectionError,
>)
    ensures
        names@.len() == 0 ==> (r matches Ok(v) && v@.len() == tests@.len() && forall|k: int|
            0 <= k < v@.len() ==> #[trigger] v@[k]@ == tests@[k]@),
        names@.len() > 0 ==> match first_index(views(names@), |n: Seq<char>| unknown_test(tests@, n)) {
            Some(i) => r matches Err(SelectionError::UnknownTest { name }) && name@ == names@[i]@,
            None => r matches Ok(v) && v@.len() == names@.len() && forall|k: int|
                0 <= k < v@.len() ==> #[trigger] v@[k]@ == tests@[test_position(
                    tests@,
                    names@[k]@,
                ).unwrap()]@,
        },
{
    let mut v: Vec<TestCrate> = Vec::new();
    if names.len() == 0 {
        let mut i: usize = 0;
        while i < tests.len()
            invariant
                i <= tests@.len(),
                v@.len() == i,
                forall|k: int| 0 <= k < i ==> #[trigger] v@[k]@ == tests@[k]@,
            decreases tests@.len() - i,
        {
            v.push(tests[i].duplicate());
            i = i + 1;
        }
        return Ok(v);
    }
    let ghost p = |n: Seq<char>| unknown_test(tests@, n);
    let ghost ns = views(names@);
    let mut i: usize = 0;
    while i < names.len()
        invariant
            ns == views(names@),
            p == (|n: Seq<char>| unknown_test(tests@, n)),
            i <= names@.len(),
            v@.len() == i,
            forall|k: int| 0 <= k < i ==> !p(#[trigger] ns[k]),
            forall|k: int|
                0 <= k < i ==> #[trigger] v@[k]@ == tests@[test_position(
                    tests@,
                    names@[k]@,
                ).unwrap()]@,
        decreases names@.len() - i,
    {
        assert(ns[i as int] == names@[i as int]@);
        match find_test(tests, &names[i]) {
            Some(j) => {
                proof {
                    let q = |n: Seq<char>| n == names@[i as int]@;
                    lemma_first_index(test_names(tests@), q);
                    assert(test_names(tests@)[j as int] == tests@[j as int]@.name);
                    match first_index(test_names(tests@), q) {
                        Some(m) => {
                            assert(test_names(tests@)[m] == tests@[m]@.name);
                            if m < j {
                                assert(q(test_names(tests@)[m]));
                            }
                            if m > j {
                                assert(q(test_names(tests@)[j as int]));
                            }
                        },
                        None => {
                            assert(q(test_names(tests@)[j as int]));
                        },
                    }
                    assert(test_position(tests@, names@[i as int]@) == Some(j as int));
                }
                v.push(tests[j].duplicate());
            },
            None => {
                proof {
                    lemma_first_index(ns, p);
                    if let Some(j) = first_index(ns, p) {
                        if j > i {
                            assert(p(ns[i as int]));
                        }
                    }
                }
                return Err(SelectionError::UnknownTest { name: String::from_str(names[i].as_str()) });
            },
        }
        i = i + 1;
    }
    proof {
        lemma_first_index(ns, p);
        if let Some(j) = first_index(ns, p) {
            assert(!p(ns[j]));
        }
    }
    Ok(v)
}

} // verus!
