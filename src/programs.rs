//! The external programs the bundler needs, and where they are looked up.
use crate::paths::{join, join_path};
use crate::tools::texts;
use vstd::prelude::*;

verus! {

/// Where a toolchain installation keeps its programs.
pub const SEARCH_DIRECTORY: &'static str = "tools/bin";

/// Path of program `binary`: under the toolchain root if one is set,
/// else the bare name, to be looked up on the search path.
pub open spec fn binary_path(root: Option<Seq<char>>, binary: Seq<char>) -> Seq<char> {
    match root {
        Some(d) => join(join(d, "tools/bin"@), binary),
        None => binary,
    }
}

/// Every program some job runs, grouped by the package that ships it.
pub open spec fn required_binaries() -> Seq<Seq<char>> {
    seq![
        "tex3ds"@, "mkbcfnt"@,
        "3dsxtool"@, "smdhtool"@,
        "nacptool"@, "elf2nro"@,
        "elf2rpl"@, "wuhbtool"@,
    ]
}

/// The entries of `names` whose flag in `found` is false, in order.
pub open spec fn missing_of(names: Seq<Seq<char>>, found: Seq<bool>) -> Seq<Seq<char>>
    decreases names.len(),
{
    if names.len() == 0 || found.len() == 0 {
        Seq::empty()
    } else {
        let prev = missing_of(names.drop_last(), found.drop_last());
        if found.last() {
            prev
        } else {
            prev.push(names.last())
        }
    }
}

/// Relies on `which::which`: whether the program resolves to an executable
/// file. The answer depends on the machine, so nothing is promised.
#[verifier::external_body]
fn binary_found(path: &str) -> bool {
    which::which(path).is_ok()
}

/// The path of program `binary`, given the toolchain root if one is set.
pub fn get_binary(root: Option<&str>, binary: &str) -> (r: String)
    ensures
        r@ == binary_path(
            match root {
                Some(d) => Some(d@),
                None => None,
            },
            binary@,
        ),
{
    match root {
        Some(d) => {
            let dir = join_path(d, SEARCH_DIRECTORY);
            join_path(dir.as_str(), binary)
        },
        None => String::from_str(binary),
    }
}

/// The names of every program some job runs.
pub fn required_programs() -> (r: Vec<String>)
    ensures
        texts(r@) == required_binaries(),
{
    let mut r: Vec<String> = Vec::new();
    r.push(String::from_str("tex3ds"));
    r.push(String::from_str("mkbcfnt"));
    r.push(String::from_str("3dsxtool"));
    r.push(String::from_str("smdhtool"));
    r.push(String::from_str("nacptool"));
    r.push(String::from_str("elf2nro"));
    r.push(String::from_str("elf2rpl"));
    r.push(String::from_str("wuhbtool"));
    assert(texts(r@) =~= required_binaries());
    r
}

/// The verdict on an environment where program `names[i]` was found
/// exactly when `found[i]` holds: the names of the missing ones, if any.
pub fn environment_verdict(names: &Vec<String>, found: &Vec<bool>) -> (r: Result<(), Vec<String>>)
    requires
        names@.len() == found@.len(),
    ensures
        missing_of(texts(names@), found@).len() == 0 <==> r is Ok,
        r matches Err(m) ==> texts(m@) == missing_of(texts(names@), found@),
{
    let ghost ns = texts(names@);
    let mut missing: Vec<String> = Vec::new();
    let mut i: usize = 0;
    while i < names.len()
        invariant
            ns == texts(names@),
            names@.len() == found@.len(),
            i <= names@.len(),
            texts(missing@) == missing_of(ns.take(i as int), found@.take(i as int)),
        decreases names.len() - i,
    {
        proof {
            assert(ns.take(i + 1).drop_last() =~= ns.take(i as int));
            assert(found@.take(i + 1).drop_last() =~= found@.take(i as int));
        }
        if !found[i] {
            let ghost before = missing@;
            missing.push(names[i].clone());
            assert(texts(missing@) =~= texts(before).push(ns[i as int]));
        }
        i = i + 1;
    }
    assert(ns.take(names@.len() as int) =~= ns);
    assert(found@.take(names@.len() as int) =~= found@);
    if missing.len() == 0 {
        Ok(())
    } else {
        Err(missing)
    }
}

proof fn lemma_missing_within(names: Seq<Seq<char>>, found: Seq<bool>, i: int)
    requires
        0 <= i < missing_of(names, found).len(),
    ensures
        names.contains(missing_of(names, found)[i]),
    decreases names.len(),
{
    if names.len() > 0 && found.len() > 0 {
        let prev = missing_of(names.drop_last(), found.drop_last());
        if i < prev.len() {
            lemma_missing_within(names.drop_last(), found.drop_last(), i);
            let j = choose|j: int| 0 <= j < names.drop_last().len() && names.drop_last()[j] == prev[i];
            assert(names[j] == prev[i]);
        } else {
            assert(names[names.len() - 1] == names.last());
        }
    }
}

/// Looks up every required program, under the toolchain root if one is
/// set. Whatever the machine holds, a failure names only required
/// programs, and at least one.
pub fn check_environment(root: Option<&str>) -> (r: Result<(), Vec<String>>)
    ensures
        r matches Err(m) ==> m@.len() > 0 && forall|i: int|
            0 <= i < m@.len() ==> required_binaries().contains(#[trigger] texts(m@)[i]),
{
    let names = required_programs();
    let mut found: Vec<bool> = Vec::new();
    let mut i: usize = 0;
    while i < names.len()
        invariant
            found@.len() == i,
            i <= names@.len(),
        decreases names.len() - i,
    {
        let path = get_binary(root, names[i].as_str());
        found.push(binary_found(path.as_str()));
        i = i + 1;
    }
    let r = environment_verdict(&names, &found);
    proof {
        if r is Err {
            let m = r->Err_0;
            assert forall|i: int| 0 <= i < m@.len() implies required_binaries().contains(
                #[trigger] texts(m@)[i],
            ) by {
                lemma_missing_within(texts(names@), found@, i);
            }
        }
    }
    r
}

} // verus!
