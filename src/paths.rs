//! Relative artifact paths, as text with `/` (or `\`) between components.
use vstd::prelude::*;

verus! {

/// Characters that separate path components.
pub open spec fn is_separator(c: char) -> bool {
    c == '/' || c == '\\'
}

/// A `..` component starts at index `i` of `s`.
pub open spec fn parent_component_at(s: Seq<char>, i: int) -> bool {
    &&& 0 <= i
    &&& i + 2 <= s.len()
    &&& s[i] == '.'
    &&& s[i + 1] == '.'
    &&& (i == 0 || is_separator(s[i - 1]))
    &&& (i + 2 == s.len() || is_separator(s[i + 2]))
}

/// `s` names its parent directory somewhere.
pub open spec fn has_parent_component(s: Seq<char>) -> bool {
    exists|i: int| parent_component_at(s, i)
}

/// `s` starts at the root instead of below the directory it is joined to.
pub open spec fn is_rooted(s: Seq<char>) -> bool {
    s.len() > 0 && is_separator(s[0])
}

/// `s` stays strictly inside the directory it is joined to.
pub open spec fn stays_inside(s: Seq<char>) -> bool {
    s.len() > 0 && !is_rooted(s) && !has_parent_component(s)
}

/// A single path component that names an entry of its own directory.
pub open spec fn is_plain_name(s: Seq<char>) -> bool {
    &&& s.len() > 0
    &&& (forall|i: int| 0 <= i < s.len() ==> !is_separator(#[trigger] s[i]))
    &&& s != seq!['.']
    &&& s != seq!['.', '.']
}

/// `a` and `b` joined by one separator.
pub open spec fn join(a: Seq<char>, b: Seq<char>) -> Seq<char> {
    a + seq!['/'] + b
}

/// Index of the dot that starts the extension of a file name, if it has one.
/// A dot in the first position starts a hidden name, not an extension.
pub open spec fn extension_dot(s: Seq<char>) -> Option<int>
    decreases s.len(),
{
    if s.len() <= 1 {
        None
    } else if s.last() == '.' {
        Some(s.len() - 1)
    } else {
        extension_dot(s.drop_last())
    }
}

/// The file name `s` with its extension replaced by (or extended with) `ext`.
pub open spec fn with_extension(s: Seq<char>, ext: Seq<char>) -> Seq<char> {
    match extension_dot(s) {
        Some(i) => s.take(i) + seq!['.'] + ext,
        None => s + seq!['.'] + ext,
    }
}

/// Whether `s` holds a `..` component.
pub fn contains_parent_component(s: &str) -> (r: bool)
    ensures
        r == has_parent_component(s@),
{
    let n = s.unicode_len();
    let mut i: usize = 0;
    while i < n
        invariant
            n == s@.len(),
            i <= n,
            forall|j: int| 0 <= j < i ==> !parent_component_at(s@, j),
        decreases n - i,
    {
        if i + 1 < n && s.get_char(i) == '.' && s.get_char(i + 1) == '.' {
            let before = i == 0 || {
                let c = s.get_char(i - 1);
                c == '/' || c == '\\'
            };
            let after = i + 2 == n || {
                let c = s.get_char(i + 2);
                c == '/' || c == '\\'
            };
            if before && after {
                assert(parent_component_at(s@, i as int));
                return true;
            }
        }
        i = i + 1;
    }
    assert forall|j: int| !parent_component_at(s@, j) by {
        if 0 <= j && j + 2 <= s@.len() {
            assert(j < i);
        }
    }
    false
}

/// Whether `s` is a non-empty relative path that never leaves the
/// directory it is joined to.
pub fn is_contained(s: &str) -> (r: bool)
    ensures
        r == stays_inside(s@),
{
    let n = s.unicode_len();
    if n == 0 {
        return false;
    }
    let c = s.get_char(0);
    if c == '/' || c == '\\' {
        return false;
    }
    !contains_parent_component(s)
}

/// Whether `s` is one path component other than `.` and `..`.
pub fn is_plain_file_name(s: &str) -> (r: bool)
    ensures
        r == is_plain_name(s@),
{
    let n = s.unicode_len();
    if n == 0 {
        return false;
    }
    let mut i: usize = 0;
    while i < n
        invariant
            n == s@.len(),
            i <= n,
            forall|j: int| 0 <= j < i ==> !is_separator(#[trigger] s@[j]),
        decreases n - i,
    {
        let c = s.get_char(i);
        if c == '/' || c == '\\' {
            return false;
        }
        i = i + 1;
    }
    if n == 1 && s.get_char(0) == '.' {
        assert(s@ =~= seq!['.']);
        return false;
    }
    if n == 2 && s.get_char(0) == '.' && s.get_char(1) == '.' {
        assert(s@ =~= seq!['.', '.']);
        return false;
    }
    proof {
        if s@ == seq!['.'] {
            assert(s@[0] == '.');
        }
        if s@ == seq!['.', '.'] {
            assert(s@[0] == '.' && s@[1] == '.');
        }
    }
    true
}

/// Whether `a` and `b` are the same text.
pub fn same_text(a: &str, b: &str) -> (r: bool)
    ensures
        r == (a@ == b@),
{
    let n = a.unicode_len();
    if n != b.unicode_len() {
        return false;
    }
    let mut i: usize = 0;
    while i < n
        invariant
            n == a@.len(),
            n == b@.len(),
            i <= n,
            forall|j: int| 0 <= j < i ==> a@[j] == b@[j],
        decreases n - i,
    {
        if a.get_char(i) != b.get_char(i) {
            return false;
        }
        i = i + 1;
    }
    assert(a@ =~= b@);
    true
}

/// `a` and `b` joined by one `/`.
pub fn join_path(a: &str, b: &str) -> (r: String)
    ensures
        r@ == join(a@, b@),
{
    let mut r = String::from_str(a);
    let sep = "/";
    proof {
        reveal_strlit("/");
    }
    r.append(sep);
    r.append(b);
    r
}

proof fn lemma_extension_dot_prefix(s: Seq<char>, k: int)
    requires
        1 <= k <= s.len(),
        forall|j: int| k <= j < s.len() ==> s[j] != '.',
    ensures
        extension_dot(s) == extension_dot(s.take(k)),
    decreases s.len() - k,
{
    if k < s.len() {
        assert(s.take(s.len() - 1) =~= s.drop_last());
        lemma_extension_dot_prefix(s.drop_last(), k);
        assert(s.drop_last().take(k) =~= s.take(k));
    } else {
        assert(s.take(k) =~= s);
    }
}

/// The file name `name` with its extension set to `ext`.
pub fn replace_extension(name: &str, ext: &str) -> (r: String)
    ensures
        r@ == with_extension(name@, ext@),
{
    let n = name.unicode_len();
    let dot = ".";
    proof {
        reveal_strlit(".");
    }
    assert(dot@ =~= seq!['.']);
    let mut k: usize = n;
    while k > 1
        invariant
            n == name@.len(),
            k <= n,
            n >= 1 ==> k >= 1,
            dot@ == seq!['.'],
            forall|j: int| k <= j < n ==> name@[j] != '.',
        decreases k,
    {
        if name.get_char(k - 1) == '.' {
            let stem = name.substring_char(0, k - 1);
            proof {
                lemma_extension_dot_prefix(name@, k as int);
                let t = name@.take(k as int);
                assert(t.last() == '.');
                assert(extension_dot(t) == Some((k - 1) as int));
                assert(extension_dot(name@) == Some((k - 1) as int));
            }
            let mut r = String::from_str(stem);
            r.append(dot);
            r.append(ext);
            assert(stem@ =~= name@.take(k - 1));
            assert(r@ =~= with_extension(name@, ext@));
            return r;
        }
        k = k - 1;
    }
    proof {
        if n >= 1 {
            lemma_extension_dot_prefix(name@, 1);
        }
    }
    let mut r = String::from_str(name);
    r.append(dot);
    r.append(ext);
    r
}

} // verus!
