//! Target platforms and the text that names them.
use vstd::prelude::*;

verus! {

/// A console family that a build can target.
#[derive(Clone, Copy, Debug, PartialEq, Eq, Hash, Structural)]
pub enum Platform {
    Ctr,
    Hac,
    Cafe,
}

/// `c` with ASCII upper-case letters mapped to lower case.
pub open spec fn ascii_lower(c: char) -> char {
    if 'A' <= c && c <= 'Z' {
        ((c as u8) + 32) as char
    } else {
        c
    }
}

/// Equality of two texts up to ASCII case.
pub open spec fn eq_ignore_ascii_case(a: Seq<char>, b: Seq<char>) -> bool {
    a.len() == b.len() && forall|i: int| 0 <= i < a.len() ==> ascii_lower(#[trigger] a[i]) == ascii_lower(b[i])
}

/// The canonical lower-case name of a platform.
pub open spec fn platform_name(p: Platform) -> Seq<char> {
    match p {
        Platform::Ctr => seq!['c', 't', 'r'],
        Platform::Hac => seq!['h', 'a', 'c'],
        Platform::Cafe => seq!['c', 'a', 'f', 'e'],
    }
}

/// The platform whose name equals `s` up to ASCII case, if any.
pub open spec fn parse_platform(s: Seq<char>) -> Option<Platform> {
    if eq_ignore_ascii_case(s, platform_name(Platform::Ctr)) {
        Some(Platform::Ctr)
    } else if eq_ignore_ascii_case(s, platform_name(Platform::Hac)) {
        Some(Platform::Hac)
    } else if eq_ignore_ascii_case(s, platform_name(Platform::Cafe)) {
        Some(Platform::Cafe)
    } else {
        None
    }
}

/// The message that rejects an unknown platform name.
pub open spec fn unknown_platform_message(s: Seq<char>) -> Seq<char> {
    seq!['u', 'n', 'k', 'n', 'o', 'w', 'n', ' ', 'p', 'l', 'a', 't', 'f', 'o', 'r', 'm', ':', ' '] + s
}

fn lower_char(c: char) -> (r: char)
    ensures
        r == ascii_lower(c),
{
    if 'A' <= c && c <= 'Z' {
        ((c as u8) + 32) as char
    } else {
        c
    }
}

/// Whether `s` spells `name` up to ASCII case.
pub fn matches_ignore_ascii_case(s: &str, name: &str) -> (r: bool)
    ensures
        r == eq_ignore_ascii_case(s@, name@),
{
    let n = s.unicode_len();
    if n != name.unicode_len() {
        return false;
    }
    let mut i: usize = 0;
    while i < n
        invariant
            n == s@.len(),
            n == name@.len(),
            i <= n,
            forall|j: int| 0 <= j < i ==> ascii_lower(#[trigger] s@[j]) == ascii_lower(name@[j]),
        decreases n - i,
    {
        if lower_char(s.get_char(i)) != lower_char(name.get_char(i)) {
            return false;
        }
        i = i + 1;
    }
    true
}

impl Platform {
    /// Parses a platform name, ignoring ASCII case.
    pub fn from_str(s: &str) -> (r: Result<Platform, String>)
        ensures
            parse_platform(s@) matches Some(p) ==> r == Ok::<Platform, String>(p),
            parse_platform(s@) is None ==> (r matches Err(e) && e@ == unknown_platform_message(s@)),
    {
        let ctr = "ctr";
        let hac = "hac";
        let cafe = "cafe";
        proof {
            reveal_strlit("ctr");
            reveal_strlit("hac");
            reveal_strlit("cafe");
        }
        assert(ctr@ == platform_name(Platform::Ctr));
        assert(hac@ == platform_name(Platform::Hac));
        assert(cafe@ == platform_name(Platform::Cafe));
        if matches_ignore_ascii_case(s, ctr) {
            Ok(Platform::Ctr)
        } else if matches_ignore_ascii_case(s, hac) {
            Ok(Platform::Hac)
        } else if matches_ignore_ascii_case(s, cafe) {
            Ok(Platform::Cafe)
        } else {
            let prefix = "unknown platform: ";
            proof {
                reveal_strlit("unknown platform: ");
            }
            let mut message = String::from_str(prefix);
            message.append(s);
            assert(message@ =~= unknown_platform_message(s@));
            Err(message)
        }
    }

    /// The canonical lower-case name, also the name of the platform's
    /// resource folder and working directory.
    pub fn name(&self) -> (r: String)
        ensures
            r@ == platform_name(*self),
    {
        let s = match self {
            Platform::Ctr => "ctr",
            Platform::Hac => "hac",
            Platform::Cafe => "cafe",
        };
        proof {
            reveal_strlit("ctr");
            reveal_strlit("hac");
            reveal_strlit("cafe");
        }
        String::from_str(s)
    }
}

} // verus!
