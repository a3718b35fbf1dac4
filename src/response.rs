//! The manifest that tells a client which files a request produced.
use crate::artifact::{hex_digit, normalize_separators, normalized, uuid_text, Token};
use crate::tools::texts;
use vstd::prelude::*;

verus! {

/// How one character is written inside a JSON string: quote and backslash
/// are escaped, control characters get a short escape where JSON has one
/// and a `\u00XX` escape otherwise, and every other character stands as is.
pub open spec fn escape_char(c: char) -> Seq<char> {
    if c == '"' {
        seq!['\\', '"']
    } else if c == '\\' {
        seq!['\\', '\\']
    } else if c == '\u{8}' {
        seq!['\\', 'b']
    } else if c == '\t' {
        seq!['\\', 't']
    } else if c == '\n' {
        seq!['\\', 'n']
    } else if c == '\u{c}' {
        seq!['\\', 'f']
    } else if c == '\r' {
        seq!['\\', 'r']
    } else if (c as u32) < 0x20 {
        seq!['\\', 'u', '0', '0', hex_digit(((c as u32) / 16) as u128), hex_digit(((c as u32) % 16) as u128)]
    } else {
        seq![c]
    }
}

/// The characters of `s` as they are written inside a JSON string.
pub open spec fn escaped(s: Seq<char>) -> Seq<char>
    decreases s.len(),
{
    if s.len() == 0 {
        Seq::empty()
    } else {
        escaped(s.drop_last()) + escape_char(s.last())
    }
}

/// `s` as a JSON string literal.
pub open spec fn json_string(s: Seq<char>) -> Seq<char> {
    seq!['"'] + escaped(s) + seq!['"']
}

/// The string literals of `v`, separated by commas.
pub open spec fn json_items(v: Seq<Seq<char>>) -> Seq<char>
    decreases v.len(),
{
    if v.len() == 0 {
        Seq::empty()
    } else if v.len() == 1 {
        json_string(v[0])
    } else {
        json_items(v.drop_last()) + seq![','] + json_string(v.last())
    }
}

/// The JSON array of strings that holds `v`, in order, without whitespace.
pub open spec fn json_strings(v: Seq<Seq<char>>) -> Seq<char> {
    seq!['['] + json_items(v) + seq![']']
}

/// Relies on `serde_json::to_string` for a list of strings: a compact JSON
/// array of string literals, escaped as its `ESCAPE` table says. Writing
/// strings to a `Vec` cannot fail.
#[verifier::external_body]
fn strings_to_json(v: &Vec<String>) -> (r: Option<String>)
    ensures
        r is Some,
        r matches Some(t) ==> t@ == json_strings(texts(v@)),
{
    serde_json::to_string(v).ok()
}

/// The manifest's JSON text, from the JSON array of files and the token's text.
pub open spec fn manifest_json(files: Seq<char>, token: Seq<char>) -> Seq<char> {
    "{\"files\":"@ + files + ",\"token\":\""@ + token + "\"}"@
}

/// A token and the paths below it that can be fetched.
pub struct ArtifactResponse {
    pub files: Vec<String>,
    pub token: Token,
}

impl ArtifactResponse {
    /// A manifest for `token` that lists no file yet.
    pub fn new(token: Token) -> (r: ArtifactResponse)
        ensures
            r.files@.len() == 0,
            r.token == token,
    {
        ArtifactResponse { files: Vec::new(), token }
    }

    /// Lists `filepath`, written with `/` between its components.
    pub fn add_file(&mut self, filepath: &str)
        ensures
            texts(final(self).files@) == texts(old(self).files@).push(normalized(filepath@)),
            final(self).token == old(self).token,
    {
        let shown = normalize_separators(filepath);
        let ghost before = self.files@;
        self.files.push(shown);
        assert(texts(self.files@) =~= texts(before).push(normalized(filepath@)));
    }

    /// The manifest as JSON: the file list first, then the token.
    pub fn json(&self) -> (r: Option<String>)
        ensures
            r is Some,
            r matches Some(t) ==> t@ == manifest_json(json_strings(texts(self.files@)), uuid_text(self.token.value)),
    {
        let files = match strings_to_json(&self.files) {
            Some(f) => f,
            None => return None,
        };
        let mut out = String::from_str("{\"files\":");
        out.append(files.as_str());
        out.append(",\"token\":\"");
        out.append(self.token.text().as_str());
        out.append("\"}");
        Some(out)
    }
}

} // verus!
