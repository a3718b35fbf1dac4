//! Tokens that name a request's artifacts, and the store that keeps the
//! artifacts until they are fetched.
use crate::orchestrator::{outputs_view, BuildError, BuildResult, Output};
use crate::paths::{has_parent_component, is_contained, is_rooted, stays_inside};
use crate::tools::texts;
use vstd::prelude::*;

verus! {

/// The lower-case hexadecimal digit for `n`, which is below 16.
pub open spec fn hex_digit(n: u128) -> char {
    if n < 10 {
        ((n + 48) as u8) as char
    } else {
        ((n + 87) as u8) as char
    }
}

/// Digit `k` of `v`, counting from the most significant of its 32.
pub open spec fn nibble(v: u128, k: int) -> u128 {
    (v >> ((124 - 4 * k) as u128)) & 0xf
}

/// Which of the 32 digits stands at position `i` of the hyphenated text.
pub open spec fn digit_index(i: int) -> int {
    if i < 8 {
        i
    } else if i < 13 {
        i - 1
    } else if i < 18 {
        i - 2
    } else if i < 23 {
        i - 3
    } else {
        i - 4
    }
}

/// The hyphenated lower-case text of the identifier with value `v`: its
/// 32 hexadecimal digits, most significant first, in groups of 8, 4, 4,
/// 4 and 12 separated by hyphens.
pub open spec fn uuid_text(v: u128) -> Seq<char> {
    Seq::new(
        36,
        |i: int|
            if i == 8 || i == 13 || i == 18 || i == 23 {
                '-'
            } else {
                hex_digit(nibble(v, digit_index(i)))
            },
    )
}

/// `v` carries the version-4 and RFC 4122 variant bits of a random identifier.
pub open spec fn is_version4(v: u128) -> bool {
    (v >> 76u128) & 0xfu128 == 4 && (v >> 62u128) & 0x3u128 == 2
}

/// The identifier that the text `s` spells, if it spells one.
pub uninterp spec fn uuid_value(s: Seq<char>) -> Option<u128>;

/// Relies on `uuid::Uuid::new_v4`: a fresh random identifier, whose
/// version and variant bits are set by a fixed mask.
#[verifier::external_body]
fn random_uuid() -> (r: u128)
    ensures
        is_version4(r),
{
    uuid::Uuid::new_v4().as_u128()
}

/// Relies on `Display` for `uuid::Uuid`: the hyphenated lower-case form.
#[verifier::external_body]
fn uuid_to_text(v: u128) -> (r: String)
    ensures
        r@ == uuid_text(v),
{
    uuid::Uuid::from_u128(v).to_string()
}

/// Relies on `uuid::Uuid::parse_str`, which reads back the hyphenated form
/// that `Display` writes.
#[verifier::external_body]
fn parse_uuid(s: &str) -> (r: Option<u128>)
    ensures
        r == uuid_value(s@),
        forall|v: u128| s@ == #[trigger] uuid_text(v) ==> r == Some(v),
{
    match uuid::Uuid::parse_str(s) {
        Ok(u) => Some(u.as_u128()),
        Err(_) => None,
    }
}

/// The opaque identifier minted for one accepted request.
#[derive(Clone, Copy, Debug, PartialEq, Eq, Hash, Structural)]
pub struct Token {
    pub value: u128,
}

impl Token {
    /// A fresh random token.
    pub fn generate() -> (r: Token)
        ensures
            is_version4(r.value),
    {
        Token { value: random_uuid() }
    }

    /// The token's text, which names its directory.
    pub fn text(&self) -> (r: String)
        ensures
            r@ == uuid_text(self.value),
            r@.len() == 36,
            uuid_value(r@) == Some(self.value),
    {
        let r = uuid_to_text(self.value);
        let back = parse_uuid(r.as_str());
        assert(back == Some(self.value));
        r
    }

    /// The token that `s` spells, if it is a well-formed identifier.
    pub fn parse(s: &str) -> (r: Option<Token>)
        ensures
            match uuid_value(s@) {
                Some(v) => r == Some(Token { value: v }),
                None => r is None,
            },
    {
        match parse_uuid(s) {
            Some(v) => Some(Token { value: v }),
            None => None,
        }
    }
}

/// Why a stored artifact could not be handed out.
#[derive(Clone, Copy, Debug, PartialEq, Eq, Structural)]
pub enum RetrievalError {
    /// The token is malformed or the path is empty.
    BadRequest,
    /// The path would leave the token's directory.
    Forbidden,
    /// Nothing is stored under that token and path.
    NotFound,
}

impl RetrievalError {
    /// The HTTP status that answers a fetch refused for this reason.
    pub fn status_code(&self) -> (r: u16)
        ensures
            r == match *self {
                RetrievalError::BadRequest => 400u16,
                RetrievalError::Forbidden => 403u16,
                RetrievalError::NotFound => 404u16,
            },
    {
        match self {
            RetrievalError::BadRequest => 400,
            RetrievalError::Forbidden => 403,
            RetrievalError::NotFound => 404,
        }
    }
}

/// Why a file was not stored.
#[derive(Clone, Copy, Debug, PartialEq, Eq, Structural)]
pub enum StoreError {
    /// There were no bytes to store.
    EmptyPayload,
    /// The path would leave the token's directory.
    Forbidden,
}

/// `s` with every `\` written as `/`.
pub open spec fn normalized(s: Seq<char>) -> Seq<char> {
    Seq::new(s.len(), |i: int| if s[i] == '\\' { '/' } else { s[i] })
}

/// The artifacts of all requests: (token, normalised path) to bytes.
pub type StoreMap = Map<(u128, Seq<char>), Seq<u8>>;

/// The store after putting `b` at `p` under token `v`.
pub open spec fn put_spec(m: StoreMap, v: u128, p: Seq<char>, b: Seq<u8>) -> StoreMap {
    if b.len() == 0 || !stays_inside(p) {
        m
    } else {
        m.insert((v, normalized(p)), b)
    }
}

/// The store after putting each of `outs` under token `v`, in order.
pub open spec fn put_all(m: StoreMap, v: u128, outs: Seq<(Seq<char>, Seq<u8>)>) -> StoreMap
    decreases outs.len(),
{
    if outs.len() == 0 {
        m
    } else {
        put_spec(put_all(m, v, outs.drop_last()), v, outs.last().0, outs.last().1)
    }
}

/// What fetching path `p` under the token that parsed to `t` gives.
pub open spec fn get_spec(m: StoreMap, t: Option<u128>, p: Seq<char>) -> Result<Seq<u8>, RetrievalError> {
    match t {
        None => Err(RetrievalError::BadRequest),
        Some(v) => if p.len() == 0 {
            Err(RetrievalError::BadRequest)
        } else if !stays_inside(p) {
            Err(RetrievalError::Forbidden)
        } else if m.contains_key((v, normalized(p))) {
            Ok(m[(v, normalized(p))])
        } else {
            Err(RetrievalError::NotFound)
        },
    }
}

/// A fetch result with the bytes as a sequence.
pub open spec fn bytes_result(r: Result<Vec<u8>, RetrievalError>) -> Result<Seq<u8>, RetrievalError> {
    match r {
        Ok(b) => Ok(b@),
        Err(e) => Err(e),
    }
}

/// `s` with every `\` written as `/`.
pub fn normalize_separators(s: &str) -> (r: String)
    ensures
        r@ == normalized(s@),
{
    let n = s.unicode_len();
    let slash = "/";
    proof {
        reveal_strlit("/");
    }
    let mut r = String::new();
    let mut i: usize = 0;
    while i < n
        invariant
            n == s@.len(),
            i <= n,
            slash@ == seq!['/'],
            r@ =~= normalized(s@).take(i as int),
        decreases n - i,
    {
        if s.get_char(i) == '\\' {
            r.append(slash);
        } else {
            r.append(s.substring_char(i, i + 1));
        }
        assert(normalized(s@).take(i + 1) =~= normalized(s@).take(i as int).push(normalized(s@)[i as int]));
        i = i + 1;
    }
    assert(normalized(s@).take(n as int) =~= normalized(s@));
    r
}

/// One stored file.
pub struct Artifact {
    pub token: u128,
    /// Its normalised path below the token's directory.
    pub path: String,
    pub bytes: Vec<u8>,
}

/// The map that a list of artifacts stands for; a later entry for the same
/// key hides an earlier one.
pub open spec fn entries_map(es: Seq<Artifact>) -> StoreMap
    decreases es.len(),
{
    if es.len() == 0 {
        Map::empty()
    } else {
        entries_map(es.drop_last()).insert((es.last().token, es.last().path@), es.last().bytes@)
    }
}

/// The entries of `es` stored under a key other than `k`.
pub open spec fn without_key(es: Seq<Artifact>, k: (u128, Seq<char>)) -> Seq<Artifact>
    decreases es.len(),
{
    if es.len() == 0 {
        Seq::empty()
    } else {
        let prev = without_key(es.drop_last(), k);
        if (es.last().token, es.last().path@) == k {
            prev
        } else {
            prev.push(es.last())
        }
    }
}

proof fn lemma_entries_lookup(es: Seq<Artifact>, i: int)
    requires
        0 <= i < es.len(),
        forall|j: int| i < j < es.len() ==> (es[j].token, es[j].path@) != (es[i].token, es[i].path@),
    ensures
        entries_map(es).contains_key((es[i].token, es[i].path@)),
        entries_map(es)[(es[i].token, es[i].path@)] == es[i].bytes@,
    decreases es.len(),
{
    if i < es.len() - 1 {
        lemma_entries_lookup(es.drop_last(), i);
    }
}

proof fn lemma_entries_absent(es: Seq<Artifact>, k: (u128, Seq<char>))
    requires
        forall|j: int| 0 <= j < es.len() ==> (es[j].token, es[j].path@) != k,
    ensures
        !entries_map(es).contains_key(k),
    decreases es.len(),
{
    if es.len() > 0 {
        lemma_entries_absent(es.drop_last(), k);
    }
}

proof fn lemma_entries_without(es: Seq<Artifact>, k: (u128, Seq<char>))
    ensures
        entries_map(without_key(es, k)) == entries_map(es).remove(k),
    decreases es.len(),
{
    if es.len() > 0 {
        lemma_entries_without(es.drop_last(), k);
        let prev = without_key(es.drop_last(), k);
        if (es.last().token, es.last().path@) != k {
            assert(prev.push(es.last()).drop_last() =~= prev);
        }
        assert(entries_map(without_key(es, k)) =~= entries_map(es).remove(k));
    } else {
        assert(entries_map(es).remove(k) =~= Map::empty());
    }
}

/// Files kept per (token, path) until they are fetched.
pub struct ArtifactStore {
    entries: Vec<Artifact>,
    one_shot: bool,
}

impl View for ArtifactStore {
    type V = StoreMap;

    closed spec fn view(&self) -> StoreMap {
        entries_map(self.entries@)
    }
}

impl ArtifactStore {
    /// Whether a successful fetch removes the file.
    pub closed spec fn is_one_shot(&self) -> bool {
        self.one_shot
    }

    /// An empty store; in one-shot mode each file can be fetched once.
    pub fn new(one_shot: bool) -> (r: ArtifactStore)
        ensures
            r@ == StoreMap::empty(),
            r.is_one_shot() == one_shot,
    {
        ArtifactStore { entries: Vec::new(), one_shot }
    }

    /// Stores `bytes` at `path` under `token`, replacing what was there.
    /// Empty payloads and paths that leave the token's directory are refused.
    pub fn put(&mut self, token: &Token, path: &str, bytes: Vec<u8>) -> (r: Result<(), StoreError>)
        ensures
            final(self)@ == put_spec(old(self)@, token.value, path@, bytes@),
            final(self).is_one_shot() == old(self).is_one_shot(),
            bytes@.len() == 0 ==> r == Err::<(), StoreError>(StoreError::EmptyPayload),
            bytes@.len() > 0 && !stays_inside(path@) ==> r == Err::<(), StoreError>(StoreError::Forbidden),
            bytes@.len() > 0 && stays_inside(path@) ==> r is Ok,
    {
        if bytes.len() == 0 {
            return Err(StoreError::EmptyPayload);
        }
        if !is_contained(path) {
            return Err(StoreError::Forbidden);
        }
        let key_path = normalize_separators(path);
        self.entries.push(Artifact { token: token.value, path: key_path, bytes });
        proof {
            assert(self.entries@.drop_last() == old(self).entries@);
        }
        Ok(())
    }

    fn find(&self, token: u128, path: &String) -> (r: Option<usize>)
        ensures
            match r {
                Some(i) => i < self.entries@.len() && self@.contains_key((token, path@)) && self@[(token, path@)]
                    == self.entries@[i as int].bytes@,
                None => !self@.contains_key((token, path@)),
            },
    {
        let mut i: usize = self.entries.len();
        while i > 0
            invariant
                i <= self.entries@.len(),
                forall|j: int| i <= j < self.entries@.len() ==> (self.entries@[j].token, self.entries@[j].path@) != (token, path@),
            decreases i,
        {
            let e = &self.entries[i - 1];
            if e.token == token && e.path == *path {
                proof {
                    lemma_entries_lookup(self.entries@, i - 1);
                }
                return Some(i - 1);
            }
            i = i - 1;
        }
        proof {
            lemma_entries_absent(self.entries@, (token, path@));
        }
        None
    }

    fn remove_key(&mut self, token: u128, path: &String)
        ensures
            final(self)@ == old(self)@.remove((token, path@)),
            final(self).one_shot == old(self).one_shot,
    {
        let ghost k = (token, path@);
        let ghost es = self.entries@;
        let mut rest: Vec<Artifact> = Vec::new();
        std::mem::swap(&mut rest, &mut self.entries);
        let n = rest.len();
        let mut kept: Vec<Artifact> = Vec::new();
        let mut i: usize = 0;
        while i < n
            invariant
                n == es.len(),
                k == (token, path@),
                rest@ == es.skip(i as int),
                i <= n,
                kept@ == without_key(es.take(i as int), k),
            decreases n - i,
        {
            proof {
                assert(es.take(i + 1).drop_last() =~= es.take(i as int));
            }
            let e = rest.remove(0);
            proof {
                assert(e == es[i as int]);
                assert(es.take(i + 1).last() == e);
                assert(rest@ =~= es.skip(i + 1));
            }
            let same = e.token == token && e.path.eq(path);
            assert(same == ((e.token, e.path@) == k));
            if !same {
                kept.push(e);
            }
            i = i + 1;
        }
        proof {
            assert(es.take(es.len() as int) =~= es);
            lemma_entries_without(es, k);
        }
        self.entries = kept;
    }

    /// Hands out the file at `filepath` under the token spelled by `token`.
    /// A malformed token or an empty path is a bad request, and a path that
    /// would leave the token's directory is forbidden, before the store is
    /// looked at. In one-shot mode a file handed out is removed.
    pub fn get(&mut self, token: &str, filepath: &str) -> (r: Result<Vec<u8>, RetrievalError>)
        ensures
            bytes_result(r) == get_spec(old(self)@, uuid_value(token@), filepath@),
            final(self).is_one_shot() == old(self).is_one_shot(),
            final(self)@ == if r is Ok && old(self).is_one_shot() {
                old(self)@.remove((uuid_value(token@)->0, normalized(filepath@)))
            } else {
                old(self)@
            },
    {
        let value = match parse_uuid(token) {
            Some(v) => v,
            None => return Err(RetrievalError::BadRequest),
        };
        if filepath.unicode_len() == 0 {
            return Err(RetrievalError::BadRequest);
        }
        if !is_contained(filepath) {
            return Err(RetrievalError::Forbidden);
        }
        let path = normalize_separators(filepath);
        match self.find(value, &path) {
            None => Err(RetrievalError::NotFound),
            Some(i) => {
                let bytes = self.entries[i].bytes.clone();
                assert(bytes@ =~= self.entries@[i as int].bytes@);
                if self.one_shot {
                    self.remove_key(value, &path);
                }
                Ok(bytes)
            },
        }
    }

    /// Stores every output of a build under `token` and lists their paths.
    /// A build that produced nothing is refused and stores nothing.
    pub fn publish(&mut self, token: &Token, result: &BuildResult) -> (r: Result<Vec<String>, BuildError>)
        ensures
            final(self).is_one_shot() == old(self).is_one_shot(),
            result.outputs@.len() == 0 ==> r == Err::<Vec<String>, BuildError>(BuildError::NothingProduced)
                && final(self)@ == old(self)@,
            result.outputs@.len() > 0 ==> r is Ok,
            r is Ok ==> final(self)@ == put_all(old(self)@, token.value, outputs_view(result.outputs@)),
            r matches Ok(files) ==> texts(files@) == outputs_view(result.outputs@).map_values(
                |o: (Seq<char>, Seq<u8>)| normalized(o.0),
            ),
    {
        if result.outputs.len() == 0 {
            return Err(BuildError::NothingProduced);
        }
        let ghost outs = outputs_view(result.outputs@);
        let mut files: Vec<String> = Vec::new();
        let mut i: usize = 0;
        while i < result.outputs.len()
            invariant
                outs == outputs_view(result.outputs@),
                i <= outs.len(),
                self.one_shot == old(self).one_shot,
                self@ == put_all(old(self)@, token.value, outs.take(i as int)),
                texts(files@) == outs.take(i as int).map_values(|o: (Seq<char>, Seq<u8>)| normalized(o.0)),
            decreases outs.len() - i,
        {
            let out: &Output = &result.outputs[i];
            proof {
                assert(outs.take(i + 1).drop_last() =~= outs.take(i as int));
            }
            let bytes = out.bytes.clone();
            assert(bytes@ =~= out.bytes@);
            let _ = self.put(token, out.path.as_str(), bytes);
            let ghost before = files@;
            let shown = normalize_separators(out.path.as_str());
            files.push(shown);
            assert(outs[i as int].0 == out.path@);
            assert(texts(files@) =~= texts(before).push(shown@));
            assert(texts(files@) =~= outs.take(i + 1).map_values(|o: (Seq<char>, Seq<u8>)| normalized(o.0)));
            i = i + 1;
        }
        assert(outs.take(outs.len() as int) =~= outs);
        Ok(files)
    }
}

/// A file put under a token is handed back unchanged by the next fetch of
/// the same path under a text that spells that token.
pub proof fn lemma_put_get_round_trip(m: StoreMap, v: u128, s: Seq<char>, p: Seq<char>, b: Seq<u8>)
    requires
        uuid_value(s) == Some(v),
        b.len() > 0,
        stays_inside(p),
    ensures
        get_spec(put_spec(m, v, p, b), uuid_value(s), p) == Ok::<Seq<u8>, RetrievalError>(b),
{
}

/// A path with a `..` component is forbidden under any well-formed token,
/// whatever the store holds.
pub proof fn lemma_parent_path_forbidden(m: StoreMap, v: u128, p: Seq<char>)
    requires
        has_parent_component(p),
    ensures
        get_spec(m, Some(v), p) == Err::<Seq<u8>, RetrievalError>(RetrievalError::Forbidden),
{
    let i = choose|i: int| crate::paths::parent_component_at(p, i);
    assert(p.len() > 0);
}

/// A malformed token is a bad request whatever the path and the store.
pub proof fn lemma_malformed_token_rejected(m: StoreMap, s: Seq<char>, p: Seq<char>)
    requires
        uuid_value(s) is None,
    ensures
        get_spec(m, uuid_value(s), p) == Err::<Seq<u8>, RetrievalError>(RetrievalError::BadRequest),
{
}

} // verus!
