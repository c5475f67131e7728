//! Expiry-aware keeping of the granted credential. The store holds the
//! one persisted credential as plain values and applies the freshness
//! policy: a token within `REFRESH_BUFFER_SECS` of its expiry is stale;
//! a stale credential with a refresh token asks for a refresh exchange,
//! one without degrades to "not authenticated". The flat key/value text
//! written to and read from disk is produced and parsed here; the disk
//! itself is the caller's business.

use vstd::prelude::*;
use vstd::string::StrSliceExecFns;
use vstd::string::StringExecFns;
use crate::exchange::TokenSet;
use crate::text::{dec_digits, parse_u64, spec_parse_u64, str_eq, u64_to_string};

verus! {

/// How long before actual expiry a token is already treated as stale,
/// in seconds.
pub const REFRESH_BUFFER_SECS: u64 = 300;

/// A token is fresh at `now` while `now` lies more than the refresh
/// buffer before its expiry.
pub open spec fn spec_is_fresh(expires_at: u64, now: u64) -> bool {
    now + REFRESH_BUFFER_SECS < expires_at
}

/// Decides freshness of a credential expiring at `expires_at`.
pub fn is_fresh(expires_at: u64, now: u64) -> (r: bool)
    ensures
        r == spec_is_fresh(expires_at, now),
{
    now < u64::MAX - REFRESH_BUFFER_SECS && now + REFRESH_BUFFER_SECS < expires_at
}

/// The on-disk projection of a token set, plus the save timestamp.
#[derive(Clone, Debug)]
pub struct PersistedCredential {
    pub access_token: String,
    pub refresh_token: Option<String>,
    pub token_type: String,
    pub scope: String,
    pub expires_at: u64,
    pub saved_at: u64,
}

/// The mathematical value of a persisted credential.
pub struct CredentialView {
    pub access_token: Seq<char>,
    pub refresh_token: Option<Seq<char>>,
    pub token_type: Seq<char>,
    pub scope: Seq<char>,
    pub expires_at: u64,
    pub saved_at: u64,
}

impl View for PersistedCredential {
    type V = CredentialView;

    open spec fn view(&self) -> CredentialView {
        CredentialView {
            access_token: self.access_token@,
            refresh_token: self.refresh_token.deep_view(),
            token_type: self.token_type@,
            scope: self.scope@,
            expires_at: self.expires_at,
            saved_at: self.saved_at,
        }
    }
}

/// What consulting the store yields.
#[derive(Clone, Debug)]
pub enum LoadStatus {
    /// A usable access token.
    Fresh(String),
    /// The credential is stale but carries this refresh token: attempt a
    /// refresh exchange and commit its result.
    NeedsRefresh(String),
    /// Nothing usable: absent, stale without a refresh token, or cleared.
    NotAuthenticated,
}

/// The mathematical value of a load result.
pub enum LoadStatusView {
    Fresh(Seq<char>),
    NeedsRefresh(Seq<char>),
    NotAuthenticated,
}

impl View for LoadStatus {
    type V = LoadStatusView;

    open spec fn view(&self) -> LoadStatusView {
        match self {
            LoadStatus::Fresh(t) => LoadStatusView::Fresh(t@),
            LoadStatus::NeedsRefresh(t) => LoadStatusView::NeedsRefresh(t@),
            LoadStatus::NotAuthenticated => LoadStatusView::NotAuthenticated,
        }
    }
}

/// What loading yields for a given held credential at time `now`.
pub open spec fn spec_load(cred: Option<CredentialView>, now: u64) -> LoadStatusView {
    match cred {
        None => LoadStatusView::NotAuthenticated,
        Some(c) => if spec_is_fresh(c.expires_at, now) {
            LoadStatusView::Fresh(c.access_token)
        } else {
            match c.refresh_token {
                Some(rt) => LoadStatusView::NeedsRefresh(rt),
                None => LoadStatusView::NotAuthenticated,
            }
        },
    }
}

/// The store owning the single persisted credential.
pub struct TokenStore {
    pub cred: Option<PersistedCredential>,
}

impl View for TokenStore {
    type V = Option<CredentialView>;

    open spec fn view(&self) -> Option<CredentialView> {
        match self.cred {
            Some(c) => Some(c@),
            None => None,
        }
    }
}

impl TokenStore {
    /// An empty store.
    pub fn new() -> (s: TokenStore)
        ensures
            s@ is None,
    {
        TokenStore { cred: None }
    }

    /// Rehydrates the store from whatever the persistence layer read and
    /// parsed; `None` when the file was absent, unreadable, or malformed.
    pub fn hydrate(&mut self, cred: Option<PersistedCredential>)
        ensures
            final(self).cred == cred,
    {
        self.cred = cred;
    }

    /// Stores the granted token set wholesale, replacing any prior
    /// credential; `now` becomes the save timestamp.
    pub fn save(&mut self, t: &TokenSet, now: u64)
        ensures
            final(self)@ matches Some(c) && c == (CredentialView {
                access_token: t.access_token@,
                refresh_token: t.refresh_token.deep_view(),
                token_type: t.token_type@,
                scope: t.scope@,
                expires_at: t.expires_at,
                saved_at: now,
            }),
    {
        self.cred = Some(
            PersistedCredential {
                access_token: t.access_token.clone(),
                refresh_token: match &t.refresh_token {
                    Some(rt) => Some(rt.clone()),
                    None => None,
                },
                token_type: t.token_type.clone(),
                scope: t.scope.clone(),
                expires_at: t.expires_at,
                saved_at: now,
            },
        );
    }

    /// Consults the store at time `now`: the held access token while it
    /// is fresh; a refresh demand when stale with a refresh token; not
    /// authenticated otherwise. Never fails.
    pub fn load(&self, now: u64) -> (r: LoadStatus)
        ensures
            r@ == spec_load(self@, now),
    {
        match &self.cred {
            None => LoadStatus::NotAuthenticated,
            Some(c) => {
                if is_fresh(c.expires_at, now) {
                    LoadStatus::Fresh(c.access_token.clone())
                } else {
                    match &c.refresh_token {
                        Some(rt) => LoadStatus::NeedsRefresh(rt.clone()),
                        None => LoadStatus::NotAuthenticated,
                    }
                }
            },
        }
    }

    /// Whether a load at `now` would yield anything usable or refreshable.
    pub fn is_authenticated(&self, now: u64) -> (r: bool)
        ensures
            r == !(spec_load(self@, now) is NotAuthenticated),
    {
        match self.load(now) {
            LoadStatus::NotAuthenticated => false,
            _ => true,
        }
    }

    /// Deletes the held credential; doing so when nothing is held is not
    /// an error.
    pub fn clear(&mut self)
        ensures
            final(self)@ is None,
    {
        self.cred = None;
    }
}

/// Clearing the store makes the very next load yield "not authenticated",
/// whatever credential was held before and whatever the clock says.
pub proof fn lemma_clear_then_load(now: u64)
    ensures
        spec_load(None, now) is NotAuthenticated,
{
}

/// The flat key/value text of a credential: one `key=value` line per
/// field, the `refresh_token` line present exactly when one is held.
pub open spec fn spec_encode_credential(c: CredentialView) -> Seq<char> {
    "access_token="@ + c.access_token + "\n"@ + (match c.refresh_token {
        Some(rt) => "refresh_token="@ + rt + "\n"@,
        None => Seq::<char>::empty(),
    }) + "token_type="@ + c.token_type + "\n"@ + "scope="@ + c.scope + "\n"@ + "expires_at="@
        + dec_digits(c.expires_at as nat) + "\n"@ + "saved_at="@ + dec_digits(c.saved_at as nat)
        + "\n"@
}

/// Where `c` first occurs in `s` at or after `from`; the text's length
/// when it never does.
pub open spec fn find_from(s: Seq<char>, c: char, from: int) -> int
    decreases s.len() - from
        when 0 <= from <= s.len()
{
    if from >= s.len() {
        s.len() as int
    } else if s[from] == c {
        from
    } else {
        find_from(s, c, from + 1)
    }
}

/// The found position never lies before `from` nor beyond the text.
pub proof fn lemma_find_from_bounds(s: Seq<char>, c: char, from: int)
    requires
        0 <= from <= s.len(),
    ensures
        from <= find_from(s, c, from) <= s.len(),
    decreases s.len() - from,
{
    if from < s.len() && s[from] != c {
        lemma_find_from_bounds(s, c, from + 1);
    }
}

/// Finds where `c` first occurs at or after `from`, or the text's length.
fn find_char_from(s: &str, c: char, from: usize) -> (e: usize)
    requires
        from <= s@.len(),
    ensures
        e == find_from(s@, c, from as int),
        from <= e <= s@.len(),
{
    let n = s.unicode_len();
    let mut i = from;
    while i < n
        invariant
            from <= i <= n,
            n == s@.len(),
            find_from(s@, c, from as int) == find_from(s@, c, i as int),
        decreases n - i,
    {
        if s.get_char(i) == c {
            return i;
        }
        i = i + 1;
    }
    n
}

/// The parse state: which fields the lines read so far have supplied.
pub struct FieldsView {
    pub access_token: Option<Seq<char>>,
    pub refresh_token: Option<Seq<char>>,
    pub token_type: Option<Seq<char>>,
    pub scope: Option<Seq<char>>,
    pub expires_at: Option<u64>,
    pub saved_at: Option<u64>,
}

/// The parse state before any line is read.
pub open spec fn empty_fields() -> FieldsView {
    FieldsView {
        access_token: None,
        refresh_token: None,
        token_type: None,
        scope: None,
        expires_at: None,
        saved_at: None,
    }
}

/// What one line contributes: the text after the first `=` lands in the
/// field the text before it names; a line without `=`, or with an unknown
/// key, contributes nothing; a later line for the same key wins.
pub open spec fn spec_apply_line(line: Seq<char>, f: FieldsView) -> FieldsView {
    let p = find_from(line, '=', 0);
    if p >= line.len() {
        f
    } else {
        let key = line.take(p);
        let value = line.skip(p + 1);
        if key == "access_token"@ {
            FieldsView { access_token: Some(value), ..f }
        } else if key == "refresh_token"@ {
            FieldsView { refresh_token: Some(value), ..f }
        } else if key == "token_type"@ {
            FieldsView { token_type: Some(value), ..f }
        } else if key == "scope"@ {
            FieldsView { scope: Some(value), ..f }
        } else if key == "expires_at"@ {
            FieldsView { expires_at: spec_parse_u64(value), ..f }
        } else if key == "saved_at"@ {
            FieldsView { saved_at: spec_parse_u64(value), ..f }
        } else {
            f
        }
    }
}

/// The parse state after reading every line from `from` on.
pub open spec fn spec_parse_lines(s: Seq<char>, from: int, f: FieldsView) -> FieldsView
    decreases s.len() - from
        when 0 <= from <= s.len()
        via spec_parse_lines_decreases
{
    if from >= s.len() {
        f
    } else {
        let e = find_from(s, '\n', from);
        let f2 = spec_apply_line(s.subrange(from, e), f);
        if e >= s.len() {
            f2
        } else {
            spec_parse_lines(s, e + 1, f2)
        }
    }
}

#[via_fn]
proof fn spec_parse_lines_decreases(s: Seq<char>, from: int, f: FieldsView) {
    lemma_find_from_bounds(s, '\n', from);
}

/// A credential needs every field but the refresh token.
pub open spec fn spec_finish_fields(f: FieldsView) -> Option<CredentialView> {
    if f.access_token is Some && f.token_type is Some && f.scope is Some && f.expires_at is Some
        && f.saved_at is Some {
        Some(
            CredentialView {
                access_token: f.access_token->0,
                refresh_token: f.refresh_token,
                token_type: f.token_type->0,
                scope: f.scope->0,
                expires_at: f.expires_at->0,
                saved_at: f.saved_at->0,
            },
        )
    } else {
        None
    }
}

/// What parsing the persisted text yields.
pub open spec fn spec_parse_credential(s: Seq<char>) -> Option<CredentialView> {
    spec_finish_fields(spec_parse_lines(s, 0, empty_fields()))
}

/// Parses the flat key/value text back into a credential: `None` when a
/// required field is missing or a timestamp is no decimal number.
pub fn parse_credential(s: &str) -> (r: Option<PersistedCredential>)
    ensures
        r matches Some(c) ==> spec_parse_credential(s@) == Some(c@),
        r is None ==> spec_parse_credential(s@) is None,
{
    let n = s.unicode_len();
    let mut access_token: Option<String> = None;
    let mut refresh_token: Option<String> = None;
    let mut token_type: Option<String> = None;
    let mut scope: Option<String> = None;
    let mut expires_at: Option<u64> = None;
    let mut saved_at: Option<u64> = None;
    let mut from: usize = 0;
    while from < n
        invariant
            from <= n,
            n == s@.len(),
            spec_parse_lines(s@, 0, empty_fields()) == spec_parse_lines(
                s@,
                from as int,
                FieldsView {
                    access_token: access_token.deep_view(),
                    refresh_token: refresh_token.deep_view(),
                    token_type: token_type.deep_view(),
                    scope: scope.deep_view(),
                    expires_at: expires_at,
                    saved_at: saved_at,
                },
            ),
        decreases n - from,
    {
        let ghost f_before = FieldsView {
            access_token: access_token.deep_view(),
            refresh_token: refresh_token.deep_view(),
            token_type: token_type.deep_view(),
            scope: scope.deep_view(),
            expires_at: expires_at,
            saved_at: saved_at,
        };
        let e = find_char_from(s, '\n', from);
        let line = s.substring_char(from, e);
        let p = find_char_from(line, '=', 0);
        proof {
            assert(line@ == s@.subrange(from as int, e as int));
        }
        if p < line.unicode_len() {
            let key = line.substring_char(0, p);
            let value = line.substring_char(p + 1, line.unicode_len());
            proof {
                assert(key@ =~= line@.take(p as int));
                assert(value@ =~= line@.skip(p + 1));
            }
            if str_eq(key, "access_token") {
                access_token = Some(String::from_str(value));
            } else if str_eq(key, "refresh_token") {
                refresh_token = Some(String::from_str(value));
            } else if str_eq(key, "token_type") {
                token_type = Some(String::from_str(value));
            } else if str_eq(key, "scope") {
                scope = Some(String::from_str(value));
            } else if str_eq(key, "expires_at") {
                expires_at = parse_u64(value);
            } else if str_eq(key, "saved_at") {
                saved_at = parse_u64(value);
            }
        }
        proof {
            let f_after = FieldsView {
                access_token: access_token.deep_view(),
                refresh_token: refresh_token.deep_view(),
                token_type: token_type.deep_view(),
                scope: scope.deep_view(),
                expires_at: expires_at,
                saved_at: saved_at,
            };
            assert(f_after == spec_apply_line(line@, f_before));
        }
        if e >= n {
            from = n;
        } else {
            from = e + 1;
        }
    }
    match (access_token, token_type, scope, expires_at, saved_at) {
        (Some(at), Some(tt), Some(sc), Some(ea), Some(sa)) => Some(
            PersistedCredential {
                access_token: at,
                refresh_token,
                token_type: tt,
                scope: sc,
                expires_at: ea,
                saved_at: sa,
            },
        ),
        _ => None,
    }
}

/// What `find_from` yields is the first occurrence: nothing before it
/// matches, and it points at `c` unless nothing does.
proof fn lemma_find_from_ensures(s: Seq<char>, c: char, from: int)
    requires
        0 <= from <= s.len(),
    ensures
        from <= find_from(s, c, from) <= s.len(),
        forall|j: int| from <= j < find_from(s, c, from) ==> s[j] != c,
        find_from(s, c, from) < s.len() ==> s[find_from(s, c, from)] == c,
    decreases s.len() - from,
{
    if from < s.len() && s[from] != c {
        lemma_find_from_ensures(s, c, from + 1);
    }
}

/// Where nothing before `idx` matches and `idx` does (or is the end),
/// `find_from` lands on `idx`.
proof fn lemma_find_from_at(s: Seq<char>, c: char, from: int, idx: int)
    requires
        0 <= from <= idx <= s.len(),
        forall|j: int| from <= j < idx ==> s[j] != c,
        idx == s.len() || s[idx] == c,
    ensures
        find_from(s, c, from) == idx,
    decreases idx - from,
{
    if from < idx {
        lemma_find_from_at(s, c, from + 1, idx);
    }
}

/// Reading lines from position `k` is reading the tail from its start.
proof fn lemma_parse_lines_shift(s: Seq<char>, k: int, f: FieldsView)
    requires
        0 <= k <= s.len(),
    ensures
        spec_parse_lines(s, k, f) == spec_parse_lines(s.skip(k), 0, f),
    decreases s.len() - k,
{
    if k >= s.len() {
        assert(s.skip(k) =~= Seq::<char>::empty());
    } else {
        let e = find_from(s, '\n', k);
        lemma_find_from_ensures(s, '\n', k);
        lemma_find_from_at(s.skip(k), '\n', 0, e - k);
        assert(s.subrange(k, e) =~= s.skip(k).subrange(0, e - k));
        let f2 = spec_apply_line(s.subrange(k, e), f);
        if e >= s.len() {
        } else {
            lemma_parse_lines_shift(s, e + 1, f2);
            lemma_parse_lines_shift(s.skip(k), e - k + 1, f2);
            assert(s.skip(k).skip(e - k + 1) =~= s.skip(e + 1));
        }
    }
}

/// Reading one newline-free line, then the rest, applies the line to the
/// fields and goes on with the rest.
proof fn lemma_parse_prepend_line(line: Seq<char>, rest: Seq<char>, f: FieldsView)
    requires
        forall|j: int| 0 <= j < line.len() ==> line[j] != '\n',
    ensures
        spec_parse_lines(line + seq!['\n'] + rest, 0, f) == spec_parse_lines(
            rest,
            0,
            spec_apply_line(line, f),
        ),
{
    let s = line + seq!['\n'] + rest;
    lemma_find_from_at(s, '\n', 0, line.len() as int);
    assert(s.subrange(0, line.len() as int) =~= line);
    let f2 = spec_apply_line(line, f);
    lemma_parse_lines_shift(s, line.len() as int + 1, f2);
    assert(s.skip(line.len() as int + 1) =~= rest);
}

/// A line `key=value` with an `=`-free key splits back into the two.
proof fn lemma_apply_kv(key: Seq<char>, value: Seq<char>)
    requires
        forall|j: int| 0 <= j < key.len() ==> key[j] != '=',
    ensures
        find_from(key + seq!['='] + value, '=', 0) == key.len(),
        (key + seq!['='] + value).take(key.len() as int) == key,
        (key + seq!['='] + value).skip(key.len() as int + 1) == value,
{
    let line = key + seq!['='] + value;
    lemma_find_from_at(line, '=', 0, key.len() as int);
    assert(line.take(key.len() as int) =~= key);
    assert(line.skip(key.len() as int + 1) =~= value);
}

/// Whether a string field may stand in the persisted text: line breaks
/// would tear the line apart.
pub open spec fn single_line(s: Seq<char>) -> bool {
    forall|j: int| 0 <= j < s.len() ==> s[j] != '\n'
}

/// A credential whose string fields carry no line break survives the trip
/// to its persisted text and back unchanged.
#[verifier::rlimit(100)]
pub proof fn lemma_credential_round_trip(c: CredentialView)
    requires
        single_line(c.access_token),
        c.refresh_token matches Some(rt) ==> single_line(rt),
        single_line(c.token_type),
        single_line(c.scope),
    ensures
        spec_parse_credential(spec_encode_credential(c)) == Some(c),
{
    reveal_strlit("access_token=");
    reveal_strlit("refresh_token=");
    reveal_strlit("token_type=");
    reveal_strlit("scope=");
    reveal_strlit("expires_at=");
    reveal_strlit("saved_at=");
    reveal_strlit("access_token");
    reveal_strlit("refresh_token");
    reveal_strlit("token_type");
    reveal_strlit("scope");
    reveal_strlit("expires_at");
    reveal_strlit("saved_at");
    reveal_strlit("\n");
    reveal_strlit("=");
    crate::text::lemma_dec_digits_value(c.expires_at as nat);
    crate::text::lemma_dec_digits_value(c.saved_at as nat);
    crate::text::lemma_parse_u64_digits(c.expires_at);
    crate::text::lemma_parse_u64_digits(c.saved_at);
    let ea = dec_digits(c.expires_at as nat);
    let sa = dec_digits(c.saved_at as nat);
    assert(forall|j: int| 0 <= j < ea.len() ==> ea[j] != '\n' && ea[j] != '=');
    assert(forall|j: int| 0 <= j < sa.len() ==> sa[j] != '\n' && sa[j] != '=');

    let l1 = "access_token"@ + seq!['='] + c.access_token;
    let l3 = "token_type"@ + seq!['='] + c.token_type;
    let l4 = "scope"@ + seq!['='] + c.scope;
    let l5 = "expires_at"@ + seq!['='] + ea;
    let l6 = "saved_at"@ + seq!['='] + sa;
    let tail6: Seq<char> = Seq::empty();
    let tail5 = l6 + seq!['\n'] + tail6;
    let tail4 = l5 + seq!['\n'] + tail5;
    let tail3 = l4 + seq!['\n'] + tail4;
    let tail2 = l3 + seq!['\n'] + tail3;

    lemma_apply_kv("access_token"@, c.access_token);
    lemma_apply_kv("token_type"@, c.token_type);
    lemma_apply_kv("scope"@, c.scope);
    lemma_apply_kv("expires_at"@, ea);
    lemma_apply_kv("saved_at"@, sa);

    let f0 = empty_fields();
    match c.refresh_token {
        Some(rt) => {
            let l2 = "refresh_token"@ + seq!['='] + rt;
            lemma_apply_kv("refresh_token"@, rt);
            let tail1 = l2 + seq!['\n'] + tail2;
            assert(spec_encode_credential(c) =~= l1 + seq!['\n'] + tail1);
            lemma_parse_prepend_line(l1, tail1, f0);
            let f1 = spec_apply_line(l1, f0);
            lemma_parse_prepend_line(l2, tail2, f1);
            let f2 = spec_apply_line(l2, f1);
            lemma_parse_prepend_line(l3, tail3, f2);
            let f3 = spec_apply_line(l3, f2);
            lemma_parse_prepend_line(l4, tail4, f3);
            let f4 = spec_apply_line(l4, f3);
            lemma_parse_prepend_line(l5, tail5, f4);
            let f5 = spec_apply_line(l5, f4);
            lemma_parse_prepend_line(l6, tail6, f5);
            let f6 = spec_apply_line(l6, f5);
            assert(spec_parse_lines(tail6, 0, f6) == f6);
            assert(spec_finish_fields(f6) == Some(c));
        },
        None => {
            assert(spec_encode_credential(c) =~= l1 + seq!['\n'] + tail2);
            lemma_parse_prepend_line(l1, tail2, f0);
            let f1 = spec_apply_line(l1, f0);
            lemma_parse_prepend_line(l3, tail3, f1);
            let f3 = spec_apply_line(l3, f1);
            lemma_parse_prepend_line(l4, tail4, f3);
            let f4 = spec_apply_line(l4, f3);
            lemma_parse_prepend_line(l5, tail5, f4);
            let f5 = spec_apply_line(l5, f4);
            lemma_parse_prepend_line(l6, tail6, f5);
            let f6 = spec_apply_line(l6, f5);
            assert(spec_parse_lines(tail6, 0, f6) == f6);
            assert(spec_finish_fields(f6) == Some(c));
        },
    }
}

/// Renders the credential in its persisted form.
pub fn encode_credential(c: &PersistedCredential) -> (r: String)
    ensures
        r@ == spec_encode_credential(c@),
{
    let mut r = String::new();
    r.append("access_token=");
    r.append(c.access_token.as_str());
    r.append("\n");
    if let Some(rt) = &c.refresh_token {
        r.append("refresh_token=");
        r.append(rt.as_str());
        r.append("\n");
    }
    r.append("token_type=");
    r.append(c.token_type.as_str());
    r.append("\n");
    r.append("scope=");
    r.append(c.scope.as_str());
    r.append("\n");
    r.append("expires_at=");
    r.append(u64_to_string(c.expires_at).as_str());
    r.append("\n");
    r.append("saved_at=");
    r.append(u64_to_string(c.saved_at).as_str());
    r.append("\n");
    assert(r@ =~= spec_encode_credential(c@));
    r
}

} // verus!
