//! Credential discovery: an ordered chain of sources, the first usable one wins.
//!
//! The sources, highest priority first: the OAuth override variable, the plain
//! API-key variable, each credential file in turn, then each secret-store alias
//! in turn. Reading the environment, the files and the secret store is the
//! caller's part; this module decides what the gathered values resolve to.
use vstd::prelude::*;
use crate::text::{is_usable, trim_of, trim_text};

verus! {

/// Where a credential came from.
#[derive(Clone, Copy, Debug, PartialEq, Eq, Structural)]
pub enum Origin {
    /// The OAuth override environment variable.
    EnvOverride,
    /// A plain API key, from the environment or from a stored credential blob.
    ApiKey,
    /// The OAuth token block of a credential file.
    OAuthFile,
    /// The platform secret store.
    OAuthKeychain,
}

/// A resolved credential. Its token is never blank.
#[derive(Clone, Debug)]
pub struct Credential {
    pub token: String,
    pub account_id: Option<String>,
    pub origin: Origin,
}

/// What a credential is, as values.
pub ghost struct CredentialModel {
    pub token: Seq<char>,
    pub account_id: Option<Seq<char>>,
    pub origin: Origin,
}

/// The characters of an optional string.
pub open spec fn opt_text(o: Option<String>) -> Option<Seq<char>> {
    match o {
        Some(s) => Some(s@),
        None => None,
    }
}

impl View for Credential {
    type V = CredentialModel;

    open spec fn view(&self) -> CredentialModel {
        CredentialModel { token: self.token@, account_id: opt_text(self.account_id), origin: self.origin }
    }
}

/// Whether a credential of this origin is an OAuth session token.
pub open spec fn origin_is_oauth(origin: Origin) -> bool {
    origin != Origin::ApiKey
}

impl Credential {
    /// An OAuth token can read usage; a plain API key cannot.
    pub fn is_oauth(&self) -> (r: bool)
        ensures
            r == origin_is_oauth(self.origin),
    {
        match self.origin {
            Origin::ApiKey => false,
            _ => true,
        }
    }
}

/// The nested OAuth block of a stored credential blob.
#[derive(Clone, Debug)]
pub struct TokenBlock {
    pub access_token: Option<String>,
    pub account_id: Option<String>,
}

/// A stored credential blob, as found in a credential file or the secret store.
#[derive(Clone, Debug)]
pub struct AuthFile {
    pub tokens: Option<TokenBlock>,
    pub openai_api_key: Option<String>,
}

/// One secret-store hit: the text it returned and, where that text is a
/// credential blob, the blob.
#[derive(Clone, Debug)]
pub struct SecretEntry {
    pub raw: String,
    pub parsed: Option<AuthFile>,
}

/// Everything gathered from the credential sources. A file that is missing or
/// does not parse is `None`; so is a secret-store alias whose lookup failed.
#[derive(Clone, Debug)]
pub struct CredentialSources {
    pub oauth_token_env: Option<String>,
    pub account_id_env: Option<String>,
    pub api_key_env: Option<String>,
    pub files: Vec<Option<AuthFile>>,
    pub secret_store: Vec<Option<SecretEntry>>,
}

#[derive(Clone, Copy, Debug, PartialEq, Eq, Structural)]
pub enum CredentialError {
    /// Every source was tried and none held a usable token.
    NoCredentialFound,
    /// A credential blob holds neither a usable OAuth token nor a usable key.
    NoUsableToken,
}

/// The OAuth token of a blob, where it has a usable one.
pub open spec fn blob_oauth_token(auth: AuthFile) -> Option<Seq<char>> {
    match auth.tokens {
        Some(t) => match t.access_token {
            Some(a) => if is_usable(a@) { Some(trim_of(a@)) } else { None },
            None => None,
        },
        None => None,
    }
}

/// The account id that accompanies a blob's OAuth token.
pub open spec fn blob_account_id(auth: AuthFile) -> Option<Seq<char>> {
    match auth.tokens {
        Some(t) => opt_text(t.account_id),
        None => None,
    }
}

/// What a blob yields: its OAuth token if usable, else its plain key if usable.
pub open spec fn blob_candidate(auth: AuthFile, oauth_origin: Origin) -> Option<CredentialModel> {
    match blob_oauth_token(auth) {
        Some(tok) => Some(
            CredentialModel { token: tok, account_id: blob_account_id(auth), origin: oauth_origin },
        ),
        None => match auth.openai_api_key {
            Some(k) => if is_usable(k@) {
                Some(CredentialModel { token: trim_of(k@), account_id: None, origin: Origin::ApiKey })
            } else {
                None
            },
            None => None,
        },
    }
}

/// What the OAuth override variable yields.
pub open spec fn env_oauth_candidate(s: CredentialSources) -> Option<CredentialModel> {
    match s.oauth_token_env {
        Some(t) => if is_usable(t@) {
            Some(
                CredentialModel {
                    token: trim_of(t@),
                    account_id: opt_text(s.account_id_env),
                    origin: Origin::EnvOverride,
                },
            )
        } else {
            None
        },
        None => None,
    }
}

/// What the plain API-key variable yields.
pub open spec fn env_key_candidate(s: CredentialSources) -> Option<CredentialModel> {
    match s.api_key_env {
        Some(k) => if is_usable(k@) {
            Some(CredentialModel { token: trim_of(k@), account_id: None, origin: Origin::ApiKey })
        } else {
            None
        },
        None => None,
    }
}

/// What one credential file yields.
pub open spec fn file_candidate(f: Option<AuthFile>) -> Option<CredentialModel> {
    match f {
        Some(auth) => blob_candidate(auth, Origin::OAuthFile),
        None => None,
    }
}

/// What one secret-store alias yields: a blob's credential where the text is a
/// blob with a usable field, else the trimmed text itself as an OAuth token.
pub open spec fn secret_candidate(e: Option<SecretEntry>) -> Option<CredentialModel> {
    match e {
        Some(entry) => if !is_usable(entry.raw@) {
            None
        } else {
            match entry.parsed {
                Some(auth) if blob_candidate(auth, Origin::OAuthKeychain) is Some => blob_candidate(
                    auth,
                    Origin::OAuthKeychain,
                ),
                _ => Some(
                    CredentialModel {
                        token: trim_of(entry.raw@),
                        account_id: None,
                        origin: Origin::OAuthKeychain,
                    },
                ),
            }
        },
        None => None,
    }
}

/// What each source yields, highest priority first.
pub open spec fn candidates(s: CredentialSources) -> Seq<Option<CredentialModel>> {
    seq![env_oauth_candidate(s), env_key_candidate(s)] + s.files@.map_values(
        |f: Option<AuthFile>| file_candidate(f),
    ) + s.secret_store@.map_values(|e: Option<SecretEntry>| secret_candidate(e))
}

/// The first credential in a priority-ordered sequence of outcomes.
pub open spec fn first_found(c: Seq<Option<CredentialModel>>) -> Option<CredentialModel>
    decreases c.len(),
{
    if c.len() == 0 {
        None
    } else if c[0] is Some {
        c[0]
    } else {
        first_found(c.drop_first())
    }
}

/// The credential the sources resolve to, if any.
pub open spec fn resolved(s: CredentialSources) -> Option<CredentialModel> {
    first_found(candidates(s))
}

/// The first credential of `a + b` is that of `a`, or else that of `b`.
pub proof fn lemma_first_found_append(a: Seq<Option<CredentialModel>>, b: Seq<Option<CredentialModel>>)
    ensures
        first_found(a + b) == (if first_found(a) is Some { first_found(a) } else { first_found(b) }),
    decreases a.len(),
{
    if a.len() == 0 {
        assert(a + b =~= b);
    } else {
        assert((a + b)[0] == a[0]);
        if a[0] is None {
            assert((a + b).drop_first() =~= a.drop_first() + b);
            lemma_first_found_append(a.drop_first(), b);
        }
    }
}

/// A sequence of one outcome yields that outcome.
pub proof fn lemma_first_found_single(x: Option<CredentialModel>)
    ensures
        first_found(seq![x]) == x,
{
    if x is None {
        assert(seq![x].drop_first() =~= Seq::<Option<CredentialModel>>::empty());
        assert(first_found(Seq::<Option<CredentialModel>>::empty()) is None);
    }
}

/// The trimmed text, where it is not blank.
fn usable_text(s: &String) -> (r: Option<String>)
    ensures
        r is Some <==> is_usable(s@),
        r is Some ==> r->0@ == trim_of(s@),
{
    let t = trim_text(s.as_str());
    if t.as_str().is_empty() {
        None
    } else {
        Some(t)
    }
}

/// The view of an optional credential.
pub open spec fn opt_model(r: Option<Credential>) -> Option<CredentialModel> {
    match r {
        Some(c) => Some(c@),
        None => None,
    }
}

/// A copy of an optional string.
fn copy_text(o: &Option<String>) -> (r: Option<String>)
    ensures
        opt_text(r) == opt_text(*o),
{
    match o {
        Some(s) => Some(s.clone()),
        None => None,
    }
}

/// The credential a stored blob yields: its OAuth token, with `oauth_origin`,
/// where that token is usable, else its plain API key where usable.
pub fn extract_from_auth(auth: &AuthFile, oauth_origin: Origin) -> (r: Result<Credential, CredentialError>)
    ensures
        match r {
            Ok(c) => blob_candidate(*auth, oauth_origin) == Some(c@),
            Err(e) => blob_candidate(*auth, oauth_origin) is None && e == CredentialError::NoUsableToken,
        },
{
    if let Some(tokens) = &auth.tokens {
        if let Some(access_token) = &tokens.access_token {
            if let Some(token) = usable_text(access_token) {
                return Ok(
                    Credential { token, account_id: copy_text(&tokens.account_id), origin: oauth_origin },
                );
            }
        }
    }
    if let Some(key) = &auth.openai_api_key {
        if let Some(token) = usable_text(key) {
            return Ok(Credential { token, account_id: None, origin: Origin::ApiKey });
        }
    }
    Err(CredentialError::NoUsableToken)
}

/// What one credential file yields.
fn file_credential(f: &Option<AuthFile>) -> (r: Option<Credential>)
    ensures
        opt_model(r) == file_candidate(*f),
{
    match f {
        Some(auth) => match extract_from_auth(auth, Origin::OAuthFile) {
            Ok(c) => Some(c),
            Err(_) => None,
        },
        None => None,
    }
}

/// What one secret-store alias yields.
fn secret_credential(e: &Option<SecretEntry>) -> (r: Option<Credential>)
    ensures
        opt_model(r) == secret_candidate(*e),
{
    match e {
        Some(entry) => match usable_text(&entry.raw) {
            None => None,
            Some(token) => {
                if let Some(auth) = &entry.parsed {
                    if let Ok(c) = extract_from_auth(auth, Origin::OAuthKeychain) {
                        return Some(c);
                    }
                }
                Some(Credential { token, account_id: None, origin: Origin::OAuthKeychain })
            },
        },
        None => None,
    }
}

/// The first credential the files yield, in order.
fn first_file_credential(files: &Vec<Option<AuthFile>>) -> (r: Option<Credential>)
    ensures
        opt_model(r) == first_found(files@.map_values(|f: Option<AuthFile>| file_candidate(f))),
{
    let ghost m = files@.map_values(|f: Option<AuthFile>| file_candidate(f));
    let mut i: usize = 0;
    while i < files.len()
        invariant
            i <= files.len(),
            m == files@.map_values(|f: Option<AuthFile>| file_candidate(f)),
            first_found(m.take(i as int)) is None,
        decreases files.len() - i,
    {
        let found = file_credential(&files[i]);
        proof {
            assert(m.take(i + 1) =~= m.take(i as int) + seq![m[i as int]]);
            lemma_first_found_append(m.take(i as int), seq![m[i as int]]);
            lemma_first_found_single(m[i as int]);
        }
        if found.is_some() {
            proof {
                assert(m =~= m.take(i as int) + m.skip(i as int));
                lemma_first_found_append(m.take(i as int), m.skip(i as int));
                assert(m.skip(i as int)[0] == m[i as int]);
            }
            return found;
        }
        i = i + 1;
    }
    assert(m.take(i as int) =~= m);
    None
}

/// The first credential the secret-store aliases yield, in order.
fn first_secret_credential(entries: &Vec<Option<SecretEntry>>) -> (r: Option<Credential>)
    ensures
        opt_model(r) == first_found(
            entries@.map_values(|e: Option<SecretEntry>| secret_candidate(e)),
        ),
{
    let ghost m = entries@.map_values(|e: Option<SecretEntry>| secret_candidate(e));
    let mut i: usize = 0;
    while i < entries.len()
        invariant
            i <= entries.len(),
            m == entries@.map_values(|e: Option<SecretEntry>| secret_candidate(e)),
            first_found(m.take(i as int)) is None,
        decreases entries.len() - i,
    {
        let found = secret_credential(&entries[i]);
        proof {
            assert(m.take(i + 1) =~= m.take(i as int) + seq![m[i as int]]);
            lemma_first_found_append(m.take(i as int), seq![m[i as int]]);
            lemma_first_found_single(m[i as int]);
        }
        if found.is_some() {
            proof {
                assert(m =~= m.take(i as int) + m.skip(i as int));
                lemma_first_found_append(m.take(i as int), m.skip(i as int));
                assert(m.skip(i as int)[0] == m[i as int]);
            }
            return found;
        }
        i = i + 1;
    }
    assert(m.take(i as int) =~= m);
    None
}

/// Resolves the gathered sources to one credential: the first source, in
/// priority order, that yields a non-blank token. Blank values and blobs with
/// no usable field count as absent; when nothing is left, the error is
/// `NoCredentialFound`.
pub fn resolve(s: &CredentialSources) -> (r: Result<Credential, CredentialError>)
    ensures
        match r {
            Ok(c) => resolved(*s) == Some(c@),
            Err(e) => resolved(*s) is None && e == CredentialError::NoCredentialFound,
        },
        r matches Ok(c) ==> c.token@.len() > 0,
{
    proof {
        resolved_token_is_never_blank(*s);
    }
    let ghost env = seq![env_oauth_candidate(*s), env_key_candidate(*s)];
    let ghost fm = s.files@.map_values(|f: Option<AuthFile>| file_candidate(f));
    let ghost sm = s.secret_store@.map_values(|e: Option<SecretEntry>| secret_candidate(e));
    proof {
        lemma_first_found_append(env + fm, sm);
        lemma_first_found_append(env, fm);
        assert(env.drop_first() =~= seq![env_key_candidate(*s)]);
        lemma_first_found_single(env_key_candidate(*s));
    }
    if let Some(raw) = &s.oauth_token_env {
        if let Some(token) = usable_text(raw) {
            return Ok(Credential { token, account_id: copy_text(&s.account_id_env), origin: Origin::EnvOverride });
        }
    }
    if let Some(raw) = &s.api_key_env {
        if let Some(token) = usable_text(raw) {
            return Ok(Credential { token, account_id: None, origin: Origin::ApiKey });
        }
    }
    if let Some(c) = first_file_credential(&s.files) {
        return Ok(c);
    }
    if let Some(c) = first_secret_credential(&s.secret_store) {
        return Ok(c);
    }
    Err(CredentialError::NoCredentialFound)
}

/// Whatever a sequence of outcomes yields first is one of its outcomes.
pub proof fn lemma_first_found_is_member(c: Seq<Option<CredentialModel>>)
    ensures
        first_found(c) is Some ==> exists|i: int| 0 <= i < c.len() && c[i] == first_found(c),
    decreases c.len(),
{
    if c.len() > 0 && c[0] is None {
        lemma_first_found_is_member(c.drop_first());
        if first_found(c) is Some {
            let i = choose|i: int| 0 <= i < c.drop_first().len() && c.drop_first()[i] == first_found(c.drop_first());
            assert(c[i + 1] == first_found(c));
        }
    }
}

/// Priority: when the source at position `i` (in the order override variable,
/// key variable, files, secret-store aliases) yields a credential and every
/// source before it yields none, that credential is the one resolved, whatever
/// the later sources hold.
pub proof fn first_success_wins(s: CredentialSources, i: int)
    requires
        0 <= i < candidates(s).len(),
        candidates(s)[i] is Some,
        forall|j: int| 0 <= j < i ==> candidates(s)[j] is None,
    ensures
        resolved(s) == candidates(s)[i],
{
    let c = candidates(s);
    assert(c =~= c.take(i) + c.skip(i));
    lemma_first_found_append(c.take(i), c.skip(i));
    lemma_none_before(c.take(i));
    assert(c.skip(i)[0] == c[i]);
}

/// A sequence of outcomes that are all absent yields nothing.
pub proof fn lemma_none_before(c: Seq<Option<CredentialModel>>)
    requires
        forall|j: int| 0 <= j < c.len() ==> c[j] is None,
    ensures
        first_found(c) is None,
    decreases c.len(),
{
    if c.len() > 0 {
        lemma_none_before(c.drop_first());
    }
}

/// A non-blank OAuth override variable always wins, as an OAuth credential.
pub proof fn override_variable_wins(s: CredentialSources)
    requires
        s.oauth_token_env is Some,
        is_usable(s.oauth_token_env->0@),
    ensures
        resolved(s) == env_oauth_candidate(s),
        resolved(s)->0.origin == Origin::EnvOverride,
        origin_is_oauth(resolved(s)->0.origin),
{
    first_success_wins(s, 0);
}

/// Without a usable override, a non-blank API-key variable wins, as a plain
/// key that is not OAuth.
pub proof fn key_variable_wins_next(s: CredentialSources)
    requires
        env_oauth_candidate(s) is None,
        s.api_key_env is Some,
        is_usable(s.api_key_env->0@),
    ensures
        resolved(s) == env_key_candidate(s),
        resolved(s)->0.origin == Origin::ApiKey,
        !origin_is_oauth(resolved(s)->0.origin),
{
    first_success_wins(s, 1);
}

/// A resolved credential never has a blank token: blank values from any
/// source count as absent.
pub proof fn resolved_token_is_never_blank(s: CredentialSources)
    ensures
        resolved(s) is Some ==> resolved(s)->0.token.len() > 0,
{
    let c = candidates(s);
    lemma_first_found_is_member(c);
    if resolved(s) is Some {
        let i = choose|i: int| 0 <= i < c.len() && c[i] == first_found(c);
        let n = s.files@.len() as int;
        if 2 <= i < 2 + n {
            assert(c[i] == file_candidate(s.files@[i - 2]));
        } else if i >= 2 + n {
            assert(c[i] == secret_candidate(s.secret_store@[i - 2 - n]));
        }
    }
}

/// A credential file that is present but holds no usable field does not stop
/// resolution: the sources resolve exactly as if that file were missing.
pub proof fn unusable_file_falls_through(s: CredentialSources, t: CredentialSources, k: int)
    requires
        0 <= k < s.files@.len(),
        s.files@[k] is Some,
        file_candidate(s.files@[k]) is None,
        t.oauth_token_env == s.oauth_token_env,
        t.account_id_env == s.account_id_env,
        t.api_key_env == s.api_key_env,
        t.files@ == s.files@.update(k, None),
        t.secret_store@ == s.secret_store@,
    ensures
        resolved(s) == resolved(t),
{
    assert(candidates(s) =~= candidates(t));
}

/// Sources probed later never displace a credential already resolved: adding
/// secret-store aliases after the ones tried keeps the result.
pub proof fn later_aliases_keep_result(s: CredentialSources, t: CredentialSources)
    requires
        t.oauth_token_env == s.oauth_token_env,
        t.account_id_env == s.account_id_env,
        t.api_key_env == s.api_key_env,
        t.files@ == s.files@,
        s.secret_store@.len() <= t.secret_store@.len(),
        t.secret_store@.take(s.secret_store@.len() as int) == s.secret_store@,
        resolved(s) is Some,
    ensures
        resolved(t) == resolved(s),
{
    let extra = t.secret_store@.skip(s.secret_store@.len() as int).map_values(
        |e: Option<SecretEntry>| secret_candidate(e),
    );
    assert(candidates(t) =~= candidates(s) + extra);
    lemma_first_found_append(candidates(s), extra);
}

} // verus!
