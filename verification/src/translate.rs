//! The translation client's verified state: the cached bearer token with
//! its expiry check, the claims of the token request, and the pairing of
//! translated strings with their sources.  The application performs the
//! JWT signing and the HTTP calls and hands the outcomes back.

use vstd::prelude::*;

verus! {

/// One translated string paired with its source text.
pub struct TranslatResult {
    pub translated: String,
    pub raw_text: String,
}

/// What the translation provider is constructed from.
pub struct TranslateProviderInitConfig {
    pub project_id: String,
    pub service_account_json: String,
}

/// The translation client's state: its identity plus the process-wide
/// cached access token and the moment it expires.
#[derive(Clone)]
pub struct TranslateProvider {
    pub project_id: String,
    pub service_account_json: String,
    pub access_token: String,
    pub access_token_expires_at: i64,
}

/// The claims of the token request: a bearer-token grant for the
/// translation scope, valid for one hour from `iat`.
pub struct JwtClaims {
    pub iss: String,
    pub scope: String,
    pub aud: String,
    pub exp: i64,
    pub iat: i64,
}

/// How long an access token stays valid, in seconds.
pub open spec fn token_lifetime() -> int {
    3600
}

impl TranslateProvider {
    /// A fresh provider: no token cached yet, so the first use refreshes.
    pub fn new(init_config: TranslateProviderInitConfig) -> (r: TranslateProvider)
        ensures
            r.project_id == init_config.project_id,
            r.service_account_json == init_config.service_account_json,
            r.access_token@.len() == 0,
            r.access_token_expires_at == 0,
    {
        TranslateProvider {
            project_id: init_config.project_id,
            service_account_json: init_config.service_account_json,
            access_token: String::new(),
            access_token_expires_at: 0,
        }
    }

    /// Whether the cached token is still usable at `now_sec` — exactly when
    /// its expiry lies strictly in the future.
    pub fn token_is_fresh(&self, now_sec: i64) -> (r: bool)
        ensures
            r == (self.access_token_expires_at > now_sec),
    {
        self.access_token_expires_at > now_sec
    }

    /// Records a freshly acquired token and its expiry.
    pub fn store_token(&mut self, token: String, expires_at: i64)
        ensures
            final(self).access_token == token,
            final(self).access_token_expires_at == expires_at,
            final(self).project_id == old(self).project_id,
            final(self).service_account_json == old(self).service_account_json,
    {
        self.access_token = token;
        self.access_token_expires_at = expires_at;
    }
}

/// The claims signed into the token request for a service account,
/// issued at `iat` and expiring one token lifetime later.
pub fn jwt_claims(client_email: String, iat: i64) -> (r: JwtClaims)
    requires
        iat + token_lifetime() <= i64::MAX,
    ensures
        r.iss == client_email,
        r.scope@ == "https://www.googleapis.com/auth/cloud-translation"@,
        r.aud@ == "https://oauth2.googleapis.com/token"@,
        r.iat == iat,
        r.exp == iat + token_lifetime(),
{
    JwtClaims {
        iss: client_email,
        scope: "https://www.googleapis.com/auth/cloud-translation".to_owned(),
        aud: "https://oauth2.googleapis.com/token".to_owned(),
        exp: iat + 3600,
        iat,
    }
}

/// Pairs each source string, in order, with the translation returned at
/// the same position — duplicates included.  A well-behaved translation
/// backend returns exactly one translation per source, in which case no
/// string of either list is left out.
pub fn pair_translations(target_strs: &Vec<String>, translated: &Vec<String>) -> (r: Vec<
    TranslatResult,
>)
    ensures
        r@.len() == vstd::math::min(target_strs@.len() as int, translated@.len() as int),
        forall|i: int| 0 <= i < r@.len()
            ==> (#[trigger] r@[i]).raw_text == target_strs@[i]
                && r@[i].translated == translated@[i],
{
    let mut r: Vec<TranslatResult> = Vec::new();
    let n = if target_strs.len() < translated.len() {
        target_strs.len()
    } else {
        translated.len()
    };
    for i in 0..n
        invariant
            n <= target_strs@.len(),
            n <= translated@.len(),
            r@.len() == i,
            forall|j: int| 0 <= j < i
                ==> (#[trigger] r@[j]).raw_text == target_strs@[j]
                    && r@[j].translated == translated@[j],
    {
        r.push(TranslatResult {
            translated: translated[i].clone(),
            raw_text: target_strs[i].clone(),
        });
    }
    r
}

} // verus!
