//! The editor's language-model provider for Kiro: its sign-in status, the
//! models it offers, how requests are built and how replies and errors are
//! reported to the editor.

use vstd::prelude::*;
use crate::text::{owned, push_str};
use crate::token::{
    BuilderIdToken, DeviceRegistration, Timestamp, in_utc_range, now, ts_ge, MAX_DELTA_SECS, MAX_UTC_SECS,
    MIN_UTC_SECS,
};
use crate::device_flow::DeviceAuthorizationResponse;

verus! {

/// The provider's id.
pub const PROVIDER_ID: &'static str = "kiro";
/// The provider's display name.
pub const PROVIDER_NAME: &'static str = "Kiro AI";
/// The region used until another is chosen.
pub const DEFAULT_REGION: &'static str = "us-east-1";
/// Where AWS Builder ID is explained.
pub const AWS_BUILDER_ID_URL: &'static str = "https://view.awsapps.com/start";
/// The token budget of a model whose limit is not known.
pub const DEFAULT_MAX_TOKENS: u64 = 200000;
/// The output token budget of every model.
pub const MAX_OUTPUT_TOKENS: u64 = 8192;
/// Seconds before expiry at which a token is refreshed.
pub const REFRESH_MARGIN_SECS: i64 = 300;

/// The scopes the client asks for when it registers.
pub fn scopes() -> (r: Vec<&'static str>)
    ensures
        r@.len() == 3,
        r@[0]@ == "codewhisperer:completions"@,
        r@[1]@ == "codewhisperer:analysis"@,
        r@[2]@ == "codewhisperer:conversations"@,
{
    vec!["codewhisperer:completions", "codewhisperer:analysis", "codewhisperer:conversations"]
}

/// The regions that can be chosen, with their labels.
pub fn available_regions() -> (r: Vec<(&'static str, &'static str)>)
    ensures
        r@.len() == 2,
        r@[0].0@ == "us-east-1"@,
        r@[0].1@ == "US East (N. Virginia)"@,
        r@[1].0@ == "eu-central-1"@,
        r@[1].1@ == "EU (Frankfurt)"@,
{
    vec![("us-east-1", "US East (N. Virginia)"), ("eu-central-1", "EU (Frankfurt)")]
}

/// The code to enter while signing in, where, and until when.
#[derive(Debug, Clone)]
pub struct DeviceFlowPrompt {
    pub user_code: String,
    pub verification_uri: String,
    pub expires_at: Timestamp,
}

impl DeviceFlowPrompt {
    /// The prompt for a device authorization answered at `now`: its user
    /// code and verification address, expiring `expires_in` seconds later
    /// (the count read as a signed number of seconds).
    pub fn for_authorization(auth: &DeviceAuthorizationResponse, now: Timestamp) -> (p: Self)
        requires
            in_utc_range(now),
            -MAX_DELTA_SECS <= auth.expires_in as i64 <= MAX_DELTA_SECS,
            MIN_UTC_SECS <= now.secs + auth.expires_in as i64 <= MAX_UTC_SECS,
        ensures
            p.user_code == auth.user_code,
            p.verification_uri == auth.verification_uri,
            p.expires_at == (Timestamp { secs: (now.secs + auth.expires_in as i64) as i64, nanos: now.nanos }),
    {
        let secs = auth.expires_in as i64;
        DeviceFlowPrompt {
            user_code: auth.user_code.clone(),
            verification_uri: auth.verification_uri.clone(),
            expires_at: now.plus_seconds(secs),
        }
    }
}

/// Where signing in stands.
#[derive(Debug, Clone)]
pub enum AuthStatus {
    SignedOut,
    SigningIn { prompt: DeviceFlowPrompt },
    Authenticated,
    Error(String),
}

/// What the provider's settings pane offers.
#[derive(Debug)]
pub enum Pane {
    /// The button that starts signing in.
    SignIn,
    /// The code to enter while signing in, where, and until when.
    DeviceCode { prompt: DeviceFlowPrompt },
    /// The signed-in card, with the button that signs out.
    SignedIn,
    /// The error that ended signing in, with the button that starts again.
    Error { message: String },
}

impl Default for AuthStatus {
    /// Signed out.
    fn default() -> (r: Self)
        ensures
            r is SignedOut,
    {
        AuthStatus::SignedOut
    }
}

/// A model the service offers. `rate_multiplier_bits` holds the bits of its
/// floating-point rate multiplier.
#[derive(Debug, Clone)]
pub struct KiroModelDefinition {
    pub id: String,
    pub name: String,
    pub rate_multiplier_bits: u64,
}

/// A model as the editor sees it.
#[derive(Debug, Clone)]
pub struct KiroModel {
    pub model_id: String,
    pub model_name: String,
    pub max_tokens: u64,
}

/// How the editor may constrain tool use.
#[derive(Debug, Clone, Copy, PartialEq, Eq, Structural)]
pub enum ToolChoice {
    Auto,
    Any,
    NoTool,
}

impl KiroModel {
    /// The model the service picks itself.
    pub fn auto() -> (m: Self)
        ensures
            m.model_id@ == "auto"@,
            m.model_name@ == "Auto"@,
            m.max_tokens == DEFAULT_MAX_TOKENS,
    {
        KiroModel { model_id: owned("auto"), model_name: owned("Auto"), max_tokens: DEFAULT_MAX_TOKENS }
    }

    /// The model of a definition.
    pub fn from_definition(def: &KiroModelDefinition) -> (m: Self)
        ensures
            m.model_id == def.id,
            m.model_name == def.name,
            m.max_tokens == DEFAULT_MAX_TOKENS,
    {
        KiroModel { model_id: def.id.clone(), model_name: def.name.clone(), max_tokens: DEFAULT_MAX_TOKENS }
    }

    /// The model's id in the editor: `kiro-` and the model id.
    pub fn id(&self) -> (r: String)
        ensures
            r@ == "kiro-"@ + self.model_id@,
    {
        let mut r = owned("kiro-");
        push_str(&mut r, self.model_id.as_str());
        r
    }

    /// The model's display name.
    pub fn name(&self) -> (r: String)
        ensures
            r == self.model_name,
    {
        self.model_name.clone()
    }

    /// The model's telemetry id: `kiro/` and the model id.
    pub fn telemetry_id(&self) -> (r: String)
        ensures
            r@ == "kiro/"@ + self.model_id@,
    {
        let mut r = owned("kiro/");
        push_str(&mut r, self.model_id.as_str());
        r
    }

    /// The model's token budget.
    pub fn max_token_count(&self) -> (r: u64)
        ensures
            r == self.max_tokens,
    {
        self.max_tokens
    }

    /// The model's output token budget.
    pub fn max_output_tokens(&self) -> (r: Option<u64>)
        ensures
            r == Some(MAX_OUTPUT_TOKENS),
    {
        Some(MAX_OUTPUT_TOKENS)
    }

    /// The model takes tools.
    pub fn supports_tools(&self) -> (r: bool)
        ensures
            r,
    {
        true
    }

    /// The model takes images.
    pub fn supports_images(&self) -> (r: bool)
        ensures
            r,
    {
        true
    }

    /// The model streams tool calls.
    pub fn supports_streaming_tools(&self) -> (r: bool)
        ensures
            r,
    {
        true
    }

    /// The model lets the assistant choose tools freely or use none, but
    /// cannot be made to use one.
    pub fn supports_tool_choice(&self, choice: ToolChoice) -> (r: bool)
        ensures
            r == (choice != ToolChoice::Any),
    {
        match choice {
            ToolChoice::Auto | ToolChoice::NoTool => true,
            ToolChoice::Any => false,
        }
    }
}

/// `hay` holds `needle` somewhere.
pub open spec fn contains_text(hay: Seq<char>, needle: Seq<char>) -> bool {
    exists|i: int| 0 <= i && i + needle.len() <= hay.len() && #[trigger] hay.subrange(i, i + needle.len()) == needle
}

/// Whether `hay` holds `needle` somewhere.
pub fn text_contains(hay: &str, needle: &str) -> (r: bool)
    ensures
        r == contains_text(hay@, needle@),
{
    let n = hay.unicode_len();
    let m = needle.unicode_len();
    if m > n {
        proof {
            assert forall|i: int| 0 <= i && i + needle@.len() <= hay@.len() implies #[trigger] hay@.subrange(i, i + needle@.len()) != needle@ by {}
        }
        return false;
    }
    let mut i: usize = 0;
    while i <= n - m
        invariant
            n == hay@.len(),
            m == needle@.len(),
            m <= n,
            i <= n - m + 1,
            forall|k: int| 0 <= k < i ==> #[trigger] hay@.subrange(k, k + m) != needle@,
        decreases n - m + 1 - i,
    {
        let mut j: usize = 0;
        let mut same = true;
        while j < m
            invariant
                n == hay@.len(),
                m == needle@.len(),
                i + m <= n,
                j <= m,
                same == (forall|l: int| 0 <= l < j ==> hay@[i + l] == needle@[l]),
            decreases m - j,
        {
            if hay.get_char(i + j) != needle.get_char(j) {
                same = false;
            }
            j = j + 1;
        }
        if same {
            proof {
                assert(hay@.subrange(i as int, i + m) =~= needle@);
            }
            return true;
        }
        proof {
            let k = choose|l: int| 0 <= l < m && hay@[i + l] != needle@[l];
            assert(hay@.subrange(i as int, i + m)[k] != needle@[k]);
        }
        i = i + 1;
    }
    false
}

/// The first definition with id `id`.
pub open spec fn first_with_id(defs: Seq<KiroModelDefinition>, id: Seq<char>) -> Option<KiroModelDefinition>
    decreases defs.len(),
{
    if defs.len() == 0 {
        None
    } else if defs[0].id@ == id {
        Some(defs[0])
    } else {
        first_with_id(defs.drop_first(), id)
    }
}

/// A definition of a fast model: a Haiku model, or the automatic one.
pub open spec fn is_fast(def: KiroModelDefinition) -> bool {
    contains_text(def.id@, "haiku"@) || def.id@ == "auto"@
}

/// The first fast definition.
pub open spec fn first_fast(defs: Seq<KiroModelDefinition>) -> Option<KiroModelDefinition>
    decreases defs.len(),
{
    if defs.len() == 0 {
        None
    } else if is_fast(defs[0]) {
        Some(defs[0])
    } else {
        first_fast(defs.drop_first())
    }
}

/// The model of a definition.
pub open spec fn model_of(def: KiroModelDefinition) -> (Seq<char>, Seq<char>, u64) {
    (def.id@, def.name@, DEFAULT_MAX_TOKENS)
}

/// The automatic model.
pub open spec fn auto_model() -> (Seq<char>, Seq<char>, u64) {
    ("auto"@, "Auto"@, DEFAULT_MAX_TOKENS)
}

/// A model by id, name and budget.
pub open spec fn model_view(m: KiroModel) -> (Seq<char>, Seq<char>, u64) {
    (m.model_id@, m.model_name@, m.max_tokens)
}

/// What to do about the token before a request.
#[derive(Debug, Clone, Copy, PartialEq, Eq, Structural)]
pub enum TokenPlan {
    /// There is no token, or no registration to refresh it with.
    Unavailable,
    /// The token is good for now.
    Use,
    /// The token expires within the refresh margin: refresh it first.
    Refresh,
}

/// Holding `token` at `now` counts as signed in.
pub open spec fn authenticated_at(token: Option<BuilderIdToken>, now: Timestamp) -> bool {
    match token {
        Some(t) => !ts_ge(now, t.expires_at),
        None => false,
    }
}

/// Storing a token signs the provider in until the token expires, with the
/// status authenticated; clearing it signs the provider out at every
/// instant, with the status signed out.
pub proof fn law_token_sign_in(after: KiroState, token: Option<BuilderIdToken>, now: Timestamp)
    requires
        after.token == token,
        token is Some ==> after.auth_status is Authenticated,
        token is None ==> after.auth_status is SignedOut,
    ensures
        token matches Some(t) ==> authenticated_at(after.token, now) == !ts_ge(now, t.expires_at)
            && after.auth_status is Authenticated,
        token is None ==> !authenticated_at(after.token, now) && after.auth_status is SignedOut,
{
}

/// The provider's state.
pub struct KiroState {
    pub token: Option<BuilderIdToken>,
    pub registration: Option<DeviceRegistration>,
    pub auth_status: AuthStatus,
    pub region: String,
    pub available_models: Vec<KiroModelDefinition>,
    pub default_model_id: Option<String>,
    pub models_loaded: bool,
}

impl KiroState {
    /// Signed out, in the default region, with no models loaded.
    pub fn new() -> (s: Self)
        ensures
            s.token is None,
            s.registration is None,
            s.auth_status is SignedOut,
            s.region@ == DEFAULT_REGION@,
            s.available_models@.len() == 0,
            s.default_model_id is None,
            !s.models_loaded,
    {
        KiroState {
            token: None,
            registration: None,
            auth_status: AuthStatus::SignedOut,
            region: owned(DEFAULT_REGION),
            available_models: Vec::new(),
            default_model_id: None,
            models_loaded: false,
        }
    }

    /// There is a token and it has not expired at `now`.
    pub fn is_authenticated_at(&self, now: Timestamp) -> (r: bool)
        ensures
            r == authenticated_at(self.token, now),
    {
        match &self.token {
            Some(token) => !token.is_expired_at(now),
            None => false,
        }
    }

    /// There is a token and it has not expired now.
    pub fn is_authenticated(&self) -> (r: bool)
        ensures
            exists|t: Timestamp| in_utc_range(t) && t.secs >= 0 && r == authenticated_at(self.token, t),
    {
        let t = now();
        self.is_authenticated_at(t)
    }

    /// Replaces the token; the status becomes authenticated with a token
    /// and signed out without one.
    pub fn set_token(&mut self, token: Option<BuilderIdToken>)
        ensures
            final(self).token == token,
            token is Some ==> final(self).auth_status is Authenticated,
            token is None ==> final(self).auth_status is SignedOut,
            final(self).registration == old(self).registration,
            final(self).region == old(self).region,
            final(self).available_models == old(self).available_models,
            final(self).default_model_id == old(self).default_model_id,
            final(self).models_loaded == old(self).models_loaded,
    {
        self.token = token;
        self.auth_status = if self.token.is_some() {
            AuthStatus::Authenticated
        } else {
            AuthStatus::SignedOut
        };
    }

    /// Replaces the registration.
    pub fn set_registration(&mut self, registration: Option<DeviceRegistration>)
        ensures
            final(self).registration == registration,
            final(self).token == old(self).token,
            final(self).auth_status == old(self).auth_status,
            final(self).region == old(self).region,
            final(self).available_models == old(self).available_models,
            final(self).default_model_id == old(self).default_model_id,
            final(self).models_loaded == old(self).models_loaded,
    {
        self.registration = registration;
    }

    /// Replaces the status.
    pub fn set_auth_status(&mut self, status: AuthStatus)
        ensures
            final(self).auth_status == status,
            final(self).token == old(self).token,
            final(self).registration == old(self).registration,
            final(self).region == old(self).region,
            final(self).available_models == old(self).available_models,
            final(self).default_model_id == old(self).default_model_id,
            final(self).models_loaded == old(self).models_loaded,
    {
        self.auth_status = status;
    }

    /// Replaces the region.
    pub fn set_region(&mut self, region: String)
        ensures
            final(self).region == region,
            final(self).token == old(self).token,
            final(self).registration == old(self).registration,
            final(self).auth_status == old(self).auth_status,
            final(self).available_models == old(self).available_models,
            final(self).default_model_id == old(self).default_model_id,
            final(self).models_loaded == old(self).models_loaded,
    {
        self.region = region;
    }

    /// Records the models the service offers and its default; the models
    /// are then loaded.
    pub fn set_available_models(&mut self, models: Vec<KiroModelDefinition>, default_id: Option<String>)
        ensures
            final(self).available_models == models,
            final(self).default_model_id == default_id,
            final(self).models_loaded,
            final(self).token == old(self).token,
            final(self).registration == old(self).registration,
            final(self).auth_status == old(self).auth_status,
            final(self).region == old(self).region,
    {
        self.available_models = models;
        self.default_model_id = default_id;
        self.models_loaded = true;
    }

    /// The default model: the service's default when it is among the
    /// offered models, else the automatic one.
    pub fn default_model(&self) -> (m: KiroModel)
        ensures
            model_view(m) == match self.default_model_id {
                Some(d) => match first_with_id(self.available_models@, d@) {
                    Some(def) => model_of(def),
                    None => auto_model(),
                },
                None => auto_model(),
            },
    {
        if let Some(default_id) = &self.default_model_id {
            let ghost defs = self.available_models@;
            let mut i: usize = 0;
            proof {
                assert(defs.skip(0) =~= defs);
            }
            while i < self.available_models.len()
                invariant
                    defs == self.available_models@,
                    self.default_model_id == Some(*default_id),
                    i <= defs.len(),
                    first_with_id(defs, default_id@) == first_with_id(defs.skip(i as int), default_id@),
                decreases defs.len() - i,
            {
                proof {
                    assert(defs.skip(i as int)[0] == defs[i as int]);
                    assert(defs.skip(i as int).drop_first() =~= defs.skip(i + 1));
                }
                if self.available_models[i].id == *default_id {
                    proof {
                        assert(first_with_id(defs.skip(i as int), default_id@) == Some(defs[i as int]));
                    }
                    let m = KiroModel::from_definition(&self.available_models[i]);
                    assert(model_view(m) == model_of(defs[i as int]));
                    assert(self.default_model_id == Some(*default_id));
                    return m;
                }
                i = i + 1;
            }
            proof {
                assert(defs.skip(i as int) =~= Seq::<KiroModelDefinition>::empty());
            }
        }
        KiroModel::auto()
    }

    /// The fast model: the first offered Haiku or automatic model, else the
    /// automatic one.
    pub fn default_fast_model(&self) -> (m: KiroModel)
        ensures
            model_view(m) == match first_fast(self.available_models@) {
                Some(def) => model_of(def),
                None => auto_model(),
            },
    {
        let ghost defs = self.available_models@;
        let mut i: usize = 0;
        proof {
            assert(defs.skip(0) =~= defs);
        }
        while i < self.available_models.len()
            invariant
                defs == self.available_models@,
                i <= defs.len(),
                first_fast(defs) == first_fast(defs.skip(i as int)),
            decreases defs.len() - i,
        {
            proof {
                assert(defs.skip(i as int)[0] == defs[i as int]);
                assert(defs.skip(i as int).drop_first() =~= defs.skip(i + 1));
            }
            let def = &self.available_models[i];
            if text_contains(def.id.as_str(), "haiku") || def.id == owned("auto") {
                proof {
                    assert(first_fast(defs.skip(i as int)) == Some(defs[i as int]));
                }
                return KiroModel::from_definition(def);
            }
            i = i + 1;
        }
        proof {
            assert(defs.skip(i as int) =~= Seq::<KiroModelDefinition>::empty());
        }
        KiroModel::auto()
    }

    /// The models offered to the editor: those of the service, or the
    /// automatic one while none are known.
    pub fn provided_models(&self) -> (r: Vec<KiroModel>)
        ensures
            self.available_models@.len() == 0 ==> r@.len() == 1 && model_view(r@[0]) == auto_model(),
            self.available_models@.len() > 0 ==> r@.len() == self.available_models@.len()
                && forall|i: int| 0 <= i < r@.len() ==> #[trigger] model_view(r@[i]) == model_of(self.available_models@[i]),
    {
        if self.available_models.len() == 0 {
            return vec![KiroModel::auto()];
        }
        let mut r: Vec<KiroModel> = Vec::new();
        let mut i: usize = 0;
        while i < self.available_models.len()
            invariant
                i <= self.available_models@.len(),
                r@.len() == i,
                forall|j: int| 0 <= j < i ==> #[trigger] model_view(r@[j]) == model_of(self.available_models@[j]),
            decreases self.available_models@.len() - i,
        {
            r.push(KiroModel::from_definition(&self.available_models[i]));
            i = i + 1;
        }
        r
    }

    /// What to do about the token before a request at `now`.
    pub fn token_plan_at(&self, now: Timestamp) -> (p: TokenPlan)
        ensures
            p == match (self.token, self.registration) {
                (Some(t), Some(_)) => if crate::token::expires_within(t.expires_at, now, REFRESH_MARGIN_SECS as int) {
                    TokenPlan::Refresh
                } else {
                    TokenPlan::Use
                },
                _ => TokenPlan::Unavailable,
            },
    {
        match (&self.token, &self.registration) {
            (Some(t), Some(_)) => {
                if t.expires_soon_at(now, REFRESH_MARGIN_SECS) {
                    TokenPlan::Refresh
                } else {
                    TokenPlan::Use
                }
            },
            _ => TokenPlan::Unavailable,
        }
    }

    /// What the settings pane offers at `now`: the sign-in button when
    /// signed out, or when the status says authenticated but the token has
    /// expired; the code while signing in; the signed-in card; the error.
    pub fn pane_at(&self, now: Timestamp) -> (p: Pane)
        ensures
            match self.auth_status {
                AuthStatus::SignedOut => p is SignIn,
                AuthStatus::SigningIn { prompt } => p == Pane::DeviceCode { prompt },
                AuthStatus::Authenticated => if authenticated_at(self.token, now) {
                    p is SignedIn
                } else {
                    p is SignIn
                },
                AuthStatus::Error(message) => p == Pane::Error { message },
            },
    {
        match &self.auth_status {
            AuthStatus::SignedOut => Pane::SignIn,
            AuthStatus::SigningIn { prompt } => Pane::DeviceCode {
                prompt: DeviceFlowPrompt {
                    user_code: prompt.user_code.clone(),
                    verification_uri: prompt.verification_uri.clone(),
                    expires_at: prompt.expires_at,
                },
            },
            AuthStatus::Authenticated => {
                if self.is_authenticated_at(now) {
                    Pane::SignedIn
                } else {
                    Pane::SignIn
                }
            },
            AuthStatus::Error(message) => Pane::Error { message: message.clone() },
        }
    }

    /// Settles the token once refreshing a token that expires at
    /// `expires_at` was tried at `now`, and says whether a token is left to
    /// use: a refreshed token is stored and used; when the refresh failed,
    /// the old token is still used until it expires, after which the
    /// provider signs out.
    pub fn after_refresh_at(
        &mut self,
        expires_at: Timestamp,
        refreshed: Option<BuilderIdToken>,
        now: Timestamp,
    ) -> (usable: bool)
        ensures
            match refreshed {
                Some(t) => usable && final(self).token == Some(t) && final(self).auth_status is Authenticated,
                None => usable == !ts_ge(now, expires_at) && (usable ==> final(self).token == old(self).token
                    && final(self).auth_status == old(self).auth_status) && (!usable ==> final(self).token is None
                    && final(self).auth_status is SignedOut),
            },
            final(self).registration == old(self).registration,
            final(self).region == old(self).region,
            final(self).available_models == old(self).available_models,
            final(self).default_model_id == old(self).default_model_id,
            final(self).models_loaded == old(self).models_loaded,
    {
        match refreshed {
            Some(t) => {
                self.set_token(Some(t));
                true
            },
            None => {
                if now.is_at_or_after(&expires_at) {
                    self.set_token(None);
                    self.set_auth_status(AuthStatus::SignedOut);
                    false
                } else {
                    true
                }
            },
        }
    }
}

/// The model offered as fast is the first offered model that is a Haiku
/// model (its id contains `haiku`) or the automatic one (its id is `auto`);
/// when no offered model is either, there is none and the automatic model
/// stands in.
pub proof fn law_fast_model(defs: Seq<KiroModelDefinition>, i: int)
    ensures
        (0 <= i < defs.len() && (contains_text(defs[i].id@, "haiku"@) || defs[i].id@ == "auto"@) && (forall|j: int|
            0 <= j < i ==> !(contains_text(defs[j].id@, "haiku"@) || defs[j].id@ == "auto"@)))
            ==> first_fast(defs) == Some(defs[i]),
        (forall|j: int| 0 <= j < defs.len() ==> !(contains_text(defs[j].id@, "haiku"@) || defs[j].id@ == "auto"@))
            ==> first_fast(defs) is None,
    decreases defs.len(),
{
    if defs.len() > 0 {
        let rest = defs.drop_first();
        law_fast_model(rest, i - 1);
        if 0 < i < defs.len() && (forall|j: int|
            0 <= j < i ==> !(contains_text(defs[j].id@, "haiku"@) || defs[j].id@ == "auto"@)) {
            assert(!(contains_text(defs[0].id@, "haiku"@) || defs[0].id@ == "auto"@));
            assert(rest[i - 1] == defs[i]);
            assert forall|j: int| 0 <= j < i - 1 implies !(contains_text(rest[j].id@, "haiku"@) || rest[j].id@
                == "auto"@) by {
                assert(rest[j] == defs[j + 1]);
            }
        }
        if forall|j: int| 0 <= j < defs.len() ==> !(contains_text(defs[j].id@, "haiku"@) || defs[j].id@ == "auto"@) {
            assert(!(contains_text(defs[0].id@, "haiku"@) || defs[0].id@ == "auto"@));
            assert forall|j: int| 0 <= j < rest.len() implies !(contains_text(rest[j].id@, "haiku"@) || rest[j].id@
                == "auto"@) by {
                assert(rest[j] == defs[j + 1]);
            }
        }
    }
}

/// The refresh margin is five minutes: a token that has expired, or that
/// expires less than five minutes from now, is refreshed before a request;
/// one that lasts more than five minutes longer is used as it is.
pub proof fn law_refresh_margin(expires_at: Timestamp, now: Timestamp)
    ensures
        REFRESH_MARGIN_SECS == 300,
        ts_ge(now, expires_at) ==> crate::token::expires_within(expires_at, now, REFRESH_MARGIN_SECS as int),
        expires_at.secs < now.secs + 300 ==> crate::token::expires_within(expires_at, now, REFRESH_MARGIN_SECS as int),
        expires_at.secs > now.secs + 300 ==> !crate::token::expires_within(expires_at, now, REFRESH_MARGIN_SECS as int),
{
}

/// The default model is the first offered model whose id is the default
/// id the service named; when none has it, there is none and the automatic
/// model stands in.
pub proof fn law_default_model(defs: Seq<KiroModelDefinition>, id: Seq<char>, i: int)
    ensures
        (0 <= i < defs.len() && defs[i].id@ == id && (forall|j: int| 0 <= j < i ==> defs[j].id@ != id))
            ==> first_with_id(defs, id) == Some(defs[i]),
        (forall|j: int| 0 <= j < defs.len() ==> defs[j].id@ != id) ==> first_with_id(defs, id) is None,
    decreases defs.len(),
{
    if defs.len() > 0 {
        let rest = defs.drop_first();
        law_default_model(rest, id, i - 1);
        if 0 < i < defs.len() && (forall|j: int| 0 <= j < i ==> defs[j].id@ != id) {
            assert(defs[0].id@ != id);
            assert(rest[i - 1] == defs[i]);
            assert forall|j: int| 0 <= j < i - 1 implies rest[j].id@ != id by {
                assert(rest[j] == defs[j + 1]);
            }
        }
        if forall|j: int| 0 <= j < defs.len() ==> defs[j].id@ != id {
            assert(defs[0].id@ != id);
            assert forall|j: int| 0 <= j < rest.len() implies rest[j].id@ != id by {
                assert(rest[j] == defs[j + 1]);
            }
        }
    }
}

} // verus!
