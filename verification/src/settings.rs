//! The settings of the context server and their resolution.
//!
//! Settings arrive as three optional texts. Resolution demands a token that
//! is not blank and drops optional fields that are; what it keeps of them is
//! trimmed.

use vstd::prelude::*;
use crate::error::{ExtensionError, Failure};
use crate::text::{blank, is_blank, lemma_trimmed_ends, trim, trimmed, whitespace};

verus! {

/// The text of the failure for a token that is missing or blank.
pub const TOKEN_REQUIRED: &'static str = "digitalocean_api_token is required";

/// The settings as the project holds them. Every field may be missing.
#[derive(Debug, Clone, PartialEq, Eq)]
pub struct Settings {
    /// The API token.
    pub digitalocean_api_token: Option<String>,
    /// The services to expose, as the server's command line takes them.
    pub services: Option<String>,
    /// An API endpoint to use in place of the default one.
    pub digitalocean_api_endpoint: Option<String>,
}

/// [`Settings`] as sequences of characters.
pub struct SettingsView {
    pub token: Option<Seq<char>>,
    pub services: Option<Seq<char>>,
    pub endpoint: Option<Seq<char>>,
}

/// The characters of an optional text.
pub open spec fn text_of(field: Option<String>) -> Option<Seq<char>> {
    match field {
        Some(value) => Some(value@),
        None => None,
    }
}

impl View for Settings {
    type V = SettingsView;

    open spec fn view(&self) -> SettingsView {
        SettingsView {
            token: text_of(self.digitalocean_api_token),
            services: text_of(self.services),
            endpoint: text_of(self.digitalocean_api_endpoint),
        }
    }
}

/// An optional field as it counts: trimmed, and not set where nothing is
/// left of it.
pub open spec fn normalized(field: Option<Seq<char>>) -> Option<Seq<char>> {
    match field {
        Some(value) => if trimmed(value).len() > 0 {
            Some(trimmed(value))
        } else {
            None
        },
        None => None,
    }
}

/// The token as it counts: the value as it was entered, unless it is missing
/// or blank.
pub open spec fn usable_token(field: Option<Seq<char>>) -> Option<Seq<char>> {
    match field {
        Some(value) => if blank(value) {
            None
        } else {
            Some(value)
        },
        None => None,
    }
}

/// Resolved settings as sequences of characters.
pub struct ResolvedView {
    pub token: Seq<char>,
    pub services: Option<Seq<char>>,
    pub endpoint: Option<Seq<char>>,
}

/// Whether an optional field is absent or holds a trimmed text that is not
/// empty.
pub open spec fn set_or_absent(field: Option<Seq<char>>) -> bool {
    field matches Some(value) ==> value.len() > 0 && !whitespace(value.first())
        && !whitespace(value.last())
}

impl ResolvedView {
    /// What holds of every resolved value: the token is not blank, and an
    /// optional field that is set has text without whitespace around it.
    pub open spec fn valid(self) -> bool {
        &&& !blank(self.token)
        &&& set_or_absent(self.services)
        &&& set_or_absent(self.endpoint)
    }
}

/// What resolution makes of settings: a failure where the token is missing
/// or blank.
pub open spec fn resolved_of(settings: SettingsView) -> Result<ResolvedView, Failure> {
    match usable_token(settings.token) {
        Some(token) => Ok(
            ResolvedView {
                token,
                services: normalized(settings.services),
                endpoint: normalized(settings.endpoint),
            },
        ),
        None => Err(Failure::Validation(TOKEN_REQUIRED@)),
    }
}

/// Whatever resolution yields is valid.
pub proof fn lemma_resolved_is_valid(settings: SettingsView)
    requires
        resolved_of(settings) is Ok,
    ensures
        resolved_of(settings)->Ok_0.valid(),
{
    lemma_normalized_is_set(settings.services);
    lemma_normalized_is_set(settings.endpoint);
}

/// A normalized field is absent or set.
pub proof fn lemma_normalized_is_set(field: Option<Seq<char>>)
    ensures
        set_or_absent(normalized(field)),
{
    if let Some(value) = field {
        if trimmed(value).len() > 0 {
            lemma_trimmed_ends(value);
        }
    }
}

/// Settings that passed resolution. A value of this type always holds a
/// token that is not blank.
#[derive(Debug, PartialEq, Eq)]
pub struct ResolvedSettings {
    token: String,
    services: Option<String>,
    endpoint: Option<String>,
}

impl View for ResolvedSettings {
    type V = ResolvedView;

    closed spec fn view(&self) -> ResolvedView {
        ResolvedView {
            token: self.token@,
            services: text_of(self.services),
            endpoint: text_of(self.endpoint),
        }
    }
}

impl ResolvedSettings {
    #[verifier::type_invariant]
    spec fn well_formed(self) -> bool {
        self@.valid()
    }

    /// The token, as it was entered.
    pub fn token(&self) -> (r: &str)
        ensures
            r@ == self@.token,
            !blank(r@),
    {
        proof {
            use_type_invariant(self);
        }
        self.token.as_str()
    }

    /// The services filter, if one is set.
    pub fn services(&self) -> (r: Option<&str>)
        ensures
            r is Some == self@.services is Some,
            r matches Some(value) ==> self@.services == Some(value@),
            self@.valid(),
    {
        proof {
            use_type_invariant(self);
        }
        match &self.services {
            Some(value) => Some(value.as_str()),
            None => None,
        }
    }

    /// The endpoint override, if one is set.
    pub fn endpoint(&self) -> (r: Option<&str>)
        ensures
            r is Some == self@.endpoint is Some,
            r matches Some(value) ==> self@.endpoint == Some(value@),
            self@.valid(),
    {
        proof {
            use_type_invariant(self);
        }
        match &self.endpoint {
            Some(value) => Some(value.as_str()),
            None => None,
        }
    }
}

/// An optional field, trimmed; `None` where it is absent or blank.
pub fn normalize(field: Option<String>) -> (r: Option<String>)
    ensures
        text_of(r) == normalized(text_of(field)),
{
    match field {
        Some(value) => {
            let kept = trim(value.as_str());
            if kept.is_empty() {
                None
            } else {
                Some(kept.to_owned())
            }
        },
        None => None,
    }
}

/// Resolves settings: succeeds exactly when the token is present and not
/// blank. The token is kept as entered; the optional fields are normalized.
pub fn resolve(settings: Settings) -> (r: Result<ResolvedSettings, ExtensionError>)
    ensures
        match resolved_of(settings@) {
            Ok(resolved) => r matches Ok(value) && value@ == resolved,
            Err(failure) => r matches Err(e) && e@ == failure,
        },
{
    let Settings { digitalocean_api_token, services, digitalocean_api_endpoint } = settings;
    match digitalocean_api_token {
        Some(token) => {
            if is_blank(token.as_str()) {
                Err(ExtensionError::Validation(TOKEN_REQUIRED.to_owned()))
            } else {
                let services = normalize(services);
                let endpoint = normalize(digitalocean_api_endpoint);
                proof {
                    lemma_resolved_is_valid(settings@);
                }
                Ok(ResolvedSettings { token, services, endpoint })
            }
        },
        None => Err(ExtensionError::Validation(TOKEN_REQUIRED.to_owned())),
    }
}

} // verus!
