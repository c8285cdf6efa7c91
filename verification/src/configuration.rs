//! The documents that the editor shows where the server is configured:
//! how to install it, settings to start from, and the schema of the settings.

use vstd::prelude::*;
use vstd::string::*;
use crate::error::{ExtensionError, Failure};
use crate::settings::{usable_token, Settings, SettingsView};
use crate::text::{is_blank, replace, replace_all};

verus! {

/// The text in the settings template that stands for the token, quotes
/// included.
pub const TOKEN_PLACEHOLDER: &'static str = "\"YOUR_DIGITALOCEAN_API_TOKEN\"";

/// The quotation mark that opens and closes the token in the settings
/// document.
pub const QUOTE: &'static str = "\"";

/// What the editor shows where the server is configured.
#[derive(Debug, Clone, PartialEq, Eq)]
pub struct ConfigurationDescriptor {
    /// How to install the server.
    pub installation_instructions: String,
    /// Settings to start from, with the token filled in.
    pub default_settings: String,
    /// The schema of the settings, as a JSON document.
    pub settings_schema: String,
}

/// A [`ConfigurationDescriptor`] as sequences of characters.
pub struct ConfigurationView {
    pub installation_instructions: Seq<char>,
    pub default_settings: Seq<char>,
    pub settings_schema: Seq<char>,
}

impl View for ConfigurationDescriptor {
    type V = ConfigurationView;

    open spec fn view(&self) -> ConfigurationView {
        ConfigurationView {
            installation_instructions: self.installation_instructions@,
            default_settings: self.default_settings@,
            settings_schema: self.settings_schema@,
        }
    }
}

/// The settings that were handed over, if any, as sequences of characters.
pub open spec fn given_view(settings: Option<&Settings>) -> Option<SettingsView> {
    match settings {
        Some(settings) => Some(settings@),
        None => None,
    }
}

/// The serialized schema, or the reason why there is none, as sequences of
/// characters.
pub open spec fn schema_view(schema: Result<String, String>) -> Result<Seq<char>, Seq<char>> {
    match schema {
        Ok(document) => Ok(document@),
        Err(reason) => Err(reason@),
    }
}

/// The token to show: the one in the settings, as it was entered, and
/// nothing where there are no settings or the token is missing or blank.
pub open spec fn shown_token(settings: Option<SettingsView>) -> Seq<char> {
    match settings {
        Some(settings) => match usable_token(settings.token) {
            Some(token) => token,
            None => Seq::empty(),
        },
        None => Seq::empty(),
    }
}

/// `text` between quotation marks. Nothing in it is escaped.
pub open spec fn quoted(text: Seq<char>) -> Seq<char> {
    QUOTE@ + text + QUOTE@
}

/// The settings document: the template with the shown token, quoted, in
/// place of every placeholder.
pub open spec fn default_settings_of(template: Seq<char>, settings: Option<SettingsView>) -> Seq<
    char,
> {
    replace_all(template, TOKEN_PLACEHOLDER@, quoted(shown_token(settings)))
}

/// What the configuration builder yields. The settings never make it fail;
/// only a schema that could not be written out does.
pub open spec fn configuration_of(
    instructions: Seq<char>,
    template: Seq<char>,
    settings: Option<SettingsView>,
    schema: Result<Seq<char>, Seq<char>>,
) -> Result<ConfigurationView, Failure> {
    match schema {
        Ok(document) => Ok(
            ConfigurationView {
                installation_instructions: instructions,
                default_settings: default_settings_of(template, settings),
                settings_schema: document,
            },
        ),
        Err(reason) => Err(Failure::Schema(reason)),
    }
}

/// The outcome of a build as sequences of characters.
pub open spec fn outcome_view(outcome: Result<ConfigurationDescriptor, ExtensionError>) -> Result<
    ConfigurationView,
    Failure,
> {
    match outcome {
        Ok(descriptor) => Ok(descriptor@),
        Err(e) => Err(e@),
    }
}

/// The settings to show a token from: those that the editor handed over.
/// A read that failed counts as no settings, and its reason is dropped:
/// the configuration is shown all the same.
pub fn settings_to_show(loaded: Result<Option<Settings>, String>) -> (r: Option<Settings>)
    ensures
        match loaded {
            Ok(Some(settings)) => r == Some(settings),
            _ => r is None,
        },
{
    match loaded {
        Ok(found) => found,
        Err(_) => None,
    }
}

/// The token to show for the settings that were handed over.
pub fn token_to_show(settings: Option<&Settings>) -> (r: String)
    ensures
        r@ == shown_token(given_view(settings)),
{
    if let Some(settings) = settings {
        if let Some(token) = &settings.digitalocean_api_token {
            if !is_blank(token.as_str()) {
                return token.clone();
            }
        }
    }
    String::new()
}

/// The settings document for a template and the settings that were handed
/// over.
pub fn default_settings(template: &str, settings: Option<&Settings>) -> (r: String)
    ensures
        r@ == default_settings_of(template@, given_view(settings)),
{
    let token = token_to_show(settings);
    let mut value = QUOTE.to_owned();
    value.append(token.as_str());
    value.append(QUOTE);
    replace(template, TOKEN_PLACEHOLDER, value.as_str())
}

/// Builds the configuration descriptor from the bundled instructions and
/// settings template, the project's settings as far as they could be read
/// (`None` where there are none or they are malformed), and the schema as it
/// was written out.
pub fn configuration_descriptor(
    instructions: &str,
    template: &str,
    settings: Option<&Settings>,
    schema: Result<String, String>,
) -> (r: Result<ConfigurationDescriptor, ExtensionError>)
    ensures
        outcome_view(r) == configuration_of(
            instructions@,
            template@,
            given_view(settings),
            schema_view(schema),
        ),
{
    let default_settings = default_settings(template, settings);
    match schema {
        Ok(settings_schema) => Ok(
            ConfigurationDescriptor {
                installation_instructions: instructions.to_owned(),
                default_settings,
                settings_schema,
            },
        ),
        Err(reason) => Err(ExtensionError::Schema(reason)),
    }
}

/// Building twice from the same inputs gives the same descriptor, character
/// for character.
pub proof fn lemma_configuration_is_repeatable(
    first: Result<ConfigurationDescriptor, ExtensionError>,
    second: Result<ConfigurationDescriptor, ExtensionError>,
    instructions: Seq<char>,
    template: Seq<char>,
    settings: Option<SettingsView>,
    schema: Result<Seq<char>, Seq<char>>,
)
    requires
        outcome_view(first) == configuration_of(instructions, template, settings, schema),
        outcome_view(second) == configuration_of(instructions, template, settings, schema),
    ensures
        outcome_view(first) == outcome_view(second),
        first is Ok ==> second is Ok && first->Ok_0@ == second->Ok_0@,
{
}

/// Whatever the settings are, a schema that was written out gives a
/// descriptor; and settings without a usable token leave an empty text
/// between quotation marks where the placeholder stood.
pub proof fn lemma_settings_never_fail(
    instructions: Seq<char>,
    template: Seq<char>,
    settings: Option<SettingsView>,
    document: Seq<char>,
)
    ensures
        configuration_of(instructions, template, settings, Ok(document)) is Ok,
        (settings matches Some(given) ==> usable_token(given.token) is None)
            ==> default_settings_of(template, settings) == replace_all(
            template,
            TOKEN_PLACEHOLDER@,
            QUOTE@ + QUOTE@,
        ),
{
    if settings matches Some(given) ==> usable_token(given.token) is None {
        assert(QUOTE@ + Seq::<char>::empty() + QUOTE@ =~= QUOTE@ + QUOTE@);
    }
}

} // verus!
