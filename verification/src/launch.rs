//! The command that starts the context server.
//!
//! Building it takes several answers from the editor, asked for in this
//! order: the installed version of the server package, the outcome of an
//! installation where one is due, the project's settings, the working
//! directory, and the path of the runtime. [`advance`] takes the step that
//! the build is at and the editor's answer, and gives the next step or the
//! descriptor; the first failure ends the build. Each step's decision is a
//! function of its own.

use vstd::prelude::*;
use crate::error::{ExtensionError, Failure};
use crate::settings::{
    resolve, resolved_of, text_of, ResolvedSettings, ResolvedView, Settings, SettingsView,
    TOKEN_REQUIRED,
};
use crate::text::{blank, lemma_blank_iff_trims_to_empty, same_text, trimmed};

verus! {

/// The package that holds the server.
pub const PACKAGE_NAME: &'static str = "@digitalocean/mcp";

/// The version of the package that must be installed.
pub const PACKAGE_VERSION: &'static str = "latest";

/// Where the server's entry script lies, seen from the working directory.
pub const SERVER_PATH: &'static str = "node_modules/@digitalocean/mcp/index.js";

/// The name under which the editor keeps the server's settings.
pub const SERVER_ID: &'static str = "mcp-server-digitalocean";

/// The argument that announces the services filter.
pub const SERVICES_FLAG: &'static str = "--services";

/// The environment variable that carries the token.
pub const TOKEN_VARIABLE: &'static str = "DIGITALOCEAN_API_TOKEN";

/// The environment variable that carries the endpoint override.
pub const ENDPOINT_VARIABLE: &'static str = "DIGITALOCEAN_API_ENDPOINT";

/// What the editor needs to start the server.
#[derive(Debug, Clone, PartialEq, Eq)]
pub struct LaunchDescriptor {
    /// The path of the runtime that executes the script.
    pub command: String,
    /// The arguments, in order; the first is the script.
    pub args: Vec<String>,
    /// The environment, as pairs of name and value, in order.
    pub env: Vec<(String, String)>,
}

/// A [`LaunchDescriptor`] as sequences of characters.
pub struct LaunchView {
    pub command: Seq<char>,
    pub args: Seq<Seq<char>>,
    pub env: Seq<(Seq<char>, Seq<char>)>,
}

impl View for LaunchDescriptor {
    type V = LaunchView;

    open spec fn view(&self) -> LaunchView {
        LaunchView {
            command: self.command@,
            args: self.args@.map_values(|arg: String| arg@),
            env: self.env@.map_values(|pair: (String, String)| (pair.0@, pair.1@)),
        }
    }
}

/// The arguments: the script, then the services filter where one is set.
pub open spec fn arguments_of(script_path: Seq<char>, services: Option<Seq<char>>) -> Seq<
    Seq<char>,
> {
    match services {
        Some(value) => seq![script_path, SERVICES_FLAG@, value],
        None => seq![script_path],
    }
}

/// The environment: the token, then the endpoint where one is set.
pub open spec fn environment_of(token: Seq<char>, endpoint: Option<Seq<char>>) -> Seq<
    (Seq<char>, Seq<char>),
> {
    match endpoint {
        Some(value) => seq![(TOKEN_VARIABLE@, token), (ENDPOINT_VARIABLE@, value)],
        None => seq![(TOKEN_VARIABLE@, token)],
    }
}

/// The descriptor for resolved settings, a script and a runtime.
pub open spec fn launch_of(
    resolved: ResolvedView,
    script_path: Seq<char>,
    runtime_path: Seq<char>,
) -> LaunchView {
    LaunchView {
        command: runtime_path,
        args: arguments_of(script_path, resolved.services),
        env: environment_of(resolved.token, resolved.endpoint),
    }
}

/// Whether the package has to be installed: it does unless the installed
/// version is the required one.
pub fn install_needed(installed: &Option<String>) -> (r: bool)
    ensures
        r == (text_of(*installed) != Some(PACKAGE_VERSION@)),
{
    match installed {
        Some(version) => !same_text(version.as_str(), PACKAGE_VERSION),
        None => true,
    }
}

/// Takes the answer to the question which version of the package is
/// installed. `Ok(true)` asks for an installation, `Ok(false)` goes on to the
/// settings; a lookup that failed ends the build.
pub fn package_checked(lookup: Result<Option<String>, String>) -> (r: Result<bool, ExtensionError>)
    ensures
        match lookup {
            Ok(installed) => r matches Ok(needed) && needed == (text_of(installed) != Some(
                PACKAGE_VERSION@,
            )),
            Err(reason) => r matches Err(e) && e@ == Failure::Install(reason@),
        },
{
    match lookup {
        Ok(installed) => Ok(install_needed(&installed)),
        Err(reason) => Err(ExtensionError::Install(reason)),
    }
}

/// Takes the outcome of the installation: a failure ends the build.
pub fn package_installed(outcome: Result<(), String>) -> (r: Result<(), ExtensionError>)
    ensures
        match outcome {
            Ok(_) => r is Ok,
            Err(reason) => r matches Err(e) && e@ == Failure::Install(reason@),
        },
{
    match outcome {
        Ok(_) => Ok(()),
        Err(reason) => Err(ExtensionError::Install(reason)),
    }
}

/// Settings in which no field is set: what a project without settings has.
pub open spec fn unset() -> SettingsView {
    SettingsView { token: None, services: None, endpoint: None }
}

/// The settings as the editor handed them over, or the reason why it could
/// not, as sequences of characters.
pub open spec fn loaded_view(loaded: Result<Option<Settings>, String>) -> Result<
    Option<SettingsView>,
    Seq<char>,
> {
    match loaded {
        Ok(Some(settings)) => Ok(Some(settings@)),
        Ok(None) => Ok(None),
        Err(reason) => Err(reason@),
    }
}

/// What the loaded settings resolve to. Settings that could not be read are
/// a validation failure with the reader's text; a project without settings
/// counts as one in which no field is set.
pub open spec fn loaded_resolution(loaded: Result<Option<SettingsView>, Seq<char>>) -> Result<
    ResolvedView,
    Failure,
> {
    match loaded {
        Ok(Some(settings)) => resolved_of(settings),
        Ok(None) => resolved_of(unset()),
        Err(reason) => Err(Failure::Validation(reason)),
    }
}

/// Takes the project's settings as the editor handed them over, and
/// resolves them.
pub fn settings_loaded(loaded: Result<Option<Settings>, String>) -> (r: Result<
    ResolvedSettings,
    ExtensionError,
>)
    ensures
        match loaded_resolution(loaded_view(loaded)) {
            Ok(resolved) => r matches Ok(value) && value@ == resolved,
            Err(failure) => r matches Err(e) && e@ == failure,
        },
{
    match loaded {
        Ok(Some(settings)) => resolve(settings),
        Ok(None) => resolve(
            Settings { digitalocean_api_token: None, services: None, digitalocean_api_endpoint: None },
        ),
        Err(reason) => Err(ExtensionError::Validation(reason)),
    }
}

/// The path that `std::path::Path::join` makes of `base` and `relative`, both
/// as text, by the rules of the platform that the crate is built for.
pub uninterp spec fn joined_path(base: Seq<char>, relative: Seq<char>) -> Seq<char>;

/// `std::path::Path::join`, on paths that are text. Trusted: the result is
/// the one that [`joined_path`] names. Where the separator goes, and which
/// one, is the platform's matter, and nothing is claimed of it.
#[verifier::external_body]
fn join_path(base: &str, relative: &str) -> (joined: String)
    ensures
        joined@ == joined_path(base@, relative@),
{
    std::path::Path::new(base).join(relative).to_string_lossy().into_owned()
}

/// Takes the working directory and gives the path of the server's script in
/// it: [`SERVER_PATH`] joined to the directory by the platform's rules. A
/// directory that could not be resolved ends the build.
pub fn script_located(directory: Result<String, String>) -> (r: Result<String, ExtensionError>)
    ensures
        match directory {
            Ok(base) => r matches Ok(path) && path@ == joined_path(base@, SERVER_PATH@),
            Err(reason) => r matches Err(e) && e@ == Failure::Io(reason@),
        },
{
    match directory {
        Ok(base) => Ok(join_path(base.as_str(), SERVER_PATH)),
        Err(reason) => Err(ExtensionError::Io(reason)),
    }
}

/// The descriptor for resolved settings, the script's path and the
/// runtime's path.
pub fn build_launch(resolved: &ResolvedSettings, script_path: String, runtime_path: String) -> (r:
    LaunchDescriptor)
    ensures
        r@ == launch_of(resolved@, script_path@, runtime_path@),
        !blank(r@.env[0].1),
{
    let mut args: Vec<String> = Vec::new();
    let ghost script = script_path@;
    args.push(script_path);
    if let Some(services) = resolved.services() {
        args.push(SERVICES_FLAG.to_owned());
        args.push(services.to_owned());
    }
    let mut env: Vec<(String, String)> = Vec::new();
    env.push((TOKEN_VARIABLE.to_owned(), resolved.token().to_owned()));
    if let Some(endpoint) = resolved.endpoint() {
        env.push((ENDPOINT_VARIABLE.to_owned(), endpoint.to_owned()));
    }
    let r = LaunchDescriptor { command: runtime_path, args, env };
    proof {
        assert(r@.args =~= arguments_of(script, resolved@.services));
        assert(r@.env =~= environment_of(resolved@.token, resolved@.endpoint));
    }
    r
}

/// Takes the path of the runtime, the last answer, and gives the
/// descriptor. A runtime that could not be located ends the build.
pub fn runtime_located(
    resolved: &ResolvedSettings,
    script_path: String,
    runtime: Result<String, String>,
) -> (r: Result<LaunchDescriptor, ExtensionError>)
    ensures
        match runtime {
            Ok(runtime_path) => r matches Ok(descriptor) && descriptor@ == launch_of(
                resolved@,
                script_path@,
                runtime_path@,
            ),
            Err(reason) => r matches Err(e) && e@ == Failure::Install(reason@),
        },
        r matches Ok(descriptor) ==> !blank(descriptor@.env[0].1),
{
    match runtime {
        Ok(runtime_path) => Ok(build_launch(resolved, script_path, runtime_path)),
        Err(reason) => Err(ExtensionError::Install(reason)),
    }
}

/// Where a build stands: which answer of the editor it waits for, with
/// what it has gathered so far.
#[derive(Debug, PartialEq, Eq)]
pub enum LaunchStep {
    /// Waiting for the installed version of [`PACKAGE_NAME`].
    CheckPackage,
    /// Waiting for the installation of [`PACKAGE_NAME`] at
    /// [`PACKAGE_VERSION`] to end.
    InstallPackage,
    /// Waiting for the project's settings under [`SERVER_ID`].
    LoadSettings,
    /// Waiting for the working directory; the settings are resolved.
    LocateScript(ResolvedSettings),
    /// Waiting for the runtime's path; the script's path is known.
    LocateRuntime(ResolvedSettings, String),
}

/// A [`LaunchStep`] as sequences of characters.
pub enum StepView {
    CheckPackage,
    InstallPackage,
    LoadSettings,
    LocateScript(ResolvedView),
    LocateRuntime(ResolvedView, Seq<char>),
}

impl View for LaunchStep {
    type V = StepView;

    open spec fn view(&self) -> StepView {
        match *self {
            LaunchStep::CheckPackage => StepView::CheckPackage,
            LaunchStep::InstallPackage => StepView::InstallPackage,
            LaunchStep::LoadSettings => StepView::LoadSettings,
            LaunchStep::LocateScript(resolved) => StepView::LocateScript(resolved@),
            LaunchStep::LocateRuntime(resolved, script_path) => StepView::LocateRuntime(
                resolved@,
                script_path@,
            ),
        }
    }
}

/// An answer of the editor: what it found, or why it could not.
#[derive(Debug, PartialEq, Eq)]
pub enum HostAnswer {
    /// The installed version of the package, if it is installed.
    InstalledVersion(Result<Option<String>, String>),
    /// The outcome of the installation.
    Installation(Result<(), String>),
    /// The project's settings, if it has any.
    Settings(Result<Option<Settings>, String>),
    /// The working directory.
    WorkingDirectory(Result<String, String>),
    /// The path of the runtime.
    RuntimePath(Result<String, String>),
}

/// A [`HostAnswer`] as sequences of characters.
pub enum AnswerView {
    InstalledVersion(Result<Option<Seq<char>>, Seq<char>>),
    Installation(Result<(), Seq<char>>),
    Settings(Result<Option<SettingsView>, Seq<char>>),
    WorkingDirectory(Result<Seq<char>, Seq<char>>),
    RuntimePath(Result<Seq<char>, Seq<char>>),
}

/// A text, or the reason why there is none, as sequences of characters.
pub open spec fn text_or_reason(answer: Result<String, String>) -> Result<Seq<char>, Seq<char>> {
    match answer {
        Ok(text) => Ok(text@),
        Err(reason) => Err(reason@),
    }
}

impl View for HostAnswer {
    type V = AnswerView;

    open spec fn view(&self) -> AnswerView {
        match *self {
            HostAnswer::InstalledVersion(Ok(installed)) => AnswerView::InstalledVersion(
                Ok(text_of(installed)),
            ),
            HostAnswer::InstalledVersion(Err(reason)) => AnswerView::InstalledVersion(
                Err(reason@),
            ),
            HostAnswer::Installation(Ok(_)) => AnswerView::Installation(Ok(())),
            HostAnswer::Installation(Err(reason)) => AnswerView::Installation(Err(reason@)),
            HostAnswer::Settings(loaded) => AnswerView::Settings(loaded_view(loaded)),
            HostAnswer::WorkingDirectory(directory) => AnswerView::WorkingDirectory(
                text_or_reason(directory),
            ),
            HostAnswer::RuntimePath(runtime) => AnswerView::RuntimePath(text_or_reason(runtime)),
        }
    }
}

/// How a build goes on after an answer: with another question, or with
/// the descriptor.
#[derive(Debug, PartialEq, Eq)]
pub enum Progress {
    /// The build goes on with this step.
    Next(LaunchStep),
    /// The build is done.
    Done(LaunchDescriptor),
}

/// [`Progress`] as sequences of characters.
pub enum ProgressView {
    Next(StepView),
    Done(LaunchView),
}

impl View for Progress {
    type V = ProgressView;

    open spec fn view(&self) -> ProgressView {
        match *self {
            Progress::Next(step) => ProgressView::Next(step@),
            Progress::Done(descriptor) => ProgressView::Done(descriptor@),
        }
    }
}

/// What [`advance`] returned, as sequences of characters.
pub open spec fn progress_view(outcome: Result<Progress, ExtensionError>) -> Result<
    ProgressView,
    Failure,
> {
    match outcome {
        Ok(progress) => Ok(progress@),
        Err(e) => Err(e@),
    }
}

/// The step after `step`, given the editor's answer.
///
/// The package is checked first and installed unless the required version
/// is there; then the settings are resolved, the script is located in the
/// working directory, and the runtime's path completes the descriptor. An
/// answer that reports a failure ends the build, and so do settings without
/// a usable token. An answer to another question than the step's changes
/// nothing: the step stands.
pub open spec fn advanced(step: StepView, answer: AnswerView) -> Result<ProgressView, Failure> {
    match (step, answer) {
        (StepView::CheckPackage, AnswerView::InstalledVersion(Ok(installed))) => Ok(
            ProgressView::Next(
                if installed == Some(PACKAGE_VERSION@) {
                    StepView::LoadSettings
                } else {
                    StepView::InstallPackage
                },
            ),
        ),
        (StepView::CheckPackage, AnswerView::InstalledVersion(Err(reason))) => Err(
            Failure::Install(reason),
        ),
        (StepView::InstallPackage, AnswerView::Installation(Ok(_))) => Ok(
            ProgressView::Next(StepView::LoadSettings),
        ),
        (StepView::InstallPackage, AnswerView::Installation(Err(reason))) => Err(
            Failure::Install(reason),
        ),
        (StepView::LoadSettings, AnswerView::Settings(loaded)) => match loaded_resolution(loaded) {
            Ok(resolved) => Ok(ProgressView::Next(StepView::LocateScript(resolved))),
            Err(failure) => Err(failure),
        },
        (StepView::LocateScript(resolved), AnswerView::WorkingDirectory(Ok(directory))) => Ok(
            ProgressView::Next(
                StepView::LocateRuntime(resolved, joined_path(directory, SERVER_PATH@)),
            ),
        ),
        (StepView::LocateScript(_), AnswerView::WorkingDirectory(Err(reason))) => Err(
            Failure::Io(reason),
        ),
        (
            StepView::LocateRuntime(resolved, script_path),
            AnswerView::RuntimePath(Ok(runtime_path)),
        ) => Ok(ProgressView::Done(launch_of(resolved, script_path, runtime_path))),
        (StepView::LocateRuntime(_, _), AnswerView::RuntimePath(Err(reason))) => Err(
            Failure::Install(reason),
        ),
        (step, _) => Ok(ProgressView::Next(step)),
    }
}

/// The step that every build starts at.
pub fn first_step() -> (r: LaunchStep)
    ensures
        r@ == StepView::CheckPackage,
{
    LaunchStep::CheckPackage
}

/// Takes the editor's answer at `step` and says how the build goes on: see
/// [`advanced`]. A descriptor that comes out carries a token that is not
/// blank.
pub fn advance(step: LaunchStep, answer: HostAnswer) -> (r: Result<Progress, ExtensionError>)
    ensures
        progress_view(r) == advanced(step@, answer@),
        r matches Ok(Progress::Done(descriptor)) ==> !blank(descriptor@.env[0].1),
{
    match (step, answer) {
        (LaunchStep::CheckPackage, HostAnswer::InstalledVersion(lookup)) => {
            match package_checked(lookup) {
                Ok(needed) => if needed {
                    Ok(Progress::Next(LaunchStep::InstallPackage))
                } else {
                    Ok(Progress::Next(LaunchStep::LoadSettings))
                },
                Err(e) => Err(e),
            }
        },
        (LaunchStep::InstallPackage, HostAnswer::Installation(outcome)) => {
            match package_installed(outcome) {
                Ok(_) => Ok(Progress::Next(LaunchStep::LoadSettings)),
                Err(e) => Err(e),
            }
        },
        (LaunchStep::LoadSettings, HostAnswer::Settings(loaded)) => {
            match settings_loaded(loaded) {
                Ok(resolved) => Ok(Progress::Next(LaunchStep::LocateScript(resolved))),
                Err(e) => Err(e),
            }
        },
        (LaunchStep::LocateScript(resolved), HostAnswer::WorkingDirectory(directory)) => {
            match script_located(directory) {
                Ok(script_path) => Ok(
                    Progress::Next(LaunchStep::LocateRuntime(resolved, script_path)),
                ),
                Err(e) => Err(e),
            }
        },
        (LaunchStep::LocateRuntime(resolved, script_path), HostAnswer::RuntimePath(runtime)) => {
            match runtime_located(&resolved, script_path, runtime) {
                Ok(descriptor) => Ok(Progress::Done(descriptor)),
                Err(e) => Err(e),
            }
        },
        (step, _) => Ok(Progress::Next(step)),
    }
}

/// The steps follow one another in a fixed order, and with answers that
/// report no failure and settings that resolve they end in the descriptor
/// for those settings, for the script in the working directory and for the
/// runtime.
pub proof fn lemma_steps_lead_to_the_descriptor(
    installed: Option<Seq<char>>,
    settings: Option<SettingsView>,
    directory: Seq<char>,
    runtime_path: Seq<char>,
)
    requires
        loaded_resolution(Ok(settings)) is Ok,
    ensures
        ({
            let resolved = loaded_resolution(Ok(settings))->Ok_0;
            let script_path = joined_path(directory, SERVER_PATH@);
            &&& installed == Some(PACKAGE_VERSION@) ==> advanced(
                StepView::CheckPackage,
                AnswerView::InstalledVersion(Ok(installed)),
            ) == Ok::<ProgressView, Failure>(ProgressView::Next(StepView::LoadSettings))
            &&& installed != Some(PACKAGE_VERSION@) ==> advanced(
                StepView::CheckPackage,
                AnswerView::InstalledVersion(Ok(installed)),
            ) == Ok::<ProgressView, Failure>(ProgressView::Next(StepView::InstallPackage))
            &&& advanced(StepView::InstallPackage, AnswerView::Installation(Ok(())))
                == Ok::<ProgressView, Failure>(ProgressView::Next(StepView::LoadSettings))
            &&& advanced(StepView::LoadSettings, AnswerView::Settings(Ok(settings)))
                == Ok::<ProgressView, Failure>(ProgressView::Next(StepView::LocateScript(resolved)))
            &&& advanced(
                StepView::LocateScript(resolved),
                AnswerView::WorkingDirectory(Ok(directory)),
            ) == Ok::<ProgressView, Failure>(
                ProgressView::Next(StepView::LocateRuntime(resolved, script_path)),
            )
            &&& advanced(
                StepView::LocateRuntime(resolved, script_path),
                AnswerView::RuntimePath(Ok(runtime_path)),
            ) == Ok::<ProgressView, Failure>(
                ProgressView::Done(launch_of(resolved, script_path, runtime_path)),
            )
        }),
{
}

/// An answer that reports a failure ends the build at every step, with the
/// reason as the failure's text: nothing is asked after it and no
/// descriptor comes out.
pub proof fn lemma_first_failure_ends_the_build(
    resolved: ResolvedView,
    script_path: Seq<char>,
    reason: Seq<char>,
)
    ensures
        advanced(StepView::CheckPackage, AnswerView::InstalledVersion(Err(reason))) == Err::<
            ProgressView,
            Failure,
        >(Failure::Install(reason)),
        advanced(StepView::InstallPackage, AnswerView::Installation(Err(reason))) == Err::<
            ProgressView,
            Failure,
        >(Failure::Install(reason)),
        advanced(StepView::LoadSettings, AnswerView::Settings(Err(reason))) == Err::<
            ProgressView,
            Failure,
        >(Failure::Validation(reason)),
        advanced(StepView::LocateScript(resolved), AnswerView::WorkingDirectory(Err(reason)))
            == Err::<ProgressView, Failure>(Failure::Io(reason)),
        advanced(
            StepView::LocateRuntime(resolved, script_path),
            AnswerView::RuntimePath(Err(reason)),
        ) == Err::<ProgressView, Failure>(Failure::Install(reason)),
{
}

/// Settings whose token is missing or blank are rejected, with the failure
/// that names the token: no descriptor comes of them.
pub proof fn lemma_blank_token_is_rejected(settings: SettingsView)
    requires
        settings.token matches Some(token) ==> blank(token),
    ensures
        resolved_of(settings) == Err::<ResolvedView, Failure>(
            Failure::Validation(TOKEN_REQUIRED@),
        ),
        advanced(StepView::LoadSettings, AnswerView::Settings(Ok(Some(settings)))) == Err::<
            ProgressView,
            Failure,
        >(Failure::Validation(TOKEN_REQUIRED@)),
{
}

/// With a token that is not blank and neither services nor endpoint, the
/// script is the only argument and the token the only environment entry.
pub proof fn lemma_token_alone(
    settings: SettingsView,
    token: Seq<char>,
    script_path: Seq<char>,
    runtime_path: Seq<char>,
)
    requires
        settings.token == Some(token),
        !blank(token),
        settings.services is None,
        settings.endpoint is None,
    ensures
        resolved_of(settings) matches Ok(resolved) && ({
            let launch = launch_of(resolved, script_path, runtime_path);
            &&& launch.args == seq![script_path]
            &&& launch.env == seq![(TOKEN_VARIABLE@, token)]
            &&& launch.args.len() == 1
            &&& launch.env.len() == 1
        }),
{
}

/// A services value that is not blank is handed on trimmed and otherwise
/// untouched, right after the flag that announces it.
pub proof fn lemma_services_are_trimmed(
    settings: SettingsView,
    services: Seq<char>,
    script_path: Seq<char>,
    runtime_path: Seq<char>,
)
    requires
        settings.token matches Some(token) && !blank(token),
        settings.services == Some(services),
        !blank(services),
    ensures
        resolved_of(settings) matches Ok(resolved) && launch_of(
            resolved,
            script_path,
            runtime_path,
        ).args == seq![script_path, SERVICES_FLAG@, trimmed(services)],
{
    lemma_blank_iff_trims_to_empty(services);
}

/// An endpoint that trims to nothing leaves the environment without an
/// endpoint entry: the token is all it holds.
pub proof fn lemma_blank_endpoint_is_dropped(
    settings: SettingsView,
    endpoint: Seq<char>,
    script_path: Seq<char>,
    runtime_path: Seq<char>,
)
    requires
        settings.token matches Some(token) && !blank(token),
        settings.endpoint == Some(endpoint),
        trimmed(endpoint).len() == 0,
    ensures
        resolved_of(settings) matches Ok(resolved) && launch_of(
            resolved,
            script_path,
            runtime_path,
        ).env == seq![(TOKEN_VARIABLE@, resolved.token)],
{
}

} // verus!
