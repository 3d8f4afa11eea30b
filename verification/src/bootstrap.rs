//! The decisions of the start-up routine: which paths are used, whether a
//! missing default file is installed, and what is reported when a step
//! fails. Directories, files and the operator are reached by the caller.

use crate::error::ConfigError;
use crate::text::{lowercased, to_lowercase, trim, trimmed};
use vstd::prelude::*;
use vstd::string::StringExecFns;

verus! {

/// The configuration type of the `config` crate. A loaded configuration is
/// carried through as it is.
#[verifier::external_type_specification]
#[verifier::external_body]
pub struct ExConfig(config::Config);

/// What start-up was asked to do. An empty path stands for "not given".
#[derive(Debug, Clone, PartialEq, Eq)]
pub struct ConfigBootstrap {
    /// The directory that holds the node's files.
    pub base_path: String,
    /// The configuration file.
    pub config: String,
    /// The configuration file of the logger.
    pub log_config: String,
    /// Install missing default files without asking.
    pub init: bool,
    /// Create and save a node identity if none exists.
    pub create_id: bool,
}

/// What to do about one of the two default files.
#[derive(Clone, Copy, Debug, PartialEq, Eq, Structural)]
pub enum InstallDecision {
    /// The file is there: leave it.
    Keep,
    /// The file is missing and is installed without a question.
    Install,
    /// The file is missing and the operator decides.
    AskOperator,
}

/// The two files that start-up installs when they are missing.
#[derive(Clone, Copy, Debug, PartialEq, Eq, Structural)]
pub enum DefaultFile {
    /// The configuration file of the node.
    Config,
    /// The configuration file of the logger.
    LogConfig,
}

/// The question put to the operator about a missing file.
pub open spec fn question_text(file: DefaultFile) -> Seq<char> {
    match file {
        DefaultFile::Config =>
            "Config file does not exist. We can create a default one for you now, or you can say 'no' here, and generate a customised one at https://config.tari.com.\nWould you like to try the default configuration (Y/n)?"@,
        DefaultFile::LogConfig =>
            "Logging configuration file does not exist. Would you like to create a new one (Y/n)?"@,
    }
}

/// What is announced before a file is installed at `path`.
pub open spec fn install_notice_text(file: DefaultFile, path: Seq<char>) -> Seq<char> {
    match file {
        DefaultFile::Config => "Installing new config file at "@ + path,
        DefaultFile::LogConfig => "Installing new logfile configuration at "@ + path,
    }
}

/// What is said when the logger could not be set up from within the base
/// path.
pub open spec fn entry_notice_text(working_dir: Seq<char>, base_path: Seq<char>) -> Seq<char> {
    "Logging initialized in "@ + working_dir + ", could not initialize in "@ + base_path + "."@
}

/// What is said when the working directory could not be restored.
pub open spec fn return_notice_text(working_dir: Seq<char>, now: Seq<char>) -> Seq<char> {
    "Working directory could not be changed back to "@ + working_dir
        + " after logging has been initialized. New working directory is "@ + now
}

/// Where `init_dirs` stands: what the caller is asked to do next.
#[derive(Debug, PartialEq, Eq)]
pub enum InitStep {
    /// Find the two directories that the base path can become, and report
    /// `InitEvent::BasePaths`.
    ResolveBasePath,
    /// Create the data directory at the base path, and report
    /// `InitEvent::DirectoryCreated`.
    CreateDataDirectory,
    /// Find the default paths of the two files below the base path, and
    /// report `InitEvent::FilePaths`.
    ResolveFilePaths,
    /// Look whether the file is there, and report `InitEvent::Present`.
    Probe(DefaultFile),
    /// Put the question about the file to the operator, and report
    /// `InitEvent::Answer`.
    Ask(DefaultFile),
    /// Announce the install of the file, install it, and report
    /// `InitEvent::Installed`.
    Install(DefaultFile),
    /// Nothing is left to do: start-up goes on, or ends with the error.
    Finished(Result<(), ConfigError>),
}

/// What the caller reports to `init_dirs`.
#[derive(Debug, PartialEq, Eq)]
pub enum InitEvent {
    /// The default data directory, and the absolute form of the base path
    /// that was given.
    BasePaths { default_dir: String, absolute: String },
    /// The data directory is there, or could not be created for the reason
    /// given.
    DirectoryCreated(Result<(), String>),
    /// The default paths of the two files below the base path.
    FilePaths { config: String, log_config: String },
    /// Whether the file that was looked for is there.
    Present(bool),
    /// The line that the operator typed.
    Answer(String),
    /// The installer has run: the file is there, or could not be installed
    /// for the reason given.
    Installed(Result<(), String>),
}

/// What follows once a default file is dealt with: the other file, or the
/// end.
pub open spec fn after_file(file: DefaultFile) -> InitStep {
    match file {
        DefaultFile::Config => InitStep::Probe(DefaultFile::LogConfig),
        DefaultFile::LogConfig => InitStep::Finished(Ok(())),
    }
}

/// One move of `init_dirs`: from `before`, at `step`, on `event`, to
/// `after` and the step `next`.
pub open spec fn init_dirs_moves(
    before: ConfigBootstrap,
    step: InitStep,
    event: InitEvent,
    after: ConfigBootstrap,
    next: InitStep,
) -> bool {
    match (step, event) {
        (InitStep::ResolveBasePath, InitEvent::BasePaths { default_dir, absolute }) => {
            &&& after == ConfigBootstrap {
                base_path: if before.base_path@.len() == 0 {
                    default_dir
                } else {
                    absolute
                },
                ..before
            }
            &&& next == InitStep::CreateDataDirectory
        },
        (InitStep::CreateDataDirectory, InitEvent::DirectoryCreated(Ok(_))) => {
            &&& after == before
            &&& next == InitStep::ResolveFilePaths
        },
        (InitStep::CreateDataDirectory, InitEvent::DirectoryCreated(Err(reason))) => {
            &&& after == before
            &&& next matches InitStep::Finished(Err(error))
            &&& error.cause@ == data_directory_cause()
            &&& error.source == Some(reason)
        },
        (InitStep::ResolveFilePaths, InitEvent::FilePaths { config, log_config }) => {
            &&& after == ConfigBootstrap {
                config: if before.config@.len() == 0 {
                    config
                } else {
                    before.config
                },
                log_config: if before.log_config@.len() == 0 {
                    log_config
                } else {
                    before.log_config
                },
                ..before
            }
            &&& next == InitStep::Probe(DefaultFile::Config)
        },
        (InitStep::Probe(file), InitEvent::Present(present)) => {
            &&& after == before
            &&& next == if present {
                after_file(file)
            } else if before.init {
                InitStep::Install(file)
            } else {
                InitStep::Ask(file)
            }
        },
        (InitStep::Ask(file), InitEvent::Answer(line)) => {
            &&& after == before
            &&& next == if affirmative(lowercased(trimmed(line@))) {
                InitStep::Install(file)
            } else {
                after_file(file)
            }
        },
        (InitStep::Install(file), InitEvent::Installed(Ok(_))) => {
            &&& after == before
            &&& next == after_file(file)
        },
        (InitStep::Install(file), InitEvent::Installed(Err(reason))) => {
            &&& after == before
            &&& next matches InitStep::Finished(Err(error))
            &&& error.cause@ == install_cause()
            &&& error.source == Some(reason)
        },
        _ => {
            &&& after == before
            &&& next == step
        },
    }
}

/// The cause reported when the data directory cannot be created.
pub open spec fn data_directory_cause() -> Seq<char> {
    "We couldn't create a default Tari data directory and have to quit now. This makes us sad :("@
}

/// The cause reported when a default file cannot be installed.
pub open spec fn install_cause() -> Seq<char> {
    "We could not install a new configuration file"@
}

/// The cause reported when the logger cannot be set up.
pub open spec fn logging_cause() -> Seq<char> {
    "failed to initalize logging"@
}

/// The cause reported when the configuration cannot be loaded.
pub open spec fn load_cause() -> Seq<char> {
    "failed to load configuration"@
}

/// An answer, once trimmed and in lower case, says yes if it is `y` or
/// nothing at all.
pub open spec fn affirmative(normalised: Seq<char>) -> bool {
    normalised.len() == 0 || normalised == seq!['y']
}

/// What is said when a default file could not be installed.
pub open spec fn install_complaint(path: Seq<char>, reason: Seq<char>) -> Seq<char> {
    "We could not install a new configuration file in "@ + path + ": "@ + reason
}

/// What is said about an attempt to install the file at `path`: nothing
/// when it went well, the complaint with the reason when it did not.
pub open spec fn reports(path: Seq<char>, outcome: Result<(), String>, said: Option<String>) -> bool {
    match outcome {
        Ok(_) => said is None,
        Err(reason) => said matches Some(text) && text@ == install_complaint(path, reason@),
    }
}

impl ConfigBootstrap {
    /// The bootstrap of a node that was given no arguments: the three
    /// default paths, and neither flag set.
    pub fn with_default_paths(base_path: String, config: String, log_config: String) -> (bootstrap:
        Self)
        ensures
            bootstrap.base_path == base_path,
            bootstrap.config == config,
            bootstrap.log_config == log_config,
            !bootstrap.init,
            !bootstrap.create_id,
    {
        ConfigBootstrap { base_path, config, log_config, init: false, create_id: false }
    }

    /// Settles the base path: the default directory if none was given, else
    /// the absolute form of the one that was.
    pub fn resolve_base_path(&mut self, default_dir: String, absolute: String)
        ensures
            final(self).base_path == if old(self).base_path@.len() == 0 {
                default_dir
            } else {
                absolute
            },
            final(self).config == old(self).config,
            final(self).log_config == old(self).log_config,
            final(self).init == old(self).init,
            final(self).create_id == old(self).create_id,
    {
        if self.base_path.as_str().is_empty() {
            self.base_path = default_dir;
        } else {
            self.base_path = absolute;
        }
    }

    /// Settles the paths of the two configuration files: each one that was
    /// not given becomes its default below the base path.
    pub fn resolve_file_paths(&mut self, default_config: String, default_log_config: String)
        ensures
            final(self).config == if old(self).config@.len() == 0 {
                default_config
            } else {
                old(self).config
            },
            final(self).log_config == if old(self).log_config@.len() == 0 {
                default_log_config
            } else {
                old(self).log_config
            },
            final(self).base_path == old(self).base_path,
            final(self).init == old(self).init,
            final(self).create_id == old(self).create_id,
    {
        if self.config.as_str().is_empty() {
            self.config = default_config;
        }
        if self.log_config.as_str().is_empty() {
            self.log_config = default_log_config;
        }
    }

    /// Initializes the node's directories and default files, one move at a
    /// time: the caller does what `step` asked for, reports it as `event`,
    /// and is told the next step.
    ///
    /// The base path is settled first and the data directory created at
    /// it; if that fails, start-up ends with the error. Then the paths of
    /// the two files are settled, and each file in turn is looked for: a
    /// missing one is installed, at once under `init` and else if the
    /// operator agrees. An install that fails ends start-up with the error
    /// as well. A report that was not asked for changes nothing.
    pub fn init_dirs(&mut self, step: InitStep, event: InitEvent) -> (next: InitStep)
        ensures
            init_dirs_moves(*old(self), step, event, *final(self), next),
    {
        match step {
            InitStep::ResolveBasePath => match event {
                InitEvent::BasePaths { default_dir, absolute } => {
                    self.resolve_base_path(default_dir, absolute);
                    InitStep::CreateDataDirectory
                },
                _ => InitStep::ResolveBasePath,
            },
            InitStep::CreateDataDirectory => match event {
                InitEvent::DirectoryCreated(Ok(_)) => InitStep::ResolveFilePaths,
                InitEvent::DirectoryCreated(Err(reason)) => InitStep::Finished(
                    Err(data_directory_error(reason)),
                ),
                _ => InitStep::CreateDataDirectory,
            },
            InitStep::ResolveFilePaths => match event {
                InitEvent::FilePaths { config, log_config } => {
                    self.resolve_file_paths(config, log_config);
                    InitStep::Probe(DefaultFile::Config)
                },
                _ => InitStep::ResolveFilePaths,
            },
            InitStep::Probe(file) => match event {
                InitEvent::Present(present) => match self.install_decision(present) {
                    InstallDecision::Keep => next_file(file),
                    InstallDecision::Install => InitStep::Install(file),
                    InstallDecision::AskOperator => InitStep::Ask(file),
                },
                _ => InitStep::Probe(file),
            },
            InitStep::Ask(file) => match event {
                InitEvent::Answer(line) => {
                    if prompt_answer(line.as_str()) {
                        InitStep::Install(file)
                    } else {
                        next_file(file)
                    }
                },
                _ => InitStep::Ask(file),
            },
            InitStep::Install(file) => match event {
                InitEvent::Installed(Ok(_)) => next_file(file),
                InitEvent::Installed(Err(reason)) => InitStep::Finished(Err(install_error(reason))),
                _ => InitStep::Install(file),
            },
            InitStep::Finished(result) => InitStep::Finished(result),
        }
    }

    /// What to do about a default file, given whether it is present: a file
    /// that is there is kept, a missing one is installed at once under
    /// `init`, and otherwise the operator is asked.
    pub fn install_decision(&self, present: bool) -> (decision: InstallDecision)
        ensures
            decision == if present {
                InstallDecision::Keep
            } else if self.init {
                InstallDecision::Install
            } else {
                InstallDecision::AskOperator
            },
    {
        if present {
            InstallDecision::Keep
        } else if self.init {
            InstallDecision::Install
        } else {
            InstallDecision::AskOperator
        }
    }

    /// The path at which a default file is looked for and installed.
    pub fn path_of(&self, file: DefaultFile) -> (path: &str)
        ensures
            path@ == match file {
                DefaultFile::Config => self.config@,
                DefaultFile::LogConfig => self.log_config@,
            },
    {
        match file {
            DefaultFile::Config => self.config.as_str(),
            DefaultFile::LogConfig => self.log_config.as_str(),
        }
    }

    /// Whether the logger is set up after a change of directory: it is
    /// set up from within the base path, so a change is due when the
    /// working directory is another one.
    pub fn enters_base_path(&self, working_dir: &str) -> (change: bool)
        ensures
            change == (working_dir@ != self.base_path@),
    {
        !same_text(working_dir, self.base_path.as_str())
    }

    /// What is said when the base path could not be entered.
    pub fn entry_notice(&self, working_dir: &str) -> (notice: String)
        ensures
            notice@ == entry_notice_text(working_dir@, self.base_path@),
    {
        let notice = String::from_str("Logging initialized in ");
        let notice = notice.concat(working_dir);
        let notice = notice.concat(", could not initialize in ");
        let notice = notice.concat(self.base_path.as_str());
        notice.concat(".")
    }

    /// The result of setting up the logger, given whether it could be set
    /// up.
    pub fn initialize_logging(&self, initialized: bool) -> (result: Result<(), ConfigError>)
        ensures
            initialized ==> result is Ok,
            !initialized ==> (result matches Err(error) && error.cause@ == logging_cause()
                && error.source is None),
    {
        if initialized {
            Ok(())
        } else {
            Err(ConfigError::new("failed to initalize logging", None))
        }
    }

    /// The result of loading the configuration, given what the loader
    /// returned: the configuration itself, or the loader's complaint as the
    /// source of the error.
    pub fn load_configuration(&self, loaded: Result<config::Config, String>) -> (result: Result<
        config::Config,
        ConfigError,
    >)
        ensures
            match loaded {
                Ok(configuration) => result == Ok::<config::Config, ConfigError>(configuration),
                Err(complaint) => result matches Err(error) && error.cause@ == load_cause()
                    && error.source == Some(complaint),
            },
    {
        match loaded {
            Ok(configuration) => Ok(configuration),
            Err(complaint) => Err(ConfigError::new("failed to load configuration", Some(complaint))),
        }
    }
}

/// The step that follows once a default file is dealt with.
fn next_file(file: DefaultFile) -> (next: InitStep)
    ensures
        next == after_file(file),
{
    match file {
        DefaultFile::Config => InitStep::Probe(DefaultFile::LogConfig),
        DefaultFile::LogConfig => InitStep::Finished(Ok(())),
    }
}

/// The error of a data directory that could not be created, with the
/// reason that the file system gave.
pub fn data_directory_error(reason: String) -> (error: ConfigError)
    ensures
        error.cause@ == data_directory_cause(),
        error.source == Some(reason),
{
    ConfigError::new(
        "We couldn't create a default Tari data directory and have to quit now. This makes us sad :(",
        Some(reason),
    )
}

/// The error of a default file that could not be installed, with the
/// reason that the installer gave.
pub fn install_error(reason: String) -> (error: ConfigError)
    ensures
        error.cause@ == install_cause(),
        error.source == Some(reason),
{
    ConfigError::new("We could not install a new configuration file", Some(reason))
}

/// Whether two texts are the same.
fn same_text(left: &str, right: &str) -> (same: bool)
    ensures
        same == (left@ == right@),
{
    String::from_str(left) == String::from_str(right)
}

/// Whether the working directory is to be restored once the logger is set
/// up: it is when the directory is no longer the one that start-up began
/// in.
pub fn leaves_directory(working_dir: &str, now: &str) -> (change: bool)
    ensures
        change == (working_dir@ != now@),
{
    !same_text(working_dir, now)
}

/// What is said when the working directory could not be restored.
pub fn return_notice(working_dir: &str, now: &str) -> (notice: String)
    ensures
        notice@ == return_notice_text(working_dir@, now@),
{
    let notice = String::from_str("Working directory could not be changed back to ");
    let notice = notice.concat(working_dir);
    let notice = notice.concat(" after logging has been initialized. New working directory is ");
    notice.concat(now)
}

/// The question put to the operator about a missing file.
pub fn question(file: DefaultFile) -> (text: String)
    ensures
        text@ == question_text(file),
{
    match file {
        DefaultFile::Config => String::from_str(
            "Config file does not exist. We can create a default one for you now, or you can say 'no' here, and generate a customised one at https://config.tari.com.\nWould you like to try the default configuration (Y/n)?",
        ),
        DefaultFile::LogConfig => String::from_str(
            "Logging configuration file does not exist. Would you like to create a new one (Y/n)?",
        ),
    }
}

/// What is announced before a file is installed at `path`.
pub fn install_notice(file: DefaultFile, path: &str) -> (notice: String)
    ensures
        notice@ == install_notice_text(file, path@),
{
    let notice = match file {
        DefaultFile::Config => String::from_str("Installing new config file at "),
        DefaultFile::LogConfig => String::from_str("Installing new logfile configuration at "),
    };
    notice.concat(path)
}

/// Whether a normalised answer says yes.
pub fn is_affirmative(normalised: &str) -> (yes: bool)
    ensures
        yes == affirmative(normalised@),
{
    proof {
        reveal_strlit("y");
        assert("y"@ =~= seq!['y']);
    }
    normalised.is_empty() || same_text(normalised, "y")
}

/// Reads the operator's answer to a yes-or-no question: the line is
/// trimmed and put in lower case, and says yes if `y` or nothing is left.
pub fn prompt_answer(line: &str) -> (yes: bool)
    ensures
        yes == affirmative(lowercased(trimmed(line@))),
{
    let normalised = to_lowercase(trim(line));
    is_affirmative(normalised.as_str())
}

/// What is said, if anything, after an attempt to install a default file:
/// nothing when it went well, the complaint when it did not.
pub fn install_report(path: &str, outcome: &Result<(), String>) -> (said: Option<String>)
    ensures
        reports(path@, *outcome, said),
{
    match outcome {
        Ok(_) => None,
        Err(reason) => {
            let text = String::from_str("We could not install a new configuration file in ");
            let text = text.concat(path);
            let text = text.concat(": ");
            let text = text.concat(reason.as_str());
            Some(text)
        },
    }
}

/// Installs a default file with the given installer: the installer is
/// called once, with the path. What it returned is handed back, to be
/// reported to `init_dirs`, together with what is to be said about it.
pub fn install_configuration<F>(path: &str, installer: F) -> (done: (
    Result<(), String>,
    Option<String>,
)) where F: Fn(&str) -> Result<(), String>
    requires
        installer.requires((path,)),
    ensures
        installer.ensures((path,), done.0),
        reports(path@, done.0, done.1),
{
    let outcome = installer(path);
    let said = install_report(path, &outcome);
    (outcome, said)
}

/// Nothing is installed without consent: `init_dirs` asks for the install
/// of a file only when the file was reported missing under `init`, or when
/// the operator, asked about it, said yes.
pub proof fn lemma_install_needs_consent(
    before: ConfigBootstrap,
    step: InitStep,
    event: InitEvent,
    after: ConfigBootstrap,
    next: InitStep,
    file: DefaultFile,
)
    requires
        init_dirs_moves(before, step, event, after, next),
        next == InitStep::Install(file),
        step != InitStep::Install(file),
    ensures
        (step == InitStep::Probe(file) && event == InitEvent::Present(false) && before.init) || (
        step == InitStep::Ask(file) && (event matches InitEvent::Answer(line) && affirmative(
            lowercased(trimmed(line@)),
        ))),
{
}

/// The operator is asked about a file only when it was reported missing
/// and `init` is not set.
pub proof fn lemma_question_needs_missing_file(
    before: ConfigBootstrap,
    step: InitStep,
    event: InitEvent,
    after: ConfigBootstrap,
    next: InitStep,
    file: DefaultFile,
)
    requires
        init_dirs_moves(before, step, event, after, next),
        next == InitStep::Ask(file),
        step != InitStep::Ask(file),
    ensures
        step == InitStep::Probe(file),
        event == InitEvent::Present(false),
        !before.init,
{
}

/// `init_dirs` fails for two reasons only: a data directory that could
/// not be created, and a default file that could not be installed. The
/// error names which, and carries the reason that was reported. No move
/// touches the two flags.
pub proof fn lemma_init_fails_on_directory_or_install(
    before: ConfigBootstrap,
    step: InitStep,
    event: InitEvent,
    after: ConfigBootstrap,
    next: InitStep,
)
    requires
        init_dirs_moves(before, step, event, after, next),
    ensures
        after.init == before.init,
        after.create_id == before.create_id,
        next matches InitStep::Finished(Err(error)) ==> {
            ||| step is Finished
            ||| (step == InitStep::CreateDataDirectory && error.cause@ == data_directory_cause()
                && (event matches InitEvent::DirectoryCreated(Err(reason)) && error.source == Some(
                reason,
            )))
            ||| (step is Install && error.cause@ == install_cause() && (event
                matches InitEvent::Installed(Err(reason)) && error.source == Some(reason)))
        },
{
}

/// A failure that is reported is fatal: whatever the bootstrap, a data
/// directory that could not be created and a file that could not be
/// installed both end `init_dirs` with an error, and no later report
/// revives it.
pub proof fn lemma_reported_failure_is_fatal(
    before: ConfigBootstrap,
    step: InitStep,
    event: InitEvent,
    after: ConfigBootstrap,
    next: InitStep,
)
    requires
        init_dirs_moves(before, step, event, after, next),
    ensures
        step == InitStep::CreateDataDirectory && (event matches InitEvent::DirectoryCreated(Err(_)))
            ==> (next matches InitStep::Finished(Err(_))),
        step is Install && (event matches InitEvent::Installed(Err(_))) ==> (next
            matches InitStep::Finished(Err(_))),
        step is Finished ==> next == step,
{
}

} // verus!
