//! Load, save and reset of the settings file, as a session that tells the
//! host which file-system step to take next and decides from each outcome.
use vstd::prelude::*;
use crate::error::CommandError;
use crate::json::{
    default_doc, empty_document, json_accepts, json_error_text, parse_document, parsed_doc,
    pretty_text, render_document,
};

verus! {

/// Name of the settings file inside the application's config directory.
pub const SETTINGS_FILE_NAME: &'static str = "settings.json";

/// What a session was started for.
#[derive(Debug, Clone, PartialEq)]
pub enum ConfigJob {
    /// Overwrite the settings file with `doc`.
    Save { doc: serde_json::Value },
    /// Read the settings file, or hand back `default` when there is none.
    Load { default: serde_json::Value },
    /// Overwrite the settings file with `default` and hand it back.
    Reset { default: serde_json::Value },
}

/// Where a session stands: the step whose outcome it waits for.
#[derive(Debug, Clone, Copy, PartialEq, Eq)]
pub enum Phase {
    /// Waiting for the config directory's lookup.
    ResolvingDir,
    /// Waiting to hear whether the config directory exists.
    CheckingDir,
    /// Waiting for the config directory to be created.
    CreatingDir,
    /// Waiting for the job's document to be rendered as text.
    Rendering,
    /// Waiting for the text to be written to the settings file.
    WritingFile,
    /// Waiting to hear whether the settings file exists.
    CheckingFile,
    /// Waiting for the settings file's text.
    ReadingFile,
    /// Waiting for the stored text to be parsed.
    Parsing,
    /// The command is over.
    Done,
}

/// What a finished command hands back on success.
#[derive(Debug, Clone, PartialEq)]
pub enum ConfigReply {
    Saved,
    Document(serde_json::Value),
}

/// The next thing the host is asked to do.
#[derive(Debug, PartialEq)]
pub enum ConfigAction {
    /// Resolve the application's config directory.
    ResolveConfigDir,
    /// Report whether the config directory exists.
    CheckDirExists,
    /// Create the config directory and its missing parents.
    CreateDir,
    /// Report whether the settings file exists.
    CheckFileExists,
    /// Read the settings file as text.
    ReadFile,
    /// Write this text to the settings file, replacing what it held.
    WriteFile(String),
    /// The command is over, with this result.
    Finish(Result<ConfigReply, CommandError>),
}

/// One run of a settings command.
#[derive(Debug, Clone, PartialEq)]
pub struct ConfigSession {
    pub job: ConfigJob,
    pub phase: Phase,
}

/// The session that stops with `result`.
pub open spec fn finished(job: ConfigJob, result: Result<ConfigReply, CommandError>) -> (ConfigSession, ConfigAction) {
    (ConfigSession { job, phase: Phase::Done }, ConfigAction::Finish(result))
}

/// The session that moves to `phase` and asks for `action`.
pub open spec fn moved(job: ConfigJob, phase: Phase, action: ConfigAction) -> (ConfigSession, ConfigAction) {
    (ConfigSession { job, phase }, action)
}

/// Starts saving `config` to the settings file.
pub fn save_app_config(config: serde_json::Value) -> (r: (ConfigSession, ConfigAction))
    ensures
        r == moved(ConfigJob::Save { doc: config }, Phase::ResolvingDir, ConfigAction::ResolveConfigDir),
{
    (ConfigSession { job: ConfigJob::Save { doc: config }, phase: Phase::ResolvingDir }, ConfigAction::ResolveConfigDir)
}

/// Starts loading the settings file; an absent file gives the empty object.
pub fn load_app_config() -> (r: (ConfigSession, ConfigAction))
    ensures
        r.0.job is Load,
        r.0.holds_default(),
        r == moved(r.0.job, Phase::ResolvingDir, ConfigAction::ResolveConfigDir),
{
    let default = empty_document();
    (ConfigSession { job: ConfigJob::Load { default }, phase: Phase::ResolvingDir }, ConfigAction::ResolveConfigDir)
}

/// Starts replacing the settings file with the empty object.
pub fn reset_app_config() -> (r: (ConfigSession, ConfigAction))
    ensures
        r.0.job is Reset,
        r.0.holds_default(),
        r == moved(r.0.job, Phase::ResolvingDir, ConfigAction::ResolveConfigDir),
{
    let default = empty_document();
    (ConfigSession { job: ConfigJob::Reset { default }, phase: Phase::ResolvingDir }, ConfigAction::ResolveConfigDir)
}

impl ConfigSession {
    /// The document of the job: the one that a save or reset writes, or the
    /// one that a load falls back to.
    pub open spec fn document(self) -> serde_json::Value {
        match self.job {
            ConfigJob::Save { doc } => doc,
            ConfigJob::Load { default } => default,
            ConfigJob::Reset { default } => default,
        }
    }

    /// The job's document is the default, the empty object, whose pretty
    /// text is `{}` and which the parser accepts back.
    pub open spec fn holds_default(self) -> bool {
        &&& self.document() == default_doc()
        &&& pretty_text(self.document()) == "{}"@
        &&& json_accepts(pretty_text(self.document()))
    }

    /// What follows once the config directory is there. A load looks for
    /// the file. The other commands render their document and ask for its
    /// pretty text to be written.
    pub open spec fn dir_ready(self, next: (ConfigSession, ConfigAction)) -> bool {
        if self.job is Load {
            next == moved(self.job, Phase::CheckingFile, ConfigAction::CheckFileExists)
        } else {
            &&& next.0 == (ConfigSession { job: self.job, phase: Phase::WritingFile })
            &&& next.1 matches ConfigAction::WriteFile(t) && t@ == pretty_text(self.document())
        }
    }

    /// What follows once the stored `text` was read: the command stops, with
    /// the parsed document when the parser accepts the text and with a
    /// deserialization error otherwise.
    pub open spec fn read_done(self, text: Seq<char>, next: (ConfigSession, ConfigAction)) -> bool {
        &&& next.0 == (ConfigSession { job: self.job, phase: Phase::Done })
        &&& if json_accepts(text) {
            next.1 == ConfigAction::Finish(Ok(ConfigReply::Document(parsed_doc(text))))
        } else {
            next.1 matches ConfigAction::Finish(Err(CommandError::Deserialization(_)))
        }
    }

    /// The step after the config directory was looked up.
    pub open spec fn after_config_dir(self, resolved: Result<(), String>) -> (ConfigSession, ConfigAction) {
        match resolved {
            Ok(()) => moved(self.job, Phase::CheckingDir, ConfigAction::CheckDirExists),
            Err(m) => finished(self.job, Err(CommandError::PathResolution(m))),
        }
    }

    /// What may follow the host's report on whether the config directory
    /// exists.
    pub open spec fn after_dir_exists(self, exists: bool, next: (ConfigSession, ConfigAction)) -> bool {
        if exists {
            self.dir_ready(next)
        } else {
            next == moved(self.job, Phase::CreatingDir, ConfigAction::CreateDir)
        }
    }

    /// What may follow the host's attempt to create the config directory.
    pub open spec fn after_dir_created(self, created: Result<(), String>, next: (ConfigSession, ConfigAction)) -> bool {
        match created {
            Ok(()) => self.dir_ready(next),
            Err(m) => next == finished(self.job, Err(CommandError::Filesystem(m))),
        }
    }

    /// The step after the document was rendered, or failed to render with
    /// the given message.
    pub open spec fn after_rendered(self, rendered: Result<String, String>) -> (ConfigSession, ConfigAction) {
        match rendered {
            Ok(text) => moved(self.job, Phase::WritingFile, ConfigAction::WriteFile(text)),
            Err(m) => finished(self.job, Err(CommandError::Serialization(m))),
        }
    }

    /// The step after the host tried to write the settings file.
    pub open spec fn after_file_written(self, written: Result<(), String>) -> (ConfigSession, ConfigAction) {
        match written {
            Ok(()) => match self.job {
                ConfigJob::Reset { default } => finished(self.job, Ok(ConfigReply::Document(default))),
                _ => finished(self.job, Ok(ConfigReply::Saved)),
            },
            Err(m) => finished(self.job, Err(CommandError::Filesystem(m))),
        }
    }

    /// The step after the host reported whether the settings file exists.
    pub open spec fn after_file_exists(self, exists: bool) -> (ConfigSession, ConfigAction) {
        if exists {
            moved(self.job, Phase::ReadingFile, ConfigAction::ReadFile)
        } else {
            finished(self.job, Ok(ConfigReply::Document(self.document())))
        }
    }

    /// The step after the stored text was parsed, or failed to parse with
    /// the given message.
    pub open spec fn after_parsed(self, parsed: Result<serde_json::Value, String>) -> (ConfigSession, ConfigAction) {
        match parsed {
            Ok(doc) => finished(self.job, Ok(ConfigReply::Document(doc))),
            Err(m) => finished(self.job, Err(CommandError::Deserialization(m))),
        }
    }

    /// Takes the outcome of resolving the config directory.
    pub fn on_config_dir(&mut self, resolved: Result<(), String>) -> (r: ConfigAction)
        requires
            old(self).phase == Phase::ResolvingDir,
        ensures
            (*final(self), r) == old(self).after_config_dir(resolved),
    {
        match resolved {
            Ok(()) => {
                self.phase = Phase::CheckingDir;
                ConfigAction::CheckDirExists
            },
            Err(m) => {
                self.phase = Phase::Done;
                ConfigAction::Finish(Err(CommandError::PathResolution(m)))
            },
        }
    }

    /// Takes the host's report on whether the config directory exists.
    pub fn on_dir_exists(&mut self, exists: bool) -> (r: ConfigAction)
        requires
            old(self).phase == Phase::CheckingDir,
        ensures
            old(self).after_dir_exists(exists, (*final(self), r)),
    {
        if exists {
            self.ready()
        } else {
            self.phase = Phase::CreatingDir;
            ConfigAction::CreateDir
        }
    }

    /// Takes the outcome of creating the config directory.
    pub fn on_dir_created(&mut self, created: Result<(), String>) -> (r: ConfigAction)
        requires
            old(self).phase == Phase::CreatingDir,
        ensures
            old(self).after_dir_created(created, (*final(self), r)),
    {
        match created {
            Ok(()) => self.ready(),
            Err(m) => {
                self.phase = Phase::Done;
                ConfigAction::Finish(Err(CommandError::Filesystem(m)))
            },
        }
    }

    /// The config directory is there: a load asks about the file, the other
    /// jobs render their document.
    fn ready(&mut self) -> (r: ConfigAction)
        ensures
            old(self).dir_ready((*final(self), r)),
    {
        if let ConfigJob::Load { .. } = &self.job {
            self.phase = Phase::CheckingFile;
            return ConfigAction::CheckFileExists;
        }
        let outcome = match &self.job {
            ConfigJob::Save { doc } => render_document(doc),
            ConfigJob::Load { default } => render_document(default),
            ConfigJob::Reset { default } => render_document(default),
        };
        let rendered = match outcome {
            Ok(text) => Ok(text),
            Err(e) => Err(json_error_text(&e)),
        };
        self.phase = Phase::Rendering;
        self.on_rendered(rendered)
    }

    /// Takes the rendered text of the job's document, or the message of a
    /// failed render.
    pub fn on_rendered(&mut self, rendered: Result<String, String>) -> (r: ConfigAction)
        requires
            old(self).phase == Phase::Rendering,
        ensures
            (*final(self), r) == old(self).after_rendered(rendered),
    {
        match rendered {
            Ok(text) => {
                self.phase = Phase::WritingFile;
                ConfigAction::WriteFile(text)
            },
            Err(m) => {
                self.phase = Phase::Done;
                ConfigAction::Finish(Err(CommandError::Serialization(m)))
            },
        }
    }

    /// Takes the outcome of writing the settings file.
    pub fn on_file_written(&mut self, written: Result<(), String>) -> (r: ConfigAction)
        requires
            old(self).phase == Phase::WritingFile,
        ensures
            (*final(self), r) == old(self).after_file_written(written),
    {
        self.phase = Phase::Done;
        match written {
            Ok(()) => match &self.job {
                ConfigJob::Reset { default } => ConfigAction::Finish(Ok(ConfigReply::Document(default.clone()))),
                _ => ConfigAction::Finish(Ok(ConfigReply::Saved)),
            },
            Err(m) => ConfigAction::Finish(Err(CommandError::Filesystem(m))),
        }
    }

    /// Takes the host's report on whether the settings file exists.
    pub fn on_file_exists(&mut self, exists: bool) -> (r: ConfigAction)
        requires
            old(self).phase == Phase::CheckingFile,
        ensures
            (*final(self), r) == old(self).after_file_exists(exists),
    {
        if exists {
            self.phase = Phase::ReadingFile;
            ConfigAction::ReadFile
        } else {
            self.phase = Phase::Done;
            let doc = match &self.job {
                ConfigJob::Save { doc } => doc.clone(),
                ConfigJob::Load { default } => default.clone(),
                ConfigJob::Reset { default } => default.clone(),
            };
            ConfigAction::Finish(Ok(ConfigReply::Document(doc)))
        }
    }

    /// Takes the outcome of reading the settings file. Text that the parser
    /// refuses ends the command with a deserialization error; there is no
    /// fallback to the default.
    pub fn on_file_read(&mut self, read: Result<String, String>) -> (r: ConfigAction)
        requires
            old(self).phase == Phase::ReadingFile,
        ensures
            match read {
                Ok(text) => old(self).read_done(text@, (*final(self), r)),
                Err(m) => (*final(self), r) == finished(old(self).job, Err(CommandError::Filesystem(m))),
            },
    {
        match read {
            Ok(text) => {
                let parsed = match parse_document(text.as_str()) {
                    Ok(doc) => Ok(doc),
                    Err(e) => Err(json_error_text(&e)),
                };
                self.phase = Phase::Parsing;
                self.on_parsed(parsed)
            },
            Err(m) => {
                self.phase = Phase::Done;
                ConfigAction::Finish(Err(CommandError::Filesystem(m)))
            },
        }
    }

    /// Takes the parsed document, or the message of a failed parse.
    pub fn on_parsed(&mut self, parsed: Result<serde_json::Value, String>) -> (r: ConfigAction)
        requires
            old(self).phase == Phase::Parsing,
        ensures
            (*final(self), r) == old(self).after_parsed(parsed),
    {
        self.phase = Phase::Done;
        match parsed {
            Ok(doc) => ConfigAction::Finish(Ok(ConfigReply::Document(doc))),
            Err(m) => ConfigAction::Finish(Err(CommandError::Deserialization(m))),
        }
    }
}

/// Load after save: a save hands the host the pretty text of its document,
/// and succeeds once that is written; a load that reads that text back
/// finishes with what the parser builds from it, whenever the parser accepts
/// it.
pub proof fn lemma_load_reads_saved_text(
    save: ConfigSession,
    written: (ConfigSession, ConfigAction),
    load: ConfigSession,
    next: (ConfigSession, ConfigAction),
)
    requires
        save.job is Save,
        save.dir_ready(written),
        load.job is Load,
        written.1 is WriteFile,
        load.read_done(written.1->WriteFile_0@, next),
    ensures
        written.1 matches ConfigAction::WriteFile(t) && t@ == pretty_text(save.document()),
        written.0.after_file_written(Ok(())) == finished(save.job, Ok(ConfigReply::Saved)),
        json_accepts(pretty_text(save.document())) ==> next == finished(
            load.job,
            Ok(ConfigReply::Document(parsed_doc(pretty_text(save.document())))),
        ),
{
}

/// Reset: any two resets hand back the same document, the empty object.
/// A reset writes `{}`, returns its default once the write succeeded, and a
/// load that then reads the file finishes with that same default.
pub proof fn lemma_reset_returns_written_default(
    first: ConfigSession,
    second: ConfigSession,
    written: (ConfigSession, ConfigAction),
    load: ConfigSession,
    next: (ConfigSession, ConfigAction),
)
    requires
        first.job is Reset,
        second.job is Reset,
        first.holds_default(),
        second.holds_default(),
        first.dir_ready(written),
        load.job is Load,
        written.1 is WriteFile,
        load.read_done(written.1->WriteFile_0@, next),
    ensures
        first.document() == second.document(),
        first.document() == default_doc(),
        written.1 matches ConfigAction::WriteFile(t) && t@ == "{}"@,
        written.0.after_file_written(Ok(()))
            == finished(first.job, Ok(ConfigReply::Document(first.document()))),
        next == finished(load.job, Ok(ConfigReply::Document(first.document()))),
{
}

/// Missing file: once the config directory has been resolved and is there,
/// whether it existed or was just created, a load asks whether the settings
/// file exists; hearing that it does not, it finishes with the default
/// document, the empty object, and no error, and asks for no read.
pub proof fn lemma_missing_file_gives_default(
    s: ConfigSession,
    dir_existed: bool,
    creating: (ConfigSession, ConfigAction),
    next: (ConfigSession, ConfigAction),
)
    requires
        s.job is Load,
        s.holds_default(),
        s.phase == Phase::ResolvingDir,
        dir_existed ==> s.after_config_dir(Ok(())).0.after_dir_exists(true, next),
        !dir_existed ==> s.after_config_dir(Ok(())).0.after_dir_exists(false, creating),
        !dir_existed ==> creating.0.after_dir_created(Ok(()), next),
    ensures
        next == moved(s.job, Phase::CheckingFile, ConfigAction::CheckFileExists),
        next.0.after_file_exists(false) == finished(s.job, Ok(ConfigReply::Document(default_doc()))),
{
}

} // verus!
