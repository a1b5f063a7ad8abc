use vstd::prelude::*;

use crate::codec::{decode, decoded, encode, members_of, pretty_json_of};
use crate::state::{default_state, SimpleWindowState};

verus! {

/// Name of the file, inside the configuration directory, that holds the record.
pub const STATE_FILE_NAME: &'static str = "window_state.json";

/// What the attempt to read the stored record came to.
#[derive(Debug, PartialEq, Eq)]
pub enum StoredText {
    /// The configuration directory could not be resolved.
    NoConfigDir,
    /// The file could not be read (missing, not permitted, any I/O error).
    Unreadable,
    /// The file was read; its whole text.
    Read(String),
}

/// Why saving a record failed, with a readable cause.
#[derive(Debug, PartialEq, Eq)]
pub enum SaveError {
    /// The configuration directory could not be resolved.
    ConfigDirUnavailable(String),
    /// The configuration directory could not be created.
    DirectoryCreateFailed(String),
    /// The record could not be turned into text; never the case for this
    /// record of four integers.
    SerializationFailed(String),
    /// The text could not be written to the file.
    FileWriteFailed(String),
}

/// The record that loading yields: the stored one where the file was read and
/// describes a record, the default one on every other path.
pub open spec fn loaded_state(stored: StoredText) -> SimpleWindowState {
    match stored {
        StoredText::Read(t) => match decoded(t@) {
            Some(s) => s,
            None => default_state(),
        },
        _ => default_state(),
    }
}

impl SimpleWindowState {
    /// Turns the outcome of reading the stored file into a record. Never
    /// fails: every problem on the way yields the default record.
    pub fn load(stored: &StoredText) -> (r: SimpleWindowState)
        ensures
            r == loaded_state(*stored),
            !(stored is Read) ==> r == default_state(),
            stored matches StoredText::Read(t) ==> match decoded(t@) {
                Some(s) => r == s,
                None => r == default_state(),
            },
    {
        match stored {
            StoredText::Read(t) => match decode(t.as_str()) {
                Some(s) => s,
                None => SimpleWindowState::default(),
            },
            _ => SimpleWindowState::default(),
        }
    }
}

/// Where a save stands: each stage waits for the outcome of one outside step.
#[derive(Clone, Copy, Debug, PartialEq, Eq, Structural)]
pub enum SaveStage {
    /// Waiting for the configuration directory to be resolved.
    ResolvingDir,
    /// Waiting for the configuration directory to be created.
    CreatingDir,
    /// Waiting for the text to be written to the file.
    Writing,
    /// Nothing more to do.
    Finished,
}

/// What to do next while saving.
#[derive(Debug, PartialEq, Eq)]
pub enum SaveAction {
    /// Create the configuration directory and its missing parents.
    CreateDir,
    /// Replace the whole content of the file with this text.
    Write(String),
    /// The save is over, with this result.
    Done(Result<(), SaveError>),
}

/// One save of one record, driven step by step: resolve the configuration
/// directory, create it, turn the record into text, write the file. The first
/// failing step ends the save with its own error.
pub struct SaveRun {
    pub state: SimpleWindowState,
    pub stage: SaveStage,
}

impl SaveRun {
    /// Starts saving `state`; the first step is to resolve the configuration
    /// directory.
    pub fn new(state: SimpleWindowState) -> (r: SaveRun)
        ensures
            r.state == state,
            r.stage == SaveStage::ResolvingDir,
    {
        SaveRun { state, stage: SaveStage::ResolvingDir }
    }

    /// True once the save is over.
    pub fn is_finished(&self) -> (r: bool)
        ensures
            r == (self.stage == SaveStage::Finished),
    {
        self.stage == SaveStage::Finished
    }

    /// Takes the outcome of the step the run waits for (`Err` with its cause
    /// where it failed) and says what to do next.
    pub fn step(&mut self, outcome: Result<(), String>) -> (a: SaveAction)
        requires
            old(self).stage != SaveStage::Finished,
        ensures
            final(self).state == old(self).state,
            match (old(self).stage, outcome) {
                (SaveStage::ResolvingDir, Ok(())) => a == SaveAction::CreateDir
                    && final(self).stage == SaveStage::CreatingDir,
                (SaveStage::ResolvingDir, Err(c)) => a == SaveAction::Done(
                    Err(SaveError::ConfigDirUnavailable(c)),
                ) && final(self).stage == SaveStage::Finished,
                (SaveStage::CreatingDir, Ok(())) => a matches SaveAction::Write(t) && t@
                    == pretty_json_of(members_of(old(self).state)) && final(self).stage
                    == SaveStage::Writing,
                (SaveStage::CreatingDir, Err(c)) => a == SaveAction::Done(
                    Err(SaveError::DirectoryCreateFailed(c)),
                ) && final(self).stage == SaveStage::Finished,
                (SaveStage::Writing, Ok(())) => a == SaveAction::Done(Ok(()))
                    && final(self).stage == SaveStage::Finished,
                (SaveStage::Writing, Err(c)) => a == SaveAction::Done(
                    Err(SaveError::FileWriteFailed(c)),
                ) && final(self).stage == SaveStage::Finished,
                (SaveStage::Finished, _) => false,
            },
    {
        match self.stage {
            SaveStage::ResolvingDir => match outcome {
                Ok(()) => {
                    self.stage = SaveStage::CreatingDir;
                    SaveAction::CreateDir
                },
                Err(c) => {
                    self.stage = SaveStage::Finished;
                    SaveAction::Done(Err(SaveError::ConfigDirUnavailable(c)))
                },
            },
            SaveStage::CreatingDir => match outcome {
                Ok(()) => match encode(&self.state) {
                    Ok(t) => {
                        self.stage = SaveStage::Writing;
                        SaveAction::Write(t)
                    },
                    Err(e) => {
                        self.stage = SaveStage::Finished;
                        SaveAction::Done(Err(e))
                    },
                },
                Err(c) => {
                    self.stage = SaveStage::Finished;
                    SaveAction::Done(Err(SaveError::DirectoryCreateFailed(c)))
                },
            },
            SaveStage::Writing => {
                self.stage = SaveStage::Finished;
                match outcome {
                    Ok(()) => SaveAction::Done(Ok(())),
                    Err(c) => SaveAction::Done(Err(SaveError::FileWriteFailed(c))),
                }
            },
            SaveStage::Finished => SaveAction::Done(Ok(())),
        }
    }
}

} // verus!
