//! The document session: where the document lives, how it is saved, and
//! what closing the window with unsaved work does. Every decision here is a
//! step from the current state and an event to the next state and the one
//! thing the application must do next.

use vstd::prelude::*;

use crate::assets::SaveMode;

verus! {

/// The file name of a path, as `std::path::Path::file_name` gives it.
pub uninterp spec fn file_name_of(path: Seq<char>) -> Option<Seq<char>>;

/// Calls `Path::file_name` on `path` and hands the name back as a string.
/// The name depends on the path alone and is named [`file_name_of`].
#[verifier::external_body]
fn path_file_name(path: &str) -> (r: Option<String>)
    ensures
        match r {
            Some(n) => file_name_of(path@) == Some(n@),
            None => file_name_of(path@) is None,
        },
{
    match std::path::Path::new(path).file_name() {
        Some(name) => Some(name.to_string_lossy().into_owned()),
        None => None,
    }
}

/// What to do once a save has finished.
#[derive(Debug, Clone, Copy, PartialEq, Eq, Structural)]
pub enum AfterSave {
    /// Keep working.
    Stay,
    /// Close the program: the user chose "save, then close".
    Close,
}

/// The answer to "save your work before closing?".
#[derive(Debug, Clone, Copy, PartialEq, Eq, Structural)]
pub enum CloseChoice {
    SaveThenClose,
    DiscardAndClose,
    Cancel,
}

/// The answer to "save the images linked or packed inside?".
#[derive(Debug, Clone, Copy, PartialEq, Eq, Structural)]
pub enum SaveAsChoice {
    Linked,
    Packed,
    Cancel,
}

/// Where the autosave snapshot of this session goes.
#[derive(Debug, Clone, PartialEq, Eq)]
pub enum SnapshotTarget {
    /// Next to the document, which has a path.
    BesideDocument(String),
    /// Into the recovery folder, for work that was never saved.
    Recovery(String),
}

/// The one thing the application must do after a step of the session.
#[derive(Debug, Clone, PartialEq, Eq)]
pub enum SaveStep {
    /// Nothing.
    Nothing,
    /// Write the document to `path` in `mode` (on a thread of its own).
    Write { path: String, mode: SaveMode },
    /// Ask how to save (linked or packed) before asking where.
    AskMode,
    /// Ask where to save, suggesting this file name.
    PickLocation { name: String },
    /// The save was called off; say so.
    Cancelled,
    /// The save failed; say so as a warning.
    Failed,
    /// A document without a file will be saved in this mode; say so.
    ModeChosen(SaveMode),
    /// The document was saved under this file name; say so.
    Saved { name: String },
}

/// The state of the document session.
#[derive(Debug, Clone, PartialEq, Eq)]
pub struct SaveFlow {
    /// Where the document is saved, once it has been.
    pub doc_path: Option<String>,
    /// Where work that was never saved is snapshotted, if anywhere.
    pub recovery_dir: Option<String>,
    /// The mode the document is in (or will be saved in).
    pub save_mode: SaveMode,
    /// The mode chosen for the "save as" under way.
    pub save_as_mode: SaveMode,
    /// The save-location dialog is open.
    pub dialog_open: bool,
    /// A write of the document is under way.
    pub writing: bool,
    /// What to do when the write under way is done.
    pub after_save: AfterSave,
    /// The program is closing.
    pub closing: bool,
    /// The "save before closing?" bar is shown.
    pub close_prompt: bool,
    /// The "linked or packed?" bar is shown.
    pub save_as_prompt: bool,
}

impl SaveFlow {
    /// A session with no document file yet, saving linked.
    pub fn new(recovery_dir: Option<String>) -> (f: Self)
        ensures
            f.doc_path is None,
            f.recovery_dir == recovery_dir,
            f.save_mode == SaveMode::Linked,
            f.save_as_mode == SaveMode::Linked,
            !f.dialog_open && !f.writing && !f.closing && !f.close_prompt && !f.save_as_prompt,
            f.after_save == AfterSave::Stay,
    {
        SaveFlow {
            doc_path: None,
            recovery_dir,
            save_mode: SaveMode::Linked,
            save_as_mode: SaveMode::Linked,
            dialog_open: false,
            writing: false,
            after_save: AfterSave::Stay,
            closing: false,
            close_prompt: false,
            save_as_prompt: false,
        }
    }

    /// A save is under way: the dialog is open or the document is being
    /// written.
    pub open spec fn busy(self) -> bool {
        self.dialog_open || self.writing
    }

    /// Where the autosave snapshot goes: next to the document once it has a
    /// path, else into the recovery folder; `None` only when there is
    /// neither, and then nothing is written anywhere.
    pub fn snapshot_target(&self) -> (t: Option<SnapshotTarget>)
        ensures
            match self.doc_path {
                Some(d) => t matches Some(SnapshotTarget::BesideDocument(p)) && p@ == d@,
                None => match self.recovery_dir {
                    Some(r) => t matches Some(SnapshotTarget::Recovery(p)) && p@ == r@,
                    None => t is None,
                },
            },
    {
        match &self.doc_path {
            Some(doc) => Some(SnapshotTarget::BesideDocument(doc.clone())),
            None => match &self.recovery_dir {
                Some(dir) => Some(SnapshotTarget::Recovery(dir.clone())),
                None => None,
            },
        }
    }

    /// The user closes the window: `true` lets the program end. With unsaved
    /// work it asks first and does not end yet.
    pub fn close_requested(&mut self, dirty: bool) -> (exit: bool)
        ensures
            exit == (old(self).closing || !dirty),
            exit ==> *final(self) == *old(self),
            !exit ==> *final(self) == (SaveFlow { close_prompt: true, ..*old(self) }),
    {
        if self.closing {
            return true;
        }
        if !dirty {
            return true;
        }
        self.close_prompt = true;
        false
    }

    /// Ctrl+S or Ctrl+Shift+S. A save never starts while one is under way.
    /// Saving a document that has a path writes it in its own mode, without
    /// asking; a document without one, or "save as", asks the mode first.
    pub fn save_request(&mut self, save_as: bool) -> (step: SaveStep)
        ensures
            old(self).busy() ==> step == SaveStep::Nothing && *final(self) == *old(self),
            !old(self).busy() && !save_as && old(self).doc_path is Some ==> (*final(self)
                == *old(self) && (step matches SaveStep::Write { path, mode } && path@ == old(
                self,
            ).doc_path.unwrap()@ && mode == old(self).save_mode)),
            !old(self).busy() && (save_as || old(self).doc_path is None) ==> step
                == SaveStep::AskMode && *final(self) == (SaveFlow {
                save_as_prompt: true,
                ..*old(self)
            }),
    {
        if self.dialog_open || self.writing {
            return SaveStep::Nothing;
        }
        if !save_as {
            if let Some(path) = &self.doc_path {
                return SaveStep::Write { path: path.clone(), mode: self.save_mode };
            }
        }
        self.save_as_prompt = true;
        SaveStep::AskMode
    }

    /// The answer to the bar that asks the close question.
    pub fn close_choice(&mut self, choice: CloseChoice) -> (step: SaveStep)
        ensures
            !final(self).close_prompt,
            choice == CloseChoice::DiscardAndClose ==> step == SaveStep::Nothing && *final(self) == (
            SaveFlow { closing: true, close_prompt: false, ..*old(self) }),
            choice == CloseChoice::Cancel ==> step == SaveStep::Nothing && *final(self) == (
            SaveFlow { after_save: AfterSave::Stay, close_prompt: false, ..*old(self) }),
            choice == CloseChoice::SaveThenClose ==> final(self).after_save == AfterSave::Close
                && final(self).closing == old(self).closing,
            choice == CloseChoice::SaveThenClose && old(self).busy() ==> step == SaveStep::Nothing
                && *final(self) == (SaveFlow {
                after_save: AfterSave::Close,
                close_prompt: false,
                ..*old(self)
            }),
            choice == CloseChoice::SaveThenClose && !old(self).busy() && old(self).doc_path is Some
                ==> (*final(self) == (SaveFlow {
                after_save: AfterSave::Close,
                close_prompt: false,
                ..*old(self)
            }) && (step matches SaveStep::Write { path, mode } && path@ == old(
                self,
            ).doc_path.unwrap()@ && mode == old(self).save_mode)),
            choice == CloseChoice::SaveThenClose && !old(self).busy() && old(self).doc_path is None
                ==> step == SaveStep::AskMode && *final(self) == (SaveFlow {
                after_save: AfterSave::Close,
                close_prompt: false,
                save_as_prompt: true,
                ..*old(self)
            }),
    {
        self.close_prompt = false;
        match choice {
            CloseChoice::SaveThenClose => {
                self.after_save = AfterSave::Close;
                self.save_request(false)
            },
            CloseChoice::DiscardAndClose => {
                self.closing = true;
                SaveStep::Nothing
            },
            CloseChoice::Cancel => {
                self.after_save = AfterSave::Stay;
                SaveStep::Nothing
            },
        }
    }

    /// The answer to "linked or packed?": then ask where, suggesting the
    /// document's file name (or `board.refx`). Cancelling here also calls
    /// off a close that was waiting for this save.
    pub fn save_as_choice(&mut self, choice: SaveAsChoice) -> (step: SaveStep)
        ensures
            !final(self).save_as_prompt,
            choice == SaveAsChoice::Cancel ==> step == SaveStep::Cancelled && *final(self) == (
            SaveFlow { after_save: AfterSave::Stay, save_as_prompt: false, ..*old(self) }),
            choice != SaveAsChoice::Cancel && old(self).busy() ==> step == SaveStep::Nothing
                && *final(self) == (SaveFlow { save_as_prompt: false, ..*old(self) }),
            choice != SaveAsChoice::Cancel && !old(self).busy() ==> ({
                let mode = if choice == SaveAsChoice::Packed {
                    SaveMode::Packed
                } else {
                    SaveMode::Linked
                };
                &&& *final(self) == (SaveFlow {
                    save_as_mode: mode,
                    dialog_open: true,
                    save_as_prompt: false,
                    ..*old(self)
                })
                &&& step matches SaveStep::PickLocation { name } && name@ == suggested_name(
                    old(self).doc_path,
                )
            }),
    {
        self.save_as_prompt = false;
        let mode = match choice {
            SaveAsChoice::Linked => SaveMode::Linked,
            SaveAsChoice::Packed => SaveMode::Packed,
            SaveAsChoice::Cancel => {
                self.after_save = AfterSave::Stay;
                return SaveStep::Cancelled;
            },
        };
        if self.dialog_open || self.writing {
            return SaveStep::Nothing;
        }
        let name = suggest_name(&self.doc_path);
        self.save_as_mode = mode;
        self.dialog_open = true;
        SaveStep::PickLocation { name }
    }

    /// The save-location dialog answered: a path to write to, or `None`
    /// when the user cancelled (which also calls off a waiting close), or
    /// it broke down (`failed`; the same, reported as a failure).
    pub fn dialog_answered(&mut self, picked: Option<String>, failed: bool) -> (step: SaveStep)
        ensures
            !final(self).dialog_open,
            picked matches Some(p) ==> (*final(self) == (SaveFlow {
                dialog_open: false,
                ..*old(self)
            }) && (step matches SaveStep::Write { path, mode } && path@ == p@ && mode == old(
                self,
            ).save_as_mode)),
            picked is None ==> *final(self) == (SaveFlow {
                dialog_open: false,
                after_save: AfterSave::Stay,
                ..*old(self)
            }) && step == (if failed {
                SaveStep::Failed
            } else {
                SaveStep::Cancelled
            }),
    {
        self.dialog_open = false;
        match picked {
            Some(path) => SaveStep::Write { path, mode: self.save_as_mode },
            None => {
                self.after_save = AfterSave::Stay;
                if failed {
                    SaveStep::Failed
                } else {
                    SaveStep::Cancelled
                }
            },
        }
    }

    /// The application started writing the document.
    pub fn started_writing(&mut self)
        ensures
            *final(self) == (SaveFlow { writing: true, ..*old(self) }),
    {
        self.writing = true;
    }

    /// The write finished. Only a write that reached the disk gives the
    /// document its path and mode, and only then does a waiting close
    /// happen; a failed write never closes the program.
    pub fn save_finished(&mut self, written: Option<(String, SaveMode)>) -> (step: SaveStep)
        ensures
            !final(self).writing,
            match written {
                Some((path, mode)) => {
                    &&& final(self).doc_path matches Some(d) && d@ == path@
                    &&& final(self).save_mode == mode
                    &&& final(self).closing == (old(self).closing || old(self).after_save
                        == AfterSave::Close)
                    &&& final(self).after_save == old(self).after_save
                    &&& step matches SaveStep::Saved { name } && (match file_name_of(path@) {
                        Some(n) => name@ == n,
                        None => name@ == Seq::<char>::empty(),
                    })
                    &&& final(self).recovery_dir == old(self).recovery_dir
                    &&& final(self).save_as_mode == old(self).save_as_mode
                    &&& final(self).dialog_open == old(self).dialog_open
                    &&& final(self).close_prompt == old(self).close_prompt
                    &&& final(self).save_as_prompt == old(self).save_as_prompt
                },
                None => *final(self) == (SaveFlow {
                    writing: false,
                    after_save: AfterSave::Stay,
                    ..*old(self)
                }) && step == SaveStep::Failed,
            },
    {
        self.writing = false;
        match written {
            Some((path, mode)) => {
                let name = match path_file_name(path.as_str()) {
                    Some(n) => n,
                    None => String::new(),
                };
                self.doc_path = Some(path);
                self.save_mode = mode;
                if self.after_save == AfterSave::Close {
                    self.closing = true;
                }
                SaveStep::Saved { name }
            },
            None => {
                self.after_save = AfterSave::Stay;
                SaveStep::Failed
            },
        }
    }

    /// The user switches between linked and packed on the status bar. A
    /// document with a file is written again at once in the new mode (the
    /// mode shown is a fact about the file); one without a file just
    /// remembers the mode.
    pub fn mode_request(&mut self, mode: SaveMode) -> (step: SaveStep)
        ensures
            mode == old(self).save_mode ==> step == SaveStep::Nothing && *final(self) == *old(self),
            mode != old(self).save_mode && old(self).doc_path is Some ==> (*final(self) == *old(
                self,
            ) && (step matches SaveStep::Write { path, mode: m } && path@ == old(
                self,
            ).doc_path.unwrap()@ && m == mode)),
            mode != old(self).save_mode && old(self).doc_path is None ==> *final(self) == (
            SaveFlow { save_mode: mode, ..*old(self) }) && step == SaveStep::ModeChosen(mode),
    {
        if mode == self.save_mode {
            return SaveStep::Nothing;
        }
        match &self.doc_path {
            Some(path) => SaveStep::Write { path: path.clone(), mode },
            None => {
                self.save_mode = mode;
                SaveStep::ModeChosen(mode)
            },
        }
    }
}

/// The file name a "save as" suggests: the document's own, or
/// `board.refx` for a document without one.
pub open spec fn suggested_name(doc_path: Option<String>) -> Seq<char> {
    match doc_path {
        Some(p) => match file_name_of(p@) {
            Some(n) => n,
            None => "board.refx"@,
        },
        None => "board.refx"@,
    }
}

fn suggest_name(doc_path: &Option<String>) -> (name: String)
    ensures
        name@ == suggested_name(*doc_path),
{
    match doc_path {
        Some(path) => match path_file_name(path.as_str()) {
            Some(n) => n,
            None => String::from_str("board.refx"),
        },
        None => String::from_str("board.refx"),
    }
}

/// Whether the board holds work no snapshot has captured yet: it has
/// unsaved changes and the last snapshot was not of this revision.
pub fn has_unsnapshotted_work(dirty: bool, snapshot_revision: Option<u64>, revision: u64) -> (r: bool)
    ensures
        r == (dirty && snapshot_revision != Some(revision)),
{
    dirty && match snapshot_revision {
        Some(s) => s != revision,
        None => true,
    }
}

impl SaveFlow {
    /// Another board took the place of the document (opened from a file, or
    /// restored from a snapshot with no file): it has that path and mode now.
    pub fn adopt_document(&mut self, path: Option<String>, mode: SaveMode)
        ensures
            *final(self) == (SaveFlow { doc_path: path, save_mode: mode, ..*old(self) }),
    {
        self.doc_path = path;
        self.save_mode = mode;
    }
}

/// What the status bar says while a document is being opened.
#[derive(Debug, Clone, PartialEq, Eq)]
pub enum OpenNotice {
    /// The file dialog is open.
    Choosing,
    /// The file is being read.
    InProgress,
    /// The document could not be opened (a warning).
    Failed,
    /// The document with this file name is on the board.
    Opened { name: String },
}

/// The one thing the application must do after a step of opening.
#[derive(Debug, Clone, PartialEq, Eq)]
pub enum OpenStep {
    /// Nothing.
    Nothing,
    /// Ask which file to open.
    AskFile,
    /// Read the document at this path (on a thread of its own), then report
    /// with [`OpenFlow::load_started`].
    Load(String),
    /// Put the document read from this path on the board, then offer its
    /// newer snapshot, if any.
    Adopt(String),
}

/// How the file dialog ended.
#[derive(Debug, Clone, PartialEq, Eq)]
pub enum DialogAnswer {
    /// The user picked this file.
    Picked(String),
    /// The user cancelled: not an error.
    Cancelled,
    /// The dialog went away without an answer.
    Lost,
}

/// The state of opening a document.
#[derive(Debug, Clone, Copy, PartialEq, Eq, Structural)]
pub struct OpenFlow {
    /// The file dialog is open.
    pub dialog_open: bool,
    /// A document is being read.
    pub loading: bool,
}

impl OpenFlow {
    /// Nothing is being opened.
    pub fn new() -> (f: Self)
        ensures
            !f.dialog_open && !f.loading,
    {
        OpenFlow { dialog_open: false, loading: false }
    }

    /// `Ctrl+O`. Only one open at a time: while a dialog is up or a file is
    /// being read, the request does nothing (two dialogs would lose the
    /// answer of the first).
    pub fn request(&mut self) -> (r: (OpenStep, Option<OpenNotice>))
        ensures
            old(self).dialog_open || old(self).loading ==> r == (OpenStep::Nothing, None::<
                OpenNotice,
            >) && *final(self) == *old(self),
            !old(self).dialog_open && !old(self).loading ==> r == (
                OpenStep::AskFile,
                Some(OpenNotice::Choosing),
            ) && *final(self) == (OpenFlow { dialog_open: true, loading: false }),
    {
        if self.dialog_open || self.loading {
            return (OpenStep::Nothing, None);
        }
        self.dialog_open = true;
        (OpenStep::AskFile, Some(OpenNotice::Choosing))
    }

    /// The file dialog answered.
    pub fn dialog_answered(&mut self, answer: DialogAnswer) -> (r: (OpenStep, Option<OpenNotice>))
        ensures
            final(self).loading == old(self).loading,
            !final(self).dialog_open,
            match answer {
                DialogAnswer::Picked(path) => r == (OpenStep::Load(path), None::<OpenNotice>),
                DialogAnswer::Cancelled => r == (OpenStep::Nothing, None::<OpenNotice>),
                DialogAnswer::Lost => r == (OpenStep::Nothing, Some(OpenNotice::Failed)),
            },
    {
        self.dialog_open = false;
        match answer {
            DialogAnswer::Picked(path) => (OpenStep::Load(path), None),
            DialogAnswer::Cancelled => (OpenStep::Nothing, None),
            DialogAnswer::Lost => (OpenStep::Nothing, Some(OpenNotice::Failed)),
        }
    }

    /// The application tried to start reading the document.
    pub fn load_started(&mut self, started: bool) -> (notice: OpenNotice)
        ensures
            final(self).dialog_open == old(self).dialog_open,
            final(self).loading == (old(self).loading || started),
            notice == (if started {
                OpenNotice::InProgress
            } else {
                OpenNotice::Failed
            }),
    {
        if started {
            self.loading = true;
            OpenNotice::InProgress
        } else {
            OpenNotice::Failed
        }
    }

    /// The read finished: with the document's path when it succeeded. The
    /// document comes on the board before anything is asked about it.
    pub fn load_finished(&mut self, read: Option<String>) -> (r: (OpenStep, OpenNotice))
        ensures
            *final(self) == (OpenFlow { loading: false, ..*old(self) }),
            match read {
                Some(path) => r.0 == OpenStep::Adopt(path) && (r.1 matches OpenNotice::Opened {
                    name,
                } && (match file_name_of(path@) {
                    Some(n) => name@ == n,
                    None => name@ == Seq::<char>::empty(),
                })),
                None => r == (OpenStep::Nothing, OpenNotice::Failed),
            },
    {
        self.loading = false;
        match read {
            Some(path) => {
                let name = match path_file_name(path.as_str()) {
                    Some(n) => n,
                    None => String::new(),
                };
                (OpenStep::Adopt(path), OpenNotice::Opened { name })
            },
            None => (OpenStep::Nothing, OpenNotice::Failed),
        }
    }
}

} // verus!
