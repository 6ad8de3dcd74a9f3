//! The editor: one state that owns the document, the directory browser, the
//! appearance settings and the grammar engine, and the decisions of its
//! interaction loop.
//!
//! The editor neither draws nor touches the file system. A caller draws its
//! state, turns what the user did into a [`UiEvent`] and hands it to
//! [`TextEditor::update`]. What comes back is an [`Effect`]: something for
//! the caller to do (show a dialog, read or write a file, tell the user of a
//! failure), whose outcome it hands in as the next event.

use vstd::prelude::*;
use vstd::string::*;
use crate::appearance::{AppearanceConfig, SettingChange};
use crate::directory::{
    unreadable, CreateOutcome, DirectoryModel, DirectoryView, EntryKind, Selection, SelectionModel,
};
use crate::document::{Document, DocumentModel, WriteRequest, WriteRequestModel};
use crate::grammar::{analysis, recognized_names, EngineError, HighlightEngine};
use crate::highlight::{concat_texts, decorate, decoration, Fragment};

verus! {

/// What the user did, or how something ended that the editor asked for.
#[derive(Clone, Debug, PartialEq, Eq)]
pub enum UiEvent {
    /// The name in the new-file box was edited.
    NewFileNameEdited(String),
    /// The new-file box was left with Enter, or Create was clicked.
    CreateRequested,
    /// The attempt to create the file at `target` ended.
    CreateFinished { target: String, outcome: CreateOutcome },
    /// Entry `index` of the listing was clicked; the file system says it is
    /// a `kind`.
    EntryClicked { index: usize, kind: EntryKind },
    /// Open Directory was clicked.
    OpenDirectoryClicked,
    /// The folder dialog returned a directory.
    FolderPicked(String),
    /// The directory `path` was enumerated; see [`DirectoryView::refresh`]
    /// for the listing.
    DirectoryListed { path: String, listing: Option<Vec<Option<String>>> },
    /// Open File was clicked.
    OpenFileClicked,
    /// The file dialog returned a file.
    FilePicked(String),
    /// The file `path` was read: `Some` with its text, `None` where it could
    /// not be read as text.
    FileRead { path: String, content: Option<String> },
    /// Save was clicked.
    SaveClicked,
    /// The save dialog returned a path.
    SavePathPicked(String),
    /// The attempt to write the document to `path` ended.
    WriteFinished { path: String, written: bool },
    /// Settings was clicked.
    SettingsClicked,
    /// The text was edited; the event carries the whole new text.
    TextEdited(String),
    /// A control of the settings panel was moved.
    SettingChanged(SettingChange),
}

/// Something that went wrong and that the user is to be told.
#[derive(Clone, Debug, PartialEq, Eq)]
pub enum Notice {
    /// The file could not be read as text; the document is as it was.
    ReadFailed(String),
    /// The document could not be written to the file.
    WriteFailed(String),
    /// The directory could not be enumerated; its listing is empty.
    DirectoryUnreadable(String),
    /// `count` children of the directory could not be read and are not
    /// listed.
    EntriesSkipped { path: String, count: usize },
    /// Something stands at the path already; no file was created.
    FileExists(String),
    /// The file could not be created.
    CreateFailed(String),
}

/// A [`Notice`] as a value of specifications.
pub enum NoticeModel {
    ReadFailed(Seq<char>),
    WriteFailed(Seq<char>),
    DirectoryUnreadable(Seq<char>),
    EntriesSkipped { path: Seq<char>, count: nat },
    FileExists(Seq<char>),
    CreateFailed(Seq<char>),
}

impl View for Notice {
    type V = NoticeModel;

    open spec fn view(&self) -> NoticeModel {
        match self {
            Notice::ReadFailed(path) => NoticeModel::ReadFailed(path@),
            Notice::WriteFailed(path) => NoticeModel::WriteFailed(path@),
            Notice::DirectoryUnreadable(path) => NoticeModel::DirectoryUnreadable(path@),
            Notice::EntriesSkipped { path, count } => NoticeModel::EntriesSkipped {
                path: path@,
                count: *count as nat,
            },
            Notice::FileExists(path) => NoticeModel::FileExists(path@),
            Notice::CreateFailed(path) => NoticeModel::CreateFailed(path@),
        }
    }
}

/// What the caller is to do next.
#[derive(Clone, Debug, PartialEq, Eq)]
pub enum Effect {
    /// Nothing.
    Nothing,
    /// Show the folder dialog; answer with `FolderPicked` if one is chosen.
    PickFolder,
    /// Show the file dialog; answer with `FilePicked` if one is chosen.
    PickFile,
    /// Show the save dialog; answer with `SavePathPicked` if one is chosen.
    PickSavePath,
    /// Enumerate the directory; answer with `DirectoryListed`.
    ListDirectory(String),
    /// Read the file as text; answer with `FileRead`.
    ReadFile(String),
    /// Write the text to the path, replacing what the file holds; answer
    /// with `WriteFinished`.
    WriteFile(WriteRequest),
    /// Create an empty file at the path unless something stands there;
    /// answer with `CreateFinished`.
    CreateFile(String),
    /// Tell the user.
    Report(Notice),
}

/// An [`Effect`] as a value of specifications.
pub enum EffectModel {
    Nothing,
    PickFolder,
    PickFile,
    PickSavePath,
    ListDirectory(Seq<char>),
    ReadFile(Seq<char>),
    WriteFile(WriteRequestModel),
    CreateFile(Seq<char>),
    Report(NoticeModel),
}

impl View for Effect {
    type V = EffectModel;

    open spec fn view(&self) -> EffectModel {
        match self {
            Effect::Nothing => EffectModel::Nothing,
            Effect::PickFolder => EffectModel::PickFolder,
            Effect::PickFile => EffectModel::PickFile,
            Effect::PickSavePath => EffectModel::PickSavePath,
            Effect::ListDirectory(path) => EffectModel::ListDirectory(path@),
            Effect::ReadFile(path) => EffectModel::ReadFile(path@),
            Effect::WriteFile(request) => EffectModel::WriteFile(request@),
            Effect::CreateFile(path) => EffectModel::CreateFile(path@),
            Effect::Report(notice) => EffectModel::Report(notice@),
        }
    }
}

/// The document cut into coloured fragments, and whether the colours come
/// from a highlighting pass or the document is shown plain because the pass
/// failed.
#[derive(Clone, Debug, PartialEq, Eq)]
pub struct Decoration {
    pub fragments: Vec<Fragment>,
    pub highlighted: bool,
}

/// The effect that writes what a document's save asks for, and `otherwise`
/// where it asks for nothing.
pub open spec fn write_effect(
    request: Option<WriteRequestModel>,
    otherwise: EffectModel,
) -> EffectModel {
    match request {
        Some(request) => EffectModel::WriteFile(request),
        None => otherwise,
    }
}

/// What is to be done after the file `path` was read.
pub open spec fn read_effect(path: Seq<char>, content: Option<Seq<char>>) -> EffectModel {
    match content {
        Some(_) => EffectModel::Nothing,
        None => EffectModel::Report(NoticeModel::ReadFailed(path)),
    }
}

/// What is to be done after the document was written to `path`.
pub open spec fn written_effect(path: Seq<char>, written: bool) -> EffectModel {
    if written {
        EffectModel::Nothing
    } else {
        EffectModel::Report(NoticeModel::WriteFailed(path))
    }
}

/// What is to be done after the directory `path` was enumerated.
pub open spec fn listed_effect(
    path: Seq<char>,
    listing: Option<Seq<Option<Seq<char>>>>,
) -> EffectModel {
    match listing {
        None => EffectModel::Report(NoticeModel::DirectoryUnreadable(path)),
        Some(items) => if unreadable(items) > 0 {
            EffectModel::Report(NoticeModel::EntriesSkipped { path, count: unreadable(items) })
        } else {
            EffectModel::Nothing
        },
    }
}

/// What is to be done after the attempt to create `target`.
pub open spec fn created_effect(target: Seq<char>, outcome: CreateOutcome) -> EffectModel {
    match outcome {
        CreateOutcome::Created => EffectModel::Nothing,
        CreateOutcome::AlreadyExists => EffectModel::Report(NoticeModel::FileExists(target)),
        CreateOutcome::Failed => EffectModel::Report(NoticeModel::CreateFailed(target)),
    }
}

/// The state of the editor.
pub struct TextEditor {
    document: Document,
    directory: DirectoryView,
    new_file_name: String,
    show_settings: bool,
    appearance: AppearanceConfig,
    engine: HighlightEngine,
}

/// A [`TextEditor`] as a value of specifications. The grammar engine is no
/// part of it: the engine of a well-formed editor recognises
/// [`recognized_names`].
pub struct EditorModel {
    pub document: DocumentModel,
    pub directory: DirectoryModel,
    pub new_file_name: Seq<char>,
    pub show_settings: bool,
    pub appearance: AppearanceConfig,
}

impl View for TextEditor {
    type V = EditorModel;

    closed spec fn view(&self) -> EditorModel {
        EditorModel {
            document: self.document@,
            directory: self.directory@,
            new_file_name: self.new_file_name@,
            show_settings: self.show_settings,
            appearance: self.appearance,
        }
    }
}

impl EditorModel {
    /// The state that every editor starts in: an empty document, no
    /// directory, the settings panel hidden, the default appearance.
    pub open spec fn initial() -> EditorModel {
        EditorModel {
            document: DocumentModel::empty(),
            directory: DirectoryModel::empty(),
            new_file_name: Seq::empty(),
            show_settings: false,
            appearance: AppearanceConfig::initial(),
        }
    }

    /// The state after an attempt to load `path`.
    pub open spec fn loaded(self, path: Seq<char>, content: Option<Seq<char>>) -> EditorModel {
        EditorModel { document: self.document.loaded(path, content), ..self }
    }

    /// The state after the text was replaced by an edit.
    pub open spec fn edited(self, text: Seq<char>) -> EditorModel {
        EditorModel { document: self.document.edited(text), ..self }
    }

    /// The state after `path` became the document's file.
    pub open spec fn saved_as(self, path: Seq<char>) -> EditorModel {
        EditorModel { document: self.document.saved_as(path), ..self }
    }

    /// The state after `path` was opened and enumerated.
    pub open spec fn opened(
        self,
        path: Seq<char>,
        listing: Option<Seq<Option<Seq<char>>>>,
    ) -> EditorModel {
        EditorModel { directory: self.directory.opened(path, listing), ..self }
    }

    /// The state after the open directory was enumerated anew.
    pub open spec fn refreshed(self, listing: Option<Seq<Option<Seq<char>>>>) -> EditorModel {
        EditorModel { directory: self.directory.refreshed(listing), ..self }
    }

    /// The state after an attempt to create `target`: a file that was created
    /// is listed and the new-file box is emptied; any other outcome changes
    /// nothing.
    pub open spec fn file_created(self, target: Seq<char>, outcome: CreateOutcome) -> EditorModel {
        if outcome == CreateOutcome::Created {
            EditorModel {
                directory: self.directory.file_created(target, outcome),
                new_file_name: Seq::empty(),
                ..self
            }
        } else {
            self
        }
    }

    /// The state with the settings panel shown if it was hidden, and hidden
    /// if it was shown.
    pub open spec fn toggled(self) -> EditorModel {
        EditorModel { show_settings: !self.show_settings, ..self }
    }

    /// The state after one edit of the settings panel.
    pub open spec fn setting_changed(self, change: SettingChange) -> EditorModel {
        EditorModel { appearance: self.appearance.changed(change), ..self }
    }

    /// The state with another name in the new-file box.
    pub open spec fn named(self, name: Seq<char>) -> EditorModel {
        EditorModel { new_file_name: name, ..self }
    }

    /// What is to be done to create the file that the new-file box names.
    pub open spec fn create_effect(self) -> EffectModel {
        match self.directory.new_file_target(self.new_file_name) {
            Some(target) => EffectModel::CreateFile(target),
            None => EffectModel::Nothing,
        }
    }

    /// What is to be done after entry `index` was selected.
    pub open spec fn select_effect(self, index: int, kind: EntryKind) -> EffectModel {
        match self.directory.selection(index, kind) {
            SelectionModel::LoadFile(path) => EffectModel::ReadFile(path),
            SelectionModel::OpenDirectory(path) => EffectModel::ListDirectory(path),
            SelectionModel::Nothing => EffectModel::Nothing,
        }
    }

    /// The state after an event.
    pub open spec fn next(self, event: UiEvent) -> EditorModel {
        match event {
            UiEvent::NewFileNameEdited(name) => self.named(name@),
            UiEvent::CreateFinished { target, outcome } => self.file_created(target@, outcome),
            UiEvent::DirectoryListed { path, listing } => self.opened(path@, listing.deep_view()),
            UiEvent::FileRead { path, content } => self.loaded(path@, content.deep_view()),
            UiEvent::SavePathPicked(path) => self.saved_as(path@),
            UiEvent::SettingsClicked => self.toggled(),
            UiEvent::TextEdited(text) => self.edited(text@),
            UiEvent::SettingChanged(change) => self.setting_changed(change),
            _ => self,
        }
    }

    /// What the caller is to do after an event.
    ///
    /// A click on Save writes the document if it has a file and asks for a
    /// path if it has none; the path that comes back is written to at once.
    /// Every edit of the text is written through. Open Directory is offered
    /// only while no directory is open. Whatever failed on the caller's side
    /// is reported.
    pub open spec fn effect(self, event: UiEvent) -> EffectModel {
        match event {
            UiEvent::NewFileNameEdited(_) => EffectModel::Nothing,
            UiEvent::CreateRequested => self.create_effect(),
            UiEvent::CreateFinished { target, outcome } => created_effect(target@, outcome),
            UiEvent::EntryClicked { index, kind } => self.select_effect(index as int, kind),
            UiEvent::OpenDirectoryClicked => if self.directory.current_dir.is_none() {
                EffectModel::PickFolder
            } else {
                EffectModel::Nothing
            },
            UiEvent::FolderPicked(path) => EffectModel::ListDirectory(path@),
            UiEvent::DirectoryListed { path, listing } => listed_effect(
                path@,
                listing.deep_view(),
            ),
            UiEvent::OpenFileClicked => EffectModel::PickFile,
            UiEvent::FilePicked(path) => EffectModel::ReadFile(path@),
            UiEvent::FileRead { path, content } => read_effect(path@, content.deep_view()),
            UiEvent::SaveClicked => write_effect(
                self.document.write_request(),
                EffectModel::PickSavePath,
            ),
            UiEvent::SavePathPicked(path) => write_effect(
                self.saved_as(path@).document.write_request(),
                EffectModel::Nothing,
            ),
            UiEvent::WriteFinished { path, written } => written_effect(path@, written),
            UiEvent::SettingsClicked => EffectModel::Nothing,
            UiEvent::TextEdited(text) => write_effect(
                self.edited(text@).document.write_request(),
                EffectModel::Nothing,
            ),
            UiEvent::SettingChanged(_) => EffectModel::Nothing,
        }
    }
}

/// Showing and hiding the settings panel are inverse: two toggles in a row
/// leave the state as it was.
pub proof fn lemma_toggle_twice(state: EditorModel)
    ensures
        state.toggled().toggled() == state,
{
}

/// The bytes of a text.
pub open spec fn encode(text: Seq<char>) -> Seq<u8> {
    vstd::utf8::encode_utf8(text)
}

/// The effect that writes what a save asks for, and `otherwise` where it
/// asks for nothing.
fn effect_of_write(request: Option<WriteRequest>, otherwise: Effect) -> (effect: Effect)
    ensures
        effect@ == write_effect(request.deep_view(), otherwise@),
{
    match request {
        Some(request) => Effect::WriteFile(request),
        None => otherwise,
    }
}

impl TextEditor {
    /// The editor is well formed: the sizes of its appearance are within
    /// their bounds, and its engine recognises the names of this library's
    /// categories. A new editor is well formed, and every method keeps it
    /// so.
    pub closed spec fn wf(&self) -> bool {
        &&& self.appearance.wf()
        &&& self.engine@ == recognized_names()
    }

    /// A fresh editor with a grammar engine of its own, or the reason why no
    /// engine could be made.
    pub fn new() -> (editor: Result<TextEditor, EngineError>)
        ensures
            editor matches Ok(editor) ==> editor.wf() && editor@ == EditorModel::initial(),
    {
        TextEditor::from_engine(HighlightEngine::new())
    }

    /// A fresh editor round the engine that was made, or the reason why none
    /// was made, handed on as it came.
    pub fn from_engine(engine: Result<HighlightEngine, EngineError>) -> (editor: Result<
        TextEditor,
        EngineError,
    >)
        requires
            engine matches Ok(engine) ==> engine@ == recognized_names(),
        ensures
            match engine {
                Ok(_) => editor matches Ok(editor) && editor.wf() && editor@
                    == EditorModel::initial(),
                Err(error) => editor == Err::<TextEditor, EngineError>(error),
            },
    {
        match engine {
            Ok(engine) => Ok(TextEditor::with_engine(engine)),
            Err(error) => Err(error),
        }
    }

    /// A fresh editor round the given engine.
    pub fn with_engine(engine: HighlightEngine) -> (editor: TextEditor)
        requires
            engine@ == recognized_names(),
        ensures
            editor.wf(),
            editor@ == EditorModel::initial(),
    {
        TextEditor {
            document: Document::new(),
            directory: DirectoryView::new(),
            new_file_name: String::new(),
            show_settings: false,
            appearance: AppearanceConfig::new(),
            engine,
        }
    }

    /// The document being edited.
    pub fn document(&self) -> (document: &Document)
        ensures
            document@ == self@.document,
    {
        &self.document
    }

    /// The directory browser.
    pub fn directory(&self) -> (directory: &DirectoryView)
        ensures
            directory@ == self@.directory,
    {
        &self.directory
    }

    /// The name in the new-file box.
    pub fn new_file_name(&self) -> (name: &str)
        ensures
            name@ == self@.new_file_name,
    {
        self.new_file_name.as_str()
    }

    /// Whether the settings panel is shown.
    pub fn show_settings(&self) -> (shown: bool)
        ensures
            shown == self@.show_settings,
    {
        self.show_settings
    }

    /// The appearance settings, each size within its bounds.
    pub fn appearance(&self) -> (appearance: AppearanceConfig)
        requires
            self.wf(),
        ensures
            appearance == self@.appearance,
            appearance.wf(),
    {
        self.appearance
    }

    /// Takes in the outcome of reading `path`; see [`Document::load`].
    pub fn load(&mut self, path: String, content: Option<String>) -> (replaced: bool)
        requires
            old(self).wf(),
        ensures
            final(self).wf(),
            final(self)@ == old(self)@.loaded(path@, content.deep_view()),
            replaced == content.is_some(),
    {
        self.document.load(path, content)
    }

    /// What is to be written to save the document; see [`Document::save`].
    pub fn save(&self) -> (request: Option<WriteRequest>)
        ensures
            request.deep_view() == self@.document.write_request(),
    {
        self.document.save()
    }

    /// Makes `path` the open directory and takes in its enumeration; see
    /// [`DirectoryView::open_directory`].
    pub fn open_directory(&mut self, path: String, listing: Option<Vec<Option<String>>>) -> (skipped:
        usize)
        requires
            old(self).wf(),
        ensures
            final(self).wf(),
            final(self)@ == old(self)@.opened(path@, listing.deep_view()),
            skipped == final(self)@.directory.skipped(listing.deep_view()),
    {
        self.directory.open_directory(path, listing)
    }

    /// Replaces the listing by a new enumeration of the open directory; see
    /// [`DirectoryView::refresh`].
    pub fn update_dir_contents(&mut self, listing: Option<Vec<Option<String>>>) -> (skipped: usize)
        requires
            old(self).wf(),
        ensures
            final(self).wf(),
            final(self)@ == old(self)@.refreshed(listing.deep_view()),
            skipped == old(self)@.directory.skipped(listing.deep_view()),
    {
        self.directory.refresh(listing)
    }

    /// The path of the file that the new-file box names, if a directory is
    /// open: the name, trimmed, below that directory.
    pub fn new_file_target(&self) -> (target: Option<String>)
        ensures
            target.deep_view() == self@.directory.new_file_target(self@.new_file_name),
    {
        self.directory.new_file_target(self.new_file_name.as_str())
    }

    /// Takes in how the attempt to create `target` ended. A file that was
    /// created is added to the listing, and the new-file box is emptied.
    /// Returns whether that happened.
    pub fn create_new_file(&mut self, target: String, outcome: CreateOutcome) -> (listed: bool)
        requires
            old(self).wf(),
        ensures
            final(self).wf(),
            final(self)@ == old(self)@.file_created(target@, outcome),
            listed == (outcome == CreateOutcome::Created),
    {
        let listed = self.directory.file_created(target, outcome);
        if listed {
            self.new_file_name = String::new();
        }
        listed
    }

    /// Shows the settings panel if it is hidden, and hides it if it is
    /// shown.
    pub fn toggle_settings(&mut self)
        requires
            old(self).wf(),
        ensures
            final(self).wf(),
            final(self)@ == old(self)@.toggled(),
    {
        self.show_settings = !self.show_settings;
    }

    /// Applies one edit of the settings panel; see
    /// [`AppearanceConfig::apply`].
    pub fn apply_setting(&mut self, change: SettingChange)
        requires
            old(self).wf(),
        ensures
            final(self).wf(),
            final(self)@ == old(self)@.setting_changed(change),
    {
        self.appearance.apply(change);
    }

    /// Decorates the document for display: parses it, runs the highlighting
    /// pass, and cuts the text into coloured fragments along the events. If
    /// the engine fails, the document comes back as plain text and is marked
    /// as not highlighted. The fragments, read one after the other, are the
    /// document; the editor's state stays as it was.
    pub fn parse_and_highlight(&mut self) -> (decorated: Decoration)
        requires
            old(self).wf(),
        ensures
            final(self).wf(),
            final(self)@ == old(self)@,
            decorated.fragments.deep_view() == decoration(
                encode(old(self)@.document.text),
                analysis(recognized_names(), encode(old(self)@.document.text)),
                old(self)@.appearance.text_color,
            ),
            decorated.highlighted == analysis(
                recognized_names(),
                encode(old(self)@.document.text),
            ).is_some(),
            concat_texts(decorated.fragments.deep_view()) == old(self)@.document.text,
    {
        let events = self.engine.events(self.document.text.as_str());
        let highlighted = events.is_some();
        let fragments = decorate(self.document.text.as_str(), events, self.appearance.text_color);
        Decoration { fragments, highlighted }
    }

    /// Takes in an event and says what the caller is to do next.
    pub fn update(&mut self, event: UiEvent) -> (effect: Effect)
        requires
            old(self).wf(),
        ensures
            final(self).wf(),
            final(self)@ == old(self)@.next(event),
            effect@ == old(self)@.effect(event),
    {
        match event {
            UiEvent::NewFileNameEdited(name) => {
                self.new_file_name = name;
                Effect::Nothing
            },
            UiEvent::CreateRequested => {
                match self.new_file_target() {
                    Some(target) => Effect::CreateFile(target),
                    None => Effect::Nothing,
                }
            },
            UiEvent::CreateFinished { target, outcome } => {
                let notice = match outcome {
                    CreateOutcome::Created => Effect::Nothing,
                    CreateOutcome::AlreadyExists => Effect::Report(
                        Notice::FileExists(target.clone()),
                    ),
                    CreateOutcome::Failed => Effect::Report(Notice::CreateFailed(target.clone())),
                };
                self.create_new_file(target, outcome);
                notice
            },
            UiEvent::EntryClicked { index, kind } => {
                match self.directory.select(index, kind) {
                    Selection::LoadFile(path) => Effect::ReadFile(path),
                    Selection::OpenDirectory(path) => Effect::ListDirectory(path),
                    Selection::Nothing => Effect::Nothing,
                }
            },
            UiEvent::OpenDirectoryClicked => {
                if self.directory.current_dir.is_none() {
                    Effect::PickFolder
                } else {
                    Effect::Nothing
                }
            },
            UiEvent::FolderPicked(path) => Effect::ListDirectory(path),
            UiEvent::DirectoryListed { path, listing } => {
                let enumerated = listing.is_some();
                let skipped = self.open_directory(path.clone(), listing);
                if !enumerated {
                    Effect::Report(Notice::DirectoryUnreadable(path))
                } else if skipped > 0 {
                    Effect::Report(Notice::EntriesSkipped { path, count: skipped })
                } else {
                    Effect::Nothing
                }
            },
            UiEvent::OpenFileClicked => Effect::PickFile,
            UiEvent::FilePicked(path) => Effect::ReadFile(path),
            UiEvent::FileRead { path, content } => {
                if self.load(path.clone(), content) {
                    Effect::Nothing
                } else {
                    Effect::Report(Notice::ReadFailed(path))
                }
            },
            UiEvent::SaveClicked => effect_of_write(self.save(), Effect::PickSavePath),
            UiEvent::SavePathPicked(path) => Effect::WriteFile(self.document.save_as(path)),
            UiEvent::WriteFinished { path, written } => {
                if written {
                    Effect::Nothing
                } else {
                    Effect::Report(Notice::WriteFailed(path))
                }
            },
            UiEvent::SettingsClicked => {
                self.toggle_settings();
                Effect::Nothing
            },
            UiEvent::TextEdited(text) => effect_of_write(self.document.edit(text), Effect::Nothing),
            UiEvent::SettingChanged(change) => {
                self.apply_setting(change);
                Effect::Nothing
            },
        }
    }
}

} // verus!
