//! The document buffer: the text being edited and the file it came from.
//!
//! The buffer reads and writes no file itself. A caller reads the file and
//! hands the outcome to [`Document::load`]; [`Document::save`] says what is to
//! be written where, and the caller writes it.

use vstd::prelude::*;
use vstd::string::*;

verus! {

/// The text being edited and, once it is known, the path of its file.
#[derive(Clone, Debug, PartialEq, Eq)]
pub struct Document {
    pub text: String,
    pub source_path: Option<String>,
}

/// A [`Document`] as a value of specifications.
pub struct DocumentModel {
    pub text: Seq<char>,
    pub source_path: Option<Seq<char>>,
}

/// A whole text to be written to a path, replacing what the file holds.
#[derive(Clone, Debug, PartialEq, Eq)]
pub struct WriteRequest {
    pub path: String,
    pub text: String,
}

/// A [`WriteRequest`] as a value of specifications.
pub struct WriteRequestModel {
    pub path: Seq<char>,
    pub text: Seq<char>,
}

impl View for WriteRequest {
    type V = WriteRequestModel;

    open spec fn view(&self) -> WriteRequestModel {
        WriteRequestModel { path: self.path@, text: self.text@ }
    }
}

impl DeepView for WriteRequest {
    type V = WriteRequestModel;

    open spec fn deep_view(&self) -> WriteRequestModel {
        self@
    }
}

impl View for Document {
    type V = DocumentModel;

    open spec fn view(&self) -> DocumentModel {
        DocumentModel { text: self.text@, source_path: self.source_path.deep_view() }
    }
}

impl DocumentModel {
    /// The document of a fresh editor: no text and no file.
    pub open spec fn empty() -> DocumentModel {
        DocumentModel { text: Seq::empty(), source_path: None }
    }

    /// The document after an attempt to load `path`: with the file's content,
    /// that content and that path; without, because the read failed, the
    /// document as it was.
    pub open spec fn loaded(self, path: Seq<char>, content: Option<Seq<char>>) -> DocumentModel {
        match content {
            Some(text) => DocumentModel { text, source_path: Some(path) },
            None => self,
        }
    }

    /// What saving writes: the whole text to the document's path, and nothing
    /// while the document has no path.
    pub open spec fn write_request(self) -> Option<WriteRequestModel> {
        match self.source_path {
            Some(path) => Some(WriteRequestModel { path, text: self.text }),
            None => None,
        }
    }

    /// The document with another text and the same path.
    pub open spec fn edited(self, text: Seq<char>) -> DocumentModel {
        DocumentModel { text, source_path: self.source_path }
    }

    /// The document with the same text and the path `path`.
    pub open spec fn saved_as(self, path: Seq<char>) -> DocumentModel {
        DocumentModel { text: self.text, source_path: Some(path) }
    }
}

impl Document {
    /// An empty document that belongs to no file.
    pub fn new() -> (document: Document)
        ensures
            document@ == DocumentModel::empty(),
    {
        Document { text: String::new(), source_path: None }
    }

    /// Takes in the outcome of reading `path`: `Some` with the file's text, or
    /// `None` where the file could not be read as text. A file that was read
    /// replaces the text and becomes the document's file; a failed read
    /// changes nothing. Returns whether the document was replaced.
    pub fn load(&mut self, path: String, content: Option<String>) -> (replaced: bool)
        ensures
            final(self)@ == old(self)@.loaded(path@, content.deep_view()),
            replaced == content.is_some(),
    {
        match content {
            Some(text) => {
                self.text = text;
                self.source_path = Some(path);
                true
            },
            None => false,
        }
    }

    /// What is to be written to save the document: its whole text to its
    /// path, or nothing while it has no path.
    pub fn save(&self) -> (request: Option<WriteRequest>)
        ensures
            request.deep_view() == self@.write_request(),
    {
        match &self.source_path {
            Some(path) => Some(WriteRequest { path: path.clone(), text: self.text.clone() }),
            None => None,
        }
    }

    /// Replaces the text after an edit, and saves at once: every change is
    /// written through to the document's file, if it has one.
    pub fn edit(&mut self, text: String) -> (request: Option<WriteRequest>)
        ensures
            final(self)@ == old(self)@.edited(text@),
            request.deep_view() == final(self)@.write_request(),
    {
        self.text = text;
        self.save()
    }

    /// Makes `path` the document's file, as after a save-location prompt, and
    /// says what is to be written there.
    pub fn save_as(&mut self, path: String) -> (request: WriteRequest)
        ensures
            final(self)@ == old(self)@.saved_as(path@),
            Some(request@) == final(self)@.write_request(),
    {
        let request = WriteRequest { path: path.clone(), text: self.text.clone() };
        self.source_path = Some(path);
        request
    }
}

} // verus!
