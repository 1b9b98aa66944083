//! The life of a project file: what waits behind the unsaved-changes question,
//! what a finished file operation does to the session, and what is asked of the
//! host's dialogs.
use vstd::prelude::*;
use vstd::string::StringExecFns;
use vstd::utf8::{decode_utf8, valid_utf8};

use crate::commands::{Applied, EditorCommand, Message};
use crate::font::{family_name, font_family_name};
use crate::machine::{InputValue, MachineId, MachineSelection};
use crate::model::{Handle, NodeId};
use crate::paths::{
    extension_is, file_name, file_part, file_stem, has_extension, is_binary, path_stem,
};
use crate::session::{next_revision, reads, ListenerDraft, PendingIntent, Session};
use crate::strings::{append_decimal, decimal, joined};

verus! {

broadcast use vstd::std_specs::hash::group_hash_axioms;

/// A JSON value.
#[verifier::external_type_specification]
#[verifier::external_body]
pub struct ExJsonValue(serde_json::Value);

/// The JSON value that these bytes spell, or what is wrong with them.
pub uninterp spec fn json_of(data: Seq<u8>) -> Result<serde_json::Value, Seq<char>>;

/// The indented text of a JSON value.
pub uninterp spec fn pretty_of(value: serde_json::Value) -> Result<Seq<u8>, Seq<char>>;

/// What is wrong with bytes that are not UTF-8.
pub uninterp spec fn utf8_error(data: Seq<u8>) -> Seq<char>;

/// `serde_json::from_slice` into a `serde_json::Value`: the value, or the error's
/// text, depends on the bytes alone.
#[verifier::external_body]
fn parse_json(data: &[u8]) -> (r: Result<serde_json::Value, String>)
    ensures
        match r {
            Ok(v) => json_of(data@) == Ok::<serde_json::Value, Seq<char>>(v),
            Err(e) => json_of(data@) == Err::<serde_json::Value, Seq<char>>(e@),
        },
{
    serde_json::from_slice(data).map_err(|e: serde_json::Error| e.to_string())
}

/// `serde_json::to_vec_pretty` of a `serde_json::Value`: the text, or the error's
/// text, depends on the value alone.
#[verifier::external_body]
fn pretty_json(value: &serde_json::Value) -> (r: Result<Vec<u8>, String>)
    ensures
        match r {
            Ok(v) => pretty_of(*value) == Ok::<Seq<u8>, Seq<char>>(v@),
            Err(e) => pretty_of(*value) == Err::<Seq<u8>, Seq<char>>(e@),
        },
{
    serde_json::to_vec_pretty(value).map_err(|e| e.to_string())
}

/// `std::str::from_utf8`: the text where the bytes are UTF-8, else the error's
/// text.
#[verifier::external_body]
fn utf8_text(data: &[u8]) -> (r: Result<&str, String>)
    ensures
        match r {
            Ok(s) => valid_utf8(data@) && s@ == decode_utf8(data@),
            Err(e) => !valid_utf8(data@) && e@ == utf8_error(data@),
        },
{
    std::str::from_utf8(data).map_err(|e| e.to_string())
}

/// `image::load_from_memory` and the decoded image's width and height, or the error's
/// text. Nothing is claimed of either: a process may add formats and decoders of its
/// own, and those come before the built-in ones. That a decoder comes back with an
/// image or an error on any bytes is taken on trust.
#[verifier::external_body]
fn decoded_size(data: &[u8]) -> (r: Result<(u32, u32), String>) {
    image::load_from_memory(data).map(|i| (i.width(), i.height())).map_err(|e| e.to_string())
}

/// A project that the host has read.
#[derive(Debug)]
pub struct OpenedFile {
    /// The host's number for the project.
    pub content: Handle,
    pub start_machine: Option<MachineId>,
    pub machine_order: Vec<MachineId>,
}

impl OpenedFile {
    /// The machine that is active when the project opens: the start machine, else
    /// the first one.
    pub open spec fn opening_machine(self) -> Option<MachineId> {
        match self.start_machine {
            Some(m) => Some(m),
            None => if self.machine_order@.len() > 0 {
                Some(self.machine_order@[0])
            } else {
                None
            },
        }
    }
}

/// An image of the project.
#[derive(Debug)]
pub struct ImageAsset {
    pub name: String,
    pub mime: &'static str,
    pub bytes: Vec<u8>,
    pub width: u32,
    pub height: u32,
    pub srgb: bool,
}

/// A font of the project.
#[derive(Debug)]
pub struct FontAsset {
    pub name: String,
    pub family: String,
    pub bytes: Vec<u8>,
}

/// A file operation that has finished outside.
#[allow(inconsistent_fields)]
#[derive(Debug)]
pub enum PendingFileOp {
    OpenDone {
        file: OpenedFile,
        path: Option<String>,
        message: &'static str,
        /// What an import could not carry over, for the status line.
        warnings: Vec<String>,
    },
    SaveOutcome { ok: bool, path: Option<String> },
    Exported,
    ExportFinished { message: Message },
    ExportPngReady { bytes: Vec<u8>, suggested_name: String },
    ImportFontDone { name: String, bytes: Vec<u8> },
    ImportImageDone { asset: ImageAsset },
    Failed { message: Message },
}

/// What the host does after a file operation.
#[allow(inconsistent_fields)]
#[derive(Debug)]
pub enum FileStep {
    Done,
    /// Start history, engine and timeline tools afresh on this project, fit the
    /// view and upload its images.
    Load { content: Handle },
    /// Run the waiting intent once every operation has been taken.
    RunIntent,
    /// Hand these bytes to the save dialog.
    SavePng { bytes: Vec<u8>, suggested_name: String },
    /// Add the font, last of all assets; the reply goes to `import_font`.
    AddFont { asset: FontAsset },
    /// Add the image, last of all assets; the reply goes to `import_image`.
    AddImage { asset: ImageAsset },
}

pub open spec fn texts(v: Seq<String>) -> Seq<Seq<char>> {
    Seq::new(v.len(), |i: int| v[i]@)
}

/// The parts with `"; "` between them.
pub open spec fn listed(parts: Seq<Seq<char>>) -> Seq<char>
    decreases parts.len(),
{
    if parts.len() == 0 {
        Seq::empty()
    } else if parts.len() == 1 {
        parts[0]
    } else {
        listed(parts.drop_last()) + "; "@ + parts.last()
    }
}

pub open spec fn shorter(a: int, b: int) -> int {
    if a < b {
        a
    } else {
        b
    }
}

/// The status after a project was opened with these warnings: at most three of
/// them are shown.
pub open spec fn opened_status(message: Seq<char>, warnings: Seq<Seq<char>>) -> Seq<char> {
    if warnings.len() == 0 {
        message
    } else {
        message + " ("@ + decimal(warnings.len()) + (if warnings.len() == 1 {
            " warning: "@
        } else {
            " warnings: "@
        }) + listed(warnings.take(shorter(3, warnings.len() as int))) + ")"@
    }
}

fn opened_message(message: &'static str, warnings: &Vec<String>) -> (r: Message)
    ensures
        r.text() == opened_status(message@, texts(warnings@)),
{
    if warnings.len() == 0 {
        return Message::Fixed(message);
    }
    let ghost all = texts(warnings@);
    let shown: usize = if warnings.len() < 3 {
        warnings.len()
    } else {
        3
    };
    let mut list = warnings[0].clone();
    let mut i: usize = 1;
    assert(all.take(1) =~= seq![all[0]]);
    while i < shown
        invariant
            1 <= i <= shown <= warnings@.len(),
            all == texts(warnings@),
            list@ == listed(all.take(i as int)),
        decreases shown - i,
    {
        assert(all.take(i + 1).drop_last() =~= all.take(i as int));
        assert(all.take(i + 1).last() == warnings@[i as int]@);
        list.append("; ");
        list.append(&warnings[i]);
        i = i + 1;
    }
    let mut out = joined(message, " (");
    append_decimal(&mut out, warnings.len() as u128);
    if warnings.len() == 1 {
        out.append(" warning: ");
    } else {
        out.append(" warnings: ");
    }
    out.append(&list);
    out.append(")");
    Message::Built(out)
}

/// `after` is `before` on another project.
pub open spec fn replaced(before: Session, file: OpenedFile, after: Session) -> bool {
    &&& after == (Session {
        welcome: false,
        selection: after.selection,
        open_picker: None,
        context_menu: None,
        clipboard: None,
        record: false,
        expanded_layers: after.expanded_layers,
        layer_drag: None,
        renaming: None,
        inspector_drag: None,
        active_machine: file.opening_machine(),
        machine_selection: MachineSelection::Nothing,
        machine_preview_inputs: after.machine_preview_inputs,
        machine_preview_enabled: false,
        machine_drag: None,
        machine_graph_gesture: None,
        listener_draft: ListenerDraft::empty(),
        dirty: false,
        exporting_png: false,
        revision: next_revision(before.revision),
        ..before
    })
    &&& after.selection@ == Seq::<NodeId>::empty()
    &&& after.expanded_layers@ == Set::<NodeId>::empty()
    &&& after.machine_preview_inputs@ == Seq::<InputValue>::empty()
}

/// `after` is `before` on a new project.
pub open spec fn begun(before: Session, file: OpenedFile, after: Session) -> bool {
    exists|mid: Session| #[trigger]
        replaced(before, file, mid) && after == (Session {
            welcome: true,
            current_path: None,
            status: Some(Message::Fixed("New document")),
            ..mid
        })
}

impl Session {
    /// The session while `intent` waits for the unsaved-changes question.
    pub open spec fn asked(self, intent: PendingIntent) -> Session {
        Session {
            pending_intent: Some(intent),
            revision: next_revision(self.revision),
            ..self
        }
    }

    /// The session after the waiting intent was dropped.
    pub open spec fn without_intent(self) -> Session {
        if self.pending_intent is Some {
            Session { pending_intent: None, revision: next_revision(self.revision), ..self }
        } else {
            self
        }
    }

    /// Puts another project in place of the open one.
    pub fn replace_file(&mut self, file: &OpenedFile)
        ensures
            replaced(*old(self), *file, *final(self)),
    {
        self.welcome = false;
        self.selection = Vec::new();
        self.open_picker = None;
        self.context_menu = None;
        self.clipboard = None;
        self.record = false;
        self.expanded_layers.clear();
        self.layer_drag = None;
        self.renaming = None;
        self.inspector_drag = None;
        self.active_machine = match file.start_machine {
            Some(m) => Some(m),
            None => if file.machine_order.len() > 0 {
                Some(file.machine_order[0])
            } else {
                None
            },
        };
        self.machine_selection = MachineSelection::Nothing;
        self.machine_preview_inputs = Vec::new();
        self.machine_preview_enabled = false;
        self.machine_drag = None;
        self.machine_graph_gesture = None;
        self.listener_draft = ListenerDraft::new();
        self.dirty = false;
        self.exporting_png = false;
        self.repaint();
    }

    /// The project is saved, at `path` where it has one.
    pub fn mark_saved(&mut self, path: Option<String>)
        ensures
            *final(self) == (Session {
                current_path: path,
                dirty: false,
                revision: next_revision(old(self).revision),
                ..*old(self)
            }),
    {
        self.current_path = path;
        self.dirty = false;
        self.repaint();
    }

    /// Shows a status of its own and asks for a frame.
    pub fn set_status(&mut self, message: Message)
        ensures
            *final(self) == (Session {
                status: Some(message),
                revision: next_revision(old(self).revision),
                ..*old(self)
            }),
    {
        self.status = Some(message);
        self.repaint();
    }

    /// Shows what went wrong.
    pub fn report_error(&mut self, error: &str)
        ensures
            reads(final(self).status, "Error: "@ + error@),
            *final(self) == (Session {
                status: final(self).status,
                revision: next_revision(old(self).revision),
                ..*old(self)
            }),
    {
        self.set_status(Message::Built(joined("Error: ", error)));
    }

    /// Lets `intent` wait for the unsaved-changes question, which the host shows.
    pub fn request_discard(&mut self, intent: PendingIntent)
        ensures
            *final(self) == old(self).asked(intent),
    {
        self.pending_intent = Some(intent);
        self.repaint();
    }

    /// The waiting intent, which no longer waits.
    pub fn take_pending_intent(&mut self) -> (r: Option<PendingIntent>)
        ensures
            r == old(self).pending_intent,
            *final(self) == (Session { pending_intent: None, ..*old(self) }),
    {
        let intent = self.pending_intent;
        self.pending_intent = None;
        intent
    }

    /// Drops the waiting intent.
    pub fn clear_pending_intent(&mut self)
        ensures
            *final(self) == old(self).without_intent(),
    {
        if self.take_pending_intent().is_some() {
            self.repaint();
        }
    }

    /// Whether `intent` may go ahead at once. Where there are unsaved changes it
    /// waits, and the host asks what to do with them.
    pub fn request_guard(&mut self, intent: PendingIntent) -> (r: bool)
        ensures
            r == !old(self).dirty,
            r ==> *final(self) == *old(self),
            !r ==> *final(self) == old(self).asked(intent),
    {
        if !self.dirty {
            return true;
        }
        self.request_discard(intent);
        false
    }

    /// The question was answered with Save, and the project was written or not:
    /// what to run now.
    pub fn discard_save(&mut self, written: bool) -> (r: Option<PendingIntent>)
        ensures
            written ==> r == old(self).pending_intent && *final(self) == (Session {
                pending_intent: None,
                ..*old(self)
            }),
            !written ==> r is None && *final(self) == old(self).without_intent(),
    {
        if written {
            self.take_pending_intent()
        } else {
            self.clear_pending_intent();
            None
        }
    }

    /// The question was answered with Discard: what to run now.
    pub fn discard_discard(&mut self) -> (r: Option<PendingIntent>)
        ensures
            r == old(self).pending_intent,
            *final(self) == (Session { pending_intent: None, ..*old(self) }),
    {
        self.take_pending_intent()
    }

    /// The question was answered with Cancel.
    pub fn discard_cancel(&mut self)
        ensures
            *final(self) == old(self).without_intent(),
    {
        self.clear_pending_intent();
    }

    /// Takes over a new project, past the question.
    pub fn new_document_inner(&mut self, file: &OpenedFile)
        ensures
            begun(*old(self), *file, *final(self)),
    {
        self.replace_file(file);
        let ghost mid = *self;
        self.welcome = true;
        self.current_path = None;
        self.status = Some(Message::Fixed("New document"));
        assert(replaced(*old(self), *file, mid));
    }

    /// Takes over a new project, unless there are unsaved changes: then it waits for
    /// the question. Whether it went ahead.
    pub fn new_document(&mut self, file: &OpenedFile) -> (r: bool)
        ensures
            r == !old(self).dirty,
            r ==> begun(*old(self), *file, *final(self)),
            !r ==> *final(self) == old(self).asked(PendingIntent::New),
    {
        if !self.request_guard(PendingIntent::New) {
            return false;
        }
        self.new_document_inner(file);
        true
    }

    /// Takes over a project built from a template; it is unsaved.
    pub fn template_loaded(&mut self, file: &OpenedFile, title: &str)
        ensures
            reads(final(self).status, "Created from \""@ + title@ + "\""@),
            exists|mid: Session| #[trigger]
                replaced(*old(self), *file, mid) && *final(self) == (Session {
                    current_path: None,
                    dirty: true,
                    status: final(self).status,
                    ..mid
                }),
    {
        self.replace_file(file);
        let ghost mid = *self;
        self.current_path = None;
        self.dirty = true;
        let mut text = joined("Created from \"", title);
        text.append("\"");
        self.status = Some(Message::Built(text));
        assert(replaced(*old(self), *file, mid));
    }

    /// Takes one finished file operation.
    pub fn file_op_arrived(&mut self, op: PendingFileOp) -> (r: FileStep)
        ensures
            match op {
                PendingFileOp::OpenDone { file, path, message, warnings } => {
                    &&& r == (FileStep::Load { content: file.content })
                    &&& reads(final(self).status, opened_status(message@, texts(warnings@)))
                    &&& exists|mid: Session| #[trigger]
                        replaced(*old(self), file, mid) && *final(self) == (Session {
                            current_path: path,
                            status: final(self).status,
                            ..mid
                        })
                },
                PendingFileOp::SaveOutcome { ok: true, path } => {
                    &&& r == (if old(self).pending_intent is Some {
                        FileStep::RunIntent
                    } else {
                        FileStep::Done
                    })
                    &&& *final(self) == (Session {
                        current_path: path,
                        dirty: false,
                        status: Some(Message::Fixed("Saved")),
                        revision: next_revision(old(self).revision),
                        ..*old(self)
                    })
                },
                PendingFileOp::SaveOutcome { ok: false, .. } => {
                    &&& r == FileStep::Done
                    &&& *final(self) == old(self).without_intent().refused("Save canceled")
                },
                PendingFileOp::Exported => {
                    &&& r == FileStep::Done
                    &&& *final(self) == old(self).refused("Exported")
                },
                PendingFileOp::ExportFinished { message } => {
                    &&& r == FileStep::Done
                    &&& *final(self) == (Session {
                        exporting_png: false,
                        status: Some(message),
                        revision: next_revision(old(self).revision),
                        ..*old(self)
                    })
                },
                PendingFileOp::ExportPngReady { bytes, suggested_name } => {
                    &&& r == (FileStep::SavePng { bytes, suggested_name })
                    &&& *final(self) == (Session {
                        exporting_png: false,
                        revision: next_revision(old(self).revision),
                        ..*old(self)
                    })
                },
                PendingFileOp::ImportFontDone { name, bytes } => {
                    &&& r matches FileStep::AddFont { asset }
                    &&& is_font_asset(asset, name@, bytes@)
                    &&& *final(self) == *old(self)
                },
                PendingFileOp::ImportImageDone { asset } => {
                    &&& r == (FileStep::AddImage { asset })
                    &&& *final(self) == *old(self)
                },
                PendingFileOp::Failed { message } => {
                    let mid = old(self).without_intent();
                    &&& r == FileStep::Done
                    &&& reads(final(self).status, "Error: "@ + message.text())
                    &&& *final(self) == (Session {
                        exporting_png: false,
                        status: final(self).status,
                        revision: next_revision(mid.revision),
                        ..mid
                    })
                },
            },
    {
        match op {
            PendingFileOp::OpenDone { file, path, message, warnings } => {
                self.replace_file(&file);
                let ghost mid = *self;
                self.current_path = path;
                self.status = Some(opened_message(message, &warnings));
                assert(replaced(*old(self), file, mid));
                FileStep::Load { content: file.content }
            },
            PendingFileOp::SaveOutcome { ok, path } => {
                if ok {
                    self.mark_saved(path);
                    self.status = Some(Message::Fixed("Saved"));
                    if self.pending_intent.is_some() {
                        return FileStep::RunIntent;
                    }
                } else {
                    self.clear_pending_intent();
                    self.refuse("Save canceled");
                }
                FileStep::Done
            },
            PendingFileOp::Exported => {
                self.refuse("Exported");
                FileStep::Done
            },
            PendingFileOp::ExportFinished { message } => {
                self.exporting_png = false;
                self.set_status(message);
                FileStep::Done
            },
            PendingFileOp::ExportPngReady { bytes, suggested_name } => {
                self.exporting_png = false;
                self.repaint();
                FileStep::SavePng { bytes, suggested_name }
            },
            PendingFileOp::ImportFontDone { name, bytes } => {
                FileStep::AddFont { asset: font_asset(name, bytes) }
            },
            PendingFileOp::ImportImageDone { asset } => FileStep::AddImage { asset },
            PendingFileOp::Failed { message } => {
                self.clear_pending_intent();
                self.exporting_png = false;
                let text = message.to_text();
                self.report_error(&text);
                FileStep::Done
            },
        }
    }

    /// Takes the reply to the addition of a font.
    pub fn import_font(&mut self, reply: Result<Applied, String>, family: &str)
        ensures
            match reply {
                Ok(Applied { created: Some(_), .. }) => {
                    &&& reads(final(self).status, "Imported font: "@ + family@)
                    &&& *final(self) == (Session {
                        dirty: true,
                        status: final(self).status,
                        revision: next_revision(old(self).revision),
                        ..*old(self)
                    })
                },
                Ok(_) => *final(self) == (Session { dirty: true, ..*old(self) }).refused(
                    "Font import failed",
                ),
                Err(_) => *final(self) == old(self).refused("Font import failed"),
            },
    {
        if self.history_apply(reply).is_none() {
            self.refuse("Font import failed");
            return;
        }
        self.set_status(Message::Built(joined("Imported font: ", family)));
    }

    /// Takes the reply to the addition of an image. Whether the host uploads the
    /// project's images.
    pub fn import_image(&mut self, reply: Result<Applied, String>, name: &str) -> (r: bool)
        ensures
            r == (reply is Ok),
            r ==> reads(final(self).status, "Imported image: "@ + name@) && *final(self) == (
            Session {
                dirty: true,
                status: final(self).status,
                revision: next_revision(old(self).revision),
                ..*old(self)
            }),
            !r ==> *final(self) == old(self).refused("Image import failed"),
    {
        if self.history_apply_full(reply).is_none() {
            self.refuse("Image import failed");
            return false;
        }
        self.set_status(Message::Built(joined("Imported image: ", name)));
        true
    }

    /// The name that the project goes by: its file's name, else its own.
    pub open spec fn shown_name(self, meta_name: Seq<char>) -> Seq<char> {
        match self.current_path {
            Some(p) => match file_part(p@) {
                Some(n) => n,
                None => meta_name,
            },
            None => meta_name,
        }
    }

    /// The stem of the project's file, else its own name.
    pub open spec fn shown_stem(self, meta_name: Seq<char>) -> Seq<char> {
        match self.current_path {
            Some(p) => match path_stem(p@) {
                Some(n) if n.len() > 0 => n,
                _ => meta_name,
            },
            None => meta_name,
        }
    }

    /// The stem of the project's file, else its own name.
    pub fn document_stem(&self, meta_name: &str) -> (r: String)
        ensures
            r@ == self.shown_stem(meta_name@),
    {
        if let Some(p) = &self.current_path {
            if let Some(stem) = file_stem(p) {
                if stem.unicode_len() > 0 {
                    return stem.to_owned();
                }
            }
        }
        meta_name.to_owned()
    }

    /// The file name to offer for a copy with this extension (which brings its
    /// dot).
    pub fn suggested_name(&self, meta_name: &str, extension: &str) -> (r: String)
        ensures
            r@ == self.shown_stem(meta_name@) + extension@,
    {
        let mut out = self.document_stem(meta_name);
        out.append(extension);
        out
    }

    /// The title of the window: the project's name, with a star while it has
    /// unsaved changes.
    pub fn window_title(&self, meta_name: &str) -> (r: String)
        ensures
            r@ == (if self.dirty {
                self.shown_name(meta_name@) + " *"@
            } else {
                self.shown_name(meta_name@)
            }),
    {
        let mut name = meta_name.to_owned();
        if let Some(p) = &self.current_path {
            if let Some(n) = file_name(p) {
                name = n.to_owned();
            }
        }
        if self.dirty {
            name.append(" *");
        }
        name
    }

    /// The line below the title: the status, else the path, else that there is
    /// none.
    pub fn window_subtitle(&self) -> (r: String)
        ensures
            r@ == (match self.status {
                Some(m) => m.text(),
                None => match self.current_path {
                    Some(p) => p@,
                    None => "Unsaved"@,
                },
            }),
    {
        match &self.status {
            Some(m) => m.to_text(),
            None => match &self.current_path {
                Some(p) => p.clone(),
                None => "Unsaved".to_owned(),
            },
        }
    }

    /// Where Save writes to.
    pub fn save_target(&self, meta_name: &str) -> (r: SaveTarget)
        ensures
            match self.current_path {
                Some(p) => r matches SaveTarget::Write { path, binary } && path@ == p@ && binary
                    == has_extension(p@, "renb"@),
                None => r matches SaveTarget::Ask { suggested } && suggested@ == self.shown_stem(
                    meta_name@,
                ) + ".ren"@,
            },
    {
        match &self.current_path {
            Some(p) => SaveTarget::Write { path: p.clone(), binary: is_binary(p) },
            None => SaveTarget::Ask { suggested: self.suggested_name(meta_name, ".ren") },
        }
    }

    /// Takes what came of writing the project to `path`. Whether it was written.
    pub fn save_finished(&mut self, path: String, result: Result<(), String>) -> (r: bool)
        ensures
            r == (result is Ok),
            match result {
                Ok(_) => *final(self) == (Session {
                    current_path: Some(path),
                    dirty: false,
                    revision: next_revision(old(self).revision),
                    ..*old(self)
                }).refused("Saved"),
                Err(e) => reads(final(self).status, "Error: "@ + e@) && *final(self) == (Session {
                    status: final(self).status,
                    revision: next_revision(old(self).revision),
                    ..*old(self)
                }),
            },
    {
        match result {
            Ok(_) => {
                self.mark_saved(Some(path));
                self.refuse("Saved");
                true
            },
            Err(e) => {
                self.report_error(&e);
                false
            },
        }
    }

    /// Whether a PNG export may begin.
    pub fn may_export_png(&mut self) -> (r: bool)
        ensures
            r == !old(self).exporting_png,
            r ==> *final(self) == *old(self),
            !r ==> *final(self) == old(self).refused("PNG export already in progress"),
    {
        if self.exporting_png {
            self.refuse("PNG export already in progress");
            return false;
        }
        true
    }

    /// Takes whether the frame could be prepared. Whether the rendering goes ahead.
    pub fn png_prepared(&mut self, result: Result<(), String>) -> (r: bool)
        ensures
            r == (result is Ok),
            match result {
                Ok(_) => *final(self) == (Session { exporting_png: true, ..*old(self) }).refused(
                    "Rendering PNG…",
                ),
                Err(e) => reads(final(self).status, "Error: "@ + e@) && *final(self) == (Session {
                    status: final(self).status,
                    revision: next_revision(old(self).revision),
                    ..*old(self)
                }),
            },
    {
        match result {
            Ok(_) => {
                self.exporting_png = true;
                self.refuse("Rendering PNG…");
                true
            },
            Err(e) => {
                self.report_error(&e);
                false
            },
        }
    }

    /// Takes what came of writing an SVG frame to `path`.
    pub fn svg_written(&mut self, path: &str, result: Result<(), String>)
        ensures
            match result {
                Ok(_) => reads(final(self).status, "Exported "@ + path@),
                Err(e) => reads(final(self).status, "Error: "@ + e@),
            },
            *final(self) == (Session {
                status: final(self).status,
                revision: next_revision(old(self).revision),
                ..*old(self)
            }),
    {
        match result {
            Ok(_) => self.set_status(Message::Built(joined("Exported ", path))),
            Err(e) => self.report_error(&e),
        }
    }
}

/// Where Save writes to.
#[allow(inconsistent_fields)]
#[derive(Debug)]
pub enum SaveTarget {
    Write { path: String, binary: bool },
    /// Ask for a path, offering this name.
    Ask { suggested: String },
}

/// The command that adds an asset, which the host keeps under a number, last of all.
pub fn add_asset(asset: Handle) -> (r: EditorCommand)
    ensures
        r == (EditorCommand::AddAsset { index: usize::MAX, asset }),
{
    EditorCommand::AddAsset { index: usize::MAX, asset }
}

/// The family that an imported font is known by: its own, else the stem of its
/// file, else a fixed one.
pub open spec fn imported_family(name: Seq<char>, own: Option<Seq<char>>) -> Seq<char> {
    match own {
        Some(f) => f,
        None => match path_stem(name) {
            Some(s) => s,
            None => "ImportedFont"@,
        },
    }
}

pub open spec fn is_font_asset(asset: FontAsset, name: Seq<char>, bytes: Seq<u8>) -> bool {
    &&& asset.name@ == name
    &&& asset.bytes@ == bytes
    &&& asset.family@ == imported_family(name, family_name(bytes))
}

/// The family that an imported font is known by, given its own.
pub fn font_family(name: &str, own: Option<String>) -> (r: String)
    ensures
        r@ == imported_family(
            name@,
            match own {
                Some(s) => Some(s@),
                None => None,
            },
        ),
{
    match own {
        Some(f) => f,
        None => match file_stem(name) {
            Some(s) => s.to_owned(),
            None => "ImportedFont".to_owned(),
        },
    }
}

/// The asset for an imported font file.
pub fn font_asset(name: String, bytes: Vec<u8>) -> (r: FontAsset)
    ensures
        is_font_asset(r, name@, bytes@),
{
    let family = font_family(&name, font_family_name(&bytes));
    FontAsset { name, family, bytes }
}

/// What kind of image a file name stands for.
pub open spec fn mime_of(name: Seq<char>) -> &'static str {
    if has_extension(name, "png"@) {
        "image/png"
    } else if has_extension(name, "jpg"@) || has_extension(name, "jpeg"@) {
        "image/jpeg"
    } else if has_extension(name, "webp"@) {
        "image/webp"
    } else {
        "application/octet-stream"
    }
}

/// What kind of image a file name stands for.
pub fn mime_for(name: &str) -> (r: &'static str)
    ensures
        r == mime_of(name@),
{
    if extension_is(name, "png") {
        "image/png"
    } else if extension_is(name, "jpg") || extension_is(name, "jpeg") {
        "image/jpeg"
    } else if extension_is(name, "webp") {
        "image/webp"
    } else {
        "application/octet-stream"
    }
}

/// The asset for an image of known size.
pub open spec fn image_of(name: String, bytes: Vec<u8>, size: (u32, u32)) -> ImageAsset {
    ImageAsset { name, mime: mime_of(name@), bytes, width: size.0, height: size.1, srgb: true }
}

/// The asset for an image of known size.
pub fn image_asset(name: String, bytes: Vec<u8>, width: u32, height: u32) -> (r: ImageAsset)
    ensures
        r == image_of(name, bytes, (width, height)),
{
    let mime = mime_for(&name);
    ImageAsset { name, mime, bytes, width, height, srgb: true }
}

/// The asset for an image file, where it could be decoded: `size` is what the decoder
/// says.
pub fn decoded_asset(name: String, bytes: Vec<u8>, size: Result<(u32, u32), String>) -> (r: Result<
    ImageAsset,
    String,
>)
    ensures
        match size {
            Ok(size) => r == Ok::<ImageAsset, String>(image_of(name, bytes, size)),
            Err(e) => r == Err::<ImageAsset, String>(e),
        },
{
    match size {
        Ok((width, height)) => Ok(image_asset(name, bytes, width, height)),
        Err(e) => Err(e),
    }
}

/// The asset for an image file, where it can be decoded. Which files can be, and what
/// size they have, the decoder alone decides.
pub fn image_asset_from_bytes(name: String, bytes: Vec<u8>) -> (r: Result<ImageAsset, String>)
    ensures
        r matches Ok(asset) ==> asset == image_of(name, bytes, (asset.width, asset.height)),
{
    let size = decoded_size(&bytes);
    decoded_asset(name, bytes, size)
}

/// What a project file holds.
#[derive(Debug)]
pub enum RenSource {
    /// A packed project: the bytes as they are.
    Binary,
    Text(String),
}

/// How a project file is to be read: its name says whether it is packed, and an
/// unpacked one must be text.
pub fn ren_source(name: &str, data: &[u8]) -> (r: Result<RenSource, String>)
    ensures
        if has_extension(name@, "renb"@) {
            r == Ok::<RenSource, String>(RenSource::Binary)
        } else if valid_utf8(data@) {
            r matches Ok(RenSource::Text(s)) && s@ == decode_utf8(data@)
        } else {
            r matches Err(e) && e@ == utf8_error(data@)
        },
{
    if is_binary(name) {
        return Ok(RenSource::Binary);
    }
    match utf8_text(data) {
        Ok(s) => Ok(RenSource::Text(s.to_owned())),
        Err(e) => Err(e),
    }
}

/// The name of an imported project: the stem of its file, where there is one.
pub open spec fn imported_name(name: Seq<char>) -> Seq<char> {
    match path_stem(name) {
        Some(s) => s,
        None => "Imported"@,
    }
}

/// The name of an imported project.
pub fn import_stem(name: &str) -> (r: String)
    ensures
        r@ == imported_name(name@),
{
    match file_stem(name) {
        Some(s) => s.to_owned(),
        None => "Imported".to_owned(),
    }
}

/// A Lottie file on its way into a project.
pub struct LottieSource {
    pub json: serde_json::Value,
    pub name: String,
}

/// Reads a Lottie file, which must be JSON.
pub fn lottie_source(name: &str, data: &[u8]) -> (r: Result<LottieSource, String>)
    ensures
        match r {
            Ok(s) => json_of(data@) == Ok::<serde_json::Value, Seq<char>>(s.json) && s.name@
                == imported_name(name@),
            Err(e) => json_of(data@) == Err::<serde_json::Value, Seq<char>>(e@),
        },
{
    match parse_json(data) {
        Ok(json) => Ok(LottieSource { json, name: import_stem(name) }),
        Err(e) => Err(e),
    }
}

/// The bytes of an exported Lottie file.
pub fn lottie_bytes(value: &serde_json::Value) -> (r: Result<Vec<u8>, String>)
    ensures
        match r {
            Ok(v) => pretty_of(*value) == Ok::<Seq<u8>, Seq<char>>(v@),
            Err(e) => pretty_of(*value) == Err::<Seq<u8>, Seq<char>>(e@),
        },
{
    pretty_json(value)
}

/// What an import reads.
#[derive(Clone, Copy, Debug, PartialEq, Eq, Structural)]
pub enum ImportKind {
    Lottie,
    Svg,
}

/// The operation that a project file leads to.
pub fn open_result(result: Result<OpenedFile, String>, path: Option<String>) -> (r: PendingFileOp)
    ensures
        match result {
            Ok(f) => r matches PendingFileOp::OpenDone { file, path: p, message, warnings } && file
                == f && p == path && message == "Opened" && warnings@ == Seq::<String>::empty(),
            Err(e) => r matches PendingFileOp::Failed { message } && message.text()
                == "Open failed: "@ + e@,
        },
{
    match result {
        Ok(file) => PendingFileOp::OpenDone {
            file,
            path,
            message: "Opened",
            warnings: Vec::new(),
        },
        Err(e) => PendingFileOp::Failed { message: Message::Built(joined("Open failed: ", &e)) },
    }
}

/// The operation that an imported file leads to; it has no path of its own yet.
pub fn import_result(
    kind: ImportKind,
    result: Result<OpenedFile, String>,
    warnings: Vec<String>,
) -> (r: PendingFileOp)
    ensures
        match result {
            Ok(file) => r == (PendingFileOp::OpenDone {
                file,
                path: None,
                message: (match kind {
                    ImportKind::Lottie => "Imported Lottie",
                    ImportKind::Svg => "Imported SVG",
                }),
                warnings,
            }),
            Err(e) => r matches PendingFileOp::Failed { message } && message.text()
                == "Import failed: "@ + e@,
        },
{
    match result {
        Ok(file) => PendingFileOp::OpenDone {
            file,
            path: None,
            message: match kind {
                ImportKind::Lottie => "Imported Lottie",
                ImportKind::Svg => "Imported SVG",
            },
            warnings,
        },
        Err(e) => PendingFileOp::Failed { message: Message::Built(joined("Import failed: ", &e)) },
    }
}

/// The operation that a picked font file leads to.
pub fn font_result(name: Option<String>, read: Result<Vec<u8>, String>) -> (r: PendingFileOp)
    ensures
        match read {
            Ok(data) => r matches PendingFileOp::ImportFontDone { name: n, bytes } && bytes == data
                && n@ == (match name {
                Some(s) => s@,
                None => "Font"@,
            }),
            Err(e) => r matches PendingFileOp::Failed { message } && message.text()
                == "Font import failed: "@ + e@,
        },
{
    match read {
        Ok(bytes) => PendingFileOp::ImportFontDone {
            name: match name {
                Some(s) => s,
                None => "Font".to_owned(),
            },
            bytes,
        },
        Err(e) => PendingFileOp::Failed {
            message: Message::Built(joined("Font import failed: ", &e)),
        },
    }
}

/// The operation that a decoded image leads to.
pub fn image_result(result: Result<ImageAsset, String>) -> (r: PendingFileOp)
    ensures
        match result {
            Ok(asset) => r == (PendingFileOp::ImportImageDone { asset }),
            Err(e) => r matches PendingFileOp::Failed { message } && message.text()
                == "Image import failed: "@ + e@,
        },
{
    match result {
        Ok(asset) => PendingFileOp::ImportImageDone { asset },
        Err(e) => PendingFileOp::Failed {
            message: Message::Built(joined("Image import failed: ", &e)),
        },
    }
}

/// The name of a picked image file.
pub open spec fn image_title(name: Option<String>) -> Seq<char> {
    match name {
        Some(s) => s@,
        None => "Image"@,
    }
}

/// The operation that a picked image file leads to, once it is read. What the decoder
/// makes of the bytes decides between the asset and the refusal.
pub fn image_picked(name: Option<String>, read: Result<Vec<u8>, String>) -> (r: PendingFileOp)
    ensures
        match read {
            Ok(data) => match r {
                PendingFileOp::ImportImageDone { asset } => asset.name@ == image_title(name)
                    && asset == image_of(asset.name, data, (asset.width, asset.height)),
                PendingFileOp::Failed { message } => exists|e: Seq<char>|
                    message.text() == #[trigger] ("Image import failed: "@ + e),
                _ => false,
            },
            Err(e) => r matches PendingFileOp::Failed { message } && message.text()
                == "Image import failed: "@ + e@,
        },
{
    let name = match name {
        Some(s) => s,
        None => "Image".to_owned(),
    };
    match read {
        Ok(bytes) => image_result(image_asset_from_bytes(name, bytes)),
        Err(e) => image_result(Err(e)),
    }
}

/// What a panic said.
pub open spec fn panic_text(payload: Option<Seq<char>>) -> Seq<char> {
    match payload {
        Some(s) => s,
        None => "<non-string panic payload>"@,
    }
}

/// What a panic said, where it said anything.
pub fn panic_payload(payload: Option<&str>) -> (r: String)
    ensures
        r@ == panic_text(
            match payload {
                Some(s) => Some(s@),
                None => None,
            },
        ),
{
    match payload {
        Some(s) => s.to_owned(),
        None => "<non-string panic payload>".to_owned(),
    }
}

/// What came of a rendering.
#[derive(Debug)]
pub enum Rendering {
    /// The file was written, or not.
    Written(Result<(), String>),
    /// The image stands ready for the save dialog.
    Ready(Vec<u8>),
    Failed(String),
    /// The renderer panicked, with this text if it was one.
    Panicked(Option<String>),
}

/// The operation that a PNG rendering leads to. `target` is the path it was
/// written to, or the name to offer.
pub fn png_result(rendering: Rendering, target: String) -> (r: PendingFileOp)
    ensures
        match rendering {
            Rendering::Written(Ok(_)) => r matches PendingFileOp::ExportFinished { message }
                && message.text() == "Exported "@ + target@,
            Rendering::Written(Err(e)) | Rendering::Failed(e) => r matches PendingFileOp::Failed {
                message,
            } && message.text() == "PNG export failed: "@ + e@,
            Rendering::Ready(bytes) => r == (PendingFileOp::ExportPngReady {
                bytes,
                suggested_name: target,
            }),
            Rendering::Panicked(p) => r matches PendingFileOp::Failed { message } && message.text()
                == "PNG export failed: "@ + panic_text(
                match p {
                    Some(s) => Some(s@),
                    None => None,
                },
            ),
        },
{
    let failure = match rendering {
        Rendering::Written(Ok(_)) => {
            return PendingFileOp::ExportFinished {
                message: Message::Built(joined("Exported ", &target)),
            };
        },
        Rendering::Ready(bytes) => {
            return PendingFileOp::ExportPngReady { bytes, suggested_name: target };
        },
        Rendering::Written(Err(e)) => e,
        Rendering::Failed(e) => e,
        Rendering::Panicked(Some(s)) => panic_payload(Some(&s)),
        Rendering::Panicked(None) => panic_payload(None),
    };
    PendingFileOp::Failed { message: Message::Built(joined("PNG export failed: ", &failure)) }
}

/// The operation after the save dialog took a PNG or not.
pub fn png_saved(ok: bool) -> (r: PendingFileOp)
    ensures
        r == (PendingFileOp::ExportFinished {
            message: Message::Fixed(
                if ok {
                    "Exported PNG"
                } else {
                    "PNG export canceled"
                },
            ),
        }),
{
    PendingFileOp::ExportFinished {
        message: Message::Fixed(
            if ok {
                "Exported PNG"
            } else {
                "PNG export canceled"
            },
        ),
    }
}

/// The operation after the save dialog took a Lottie file or not.
pub fn lottie_saved(ok: bool) -> (r: PendingFileOp)
    ensures
        r == (if ok {
            PendingFileOp::Exported
        } else {
            PendingFileOp::Failed { message: Message::Fixed("Lottie export cancelled or failed") }
        }),
{
    if ok {
        PendingFileOp::Exported
    } else {
        PendingFileOp::Failed { message: Message::Fixed("Lottie export cancelled or failed") }
    }
}

/// The operation after the save dialog took an SVG frame or not.
pub fn svg_saved(ok: bool) -> (r: Option<PendingFileOp>)
    ensures
        r == (if ok {
            Some(PendingFileOp::Exported)
        } else {
            None
        }),
{
    if ok {
        Some(PendingFileOp::Exported)
    } else {
        None
    }
}

/// The unsaved-changes question answered with Cancel leaves the session as it was
/// before it was asked, but for the frames drawn meanwhile and an intent that
/// waited already.
pub proof fn law_cancel_undoes_the_question(before: Session, intent: PendingIntent)
    ensures
        before.asked(intent).without_intent() == (Session {
            pending_intent: None,
            revision: next_revision(next_revision(before.revision)),
            ..before
        }),
{
}

} // verus!
