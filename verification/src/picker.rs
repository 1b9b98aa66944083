//! The colour picker and the context menu.
use vstd::prelude::*;

use crate::commands::{EditorCommand, Message, Property};
use crate::gradients::STOPS;
use crate::model::{Document, Handle, NodeId, NodeKind, StyleKind};
use crate::session::{
    next_revision, ContextMenuSource, ContextMenuState, OpenPicker, PickerTarget, Session,
};

verus! {

/// What the host does about a colour that was picked.
#[derive(Clone, Copy, Debug, PartialEq, Eq)]
pub enum PickerWrite {
    Nothing,
    /// Open a transaction of this name, if one is given, carry out the command that
    /// writes the colour to the target, and evaluate the scene anew.
    Write { target: PickerTarget, begin: Option<&'static str> },
}

/// What the host does when a picked colour is kept.
#[derive(Clone, Copy, Debug, PartialEq, Eq, Structural)]
pub struct PickerCommit {
    pub commit: bool,
    pub add_swatch: bool,
}

/// The node and the property that a picker writes to; none for the current paint,
/// which is no part of the document.
pub open spec fn picked_property(doc: Document, target: PickerTarget) -> Option<(NodeId, Property)> {
    match target {
        PickerTarget::CurrentPaint => None,
        PickerTarget::StyleColor { style_id } => Some(
            (style_id, Property::Path(doc.color_property(style_id))),
        ),
        PickerTarget::GradientStop { style_id, .. } => Some((style_id, Property::Path(STOPS))),
        PickerTarget::Prop { id, path } => Some((id, Property::Listed(path))),
    }
}

/// How many colours the swatches hold.
pub const SWATCHES: usize = 12;

impl Session {
    /// The session after an open picker was cancelled: the paint that it changed
    /// is as it was before.
    pub open spec fn picker_cancelled(self) -> Session {
        match self.open_picker {
            Some(open) => Session {
                open_picker: None,
                current_paint: match open.cancel_current_paint {
                    Some(paint) => paint,
                    None => self.current_paint,
                },
                ..self
            },
            None => self,
        }
    }

    /// Cancels an open picker. Says whether the host cancels the history's
    /// transaction and evaluates the scene anew.
    fn cancel_open_picker_state(&mut self) -> (cancel: bool)
        ensures
            cancel == old(self).picker_writing(),
            *final(self) == old(self).picker_cancelled(),
    {
        match self.open_picker {
            Some(open) => {
                self.open_picker = None;
                if let Some(paint) = open.cancel_current_paint {
                    self.current_paint = paint;
                }
                open.transaction_open
            },
            None => false,
        }
    }

    /// Opens a context menu, in place of an open picker. Says whether the host
    /// cancels the picker's transaction.
    pub fn open_context_menu(&mut self, menu: ContextMenuState) -> (cancel: bool)
        ensures
            cancel == old(self).picker_writing(),
            *final(self) == (Session {
                context_menu: Some(menu),
                revision: next_revision(old(self).revision),
                ..old(self).picker_cancelled()
            }),
    {
        let cancel = self.cancel_open_picker_state();
        self.context_menu = Some(menu);
        self.repaint();
        cancel
    }

    pub open spec fn menu_closed(self) -> Session {
        if self.context_menu is Some {
            Session { context_menu: None, revision: next_revision(self.revision), ..self }
        } else {
            self
        }
    }

    pub fn close_context_menu(&mut self)
        ensures
            *final(self) == old(self).menu_closed(),
    {
        if self.context_menu.is_none() {
            return ;
        }
        self.context_menu = None;
        self.repaint();
    }

    /// Opens the picker. Says whether the host cancels the transaction of the one
    /// that was open.
    pub fn open_color_picker(&mut self, target: PickerTarget, color: Handle, anchor: Handle) -> (
        cancel: bool)
        ensures
            cancel == old(self).picker_writing(),
            ({
                let closed = old(self).menu_closed().picker_cancelled();
                *final(self) == (Session {
                    open_picker: Some(
                        OpenPicker {
                            target,
                            color,
                            anchor,
                            transaction_open: false,
                            cancel_current_paint: if target == PickerTarget::CurrentPaint {
                                Some(closed.current_paint)
                            } else {
                                None
                            },
                        },
                    ),
                    revision: next_revision(closed.revision),
                    ..closed
                })
            }),
    {
        self.close_context_menu();
        let cancel = self.cancel_open_picker_state();
        let cancel_current_paint = if target == PickerTarget::CurrentPaint {
            Some(self.current_paint)
        } else {
            None
        };
        self.open_picker =
        Some(
            OpenPicker { target, color, anchor, transaction_open: false, cancel_current_paint },
        );
        self.repaint();
        cancel
    }

    /// Closes the picker and takes back what it changed. Says whether the host
    /// cancels its transaction.
    pub fn close_color_picker(&mut self) -> (cancel: bool)
        ensures
            cancel == old(self).picker_writing(),
            *final(self) == (Session {
                revision: next_revision(old(self).revision),
                ..old(self).picker_cancelled()
            }),
    {
        let cancel = self.cancel_open_picker_state();
        self.repaint();
        cancel
    }

    /// A colour was picked. `paint` is the current paint with that colour,
    /// `transaction_open` says whether the history has a transaction open. A
    /// transaction that is not the picker's own is not written into.
    pub fn apply_picker_change(&mut self, paint: Handle, transaction_open: bool) -> (r: PickerWrite)
        ensures
            match old(self).open_picker {
                None => r == PickerWrite::Nothing && *final(self) == *old(self),
                Some(open) => if open.target == PickerTarget::CurrentPaint {
                    &&& r == PickerWrite::Nothing
                    &&& *final(self) == (Session {
                        current_paint: paint,
                        revision: next_revision(old(self).revision),
                        ..*old(self)
                    })
                } else if !open.transaction_open && transaction_open {
                    &&& r == PickerWrite::Nothing
                    &&& *final(self) == (Session {
                        status: Some(
                            Message::Fixed("Finish the active edit before changing a color"),
                        ),
                        ..*old(self)
                    })
                } else {
                    &&& r == (PickerWrite::Write {
                        target: open.target,
                        begin: if open.transaction_open {
                            None
                        } else {
                            Some("Edit color")
                        },
                    })
                    &&& *final(self) == (Session {
                        open_picker: Some(OpenPicker { transaction_open: true, ..open }),
                        revision: next_revision(old(self).revision),
                        ..*old(self)
                    })
                },
            },
    {
        let open = match self.open_picker {
            Some(open) => open,
            None => {
                return PickerWrite::Nothing;
            },
        };
        if open.target == PickerTarget::CurrentPaint {
            self.current_paint = paint;
            self.repaint();
            return PickerWrite::Nothing;
        }
        if !open.transaction_open && transaction_open {
            self.status = Some(Message::Fixed("Finish the active edit before changing a color"));
            return PickerWrite::Nothing;
        }
        self.open_picker =
        Some(
            OpenPicker {
                target: open.target,
                color: open.color,
                anchor: open.anchor,
                transaction_open: true,
                cancel_current_paint: open.cancel_current_paint,
            },
        );
        self.repaint();
        let begin = if open.transaction_open {
            None
        } else {
            Some("Edit color")
        };
        PickerWrite::Write { target: open.target, begin }
    }

    /// The write of a picked colour: a key while animating with the record button on,
    /// else a static value.
    pub open spec fn picked_write(
        &self,
        doc: Document,
        target: PickerTarget,
        value: Handle,
    ) -> Option<EditorCommand> {
        match picked_property(doc, target) {
            Some((id, prop)) => Some(
                EditorCommand::SetProperty { id, prop, value, keyed: self.writes_keys() },
            ),
            None => None,
        }
    }

    /// The command that writes a picked colour. `value` numbers the value that the
    /// target gets; there is none where a gradient stop is to be written and the
    /// style has no gradient.
    pub fn picker_command(
        &self,
        doc: &Document,
        target: PickerTarget,
        value: Option<Handle>,
    ) -> (r: Option<EditorCommand>)
        ensures
            r == (match value {
                Some(value) => self.picked_write(*doc, target, value),
                None => None,
            }),
    {
        let (id, prop) = match target {
            PickerTarget::CurrentPaint => {
                return None;
            },
            PickerTarget::StyleColor { style_id } => (
                style_id,
                Property::Path(doc.style_color_path(style_id)),
            ),
            PickerTarget::GradientStop { style_id, .. } => (style_id, Property::Path(STOPS)),
            PickerTarget::Prop { id, path } => (id, Property::Listed(path)),
        };
        match value {
            Some(value) => Some(
                EditorCommand::SetProperty { id, prop, value, keyed: self.record_for_writes() },
            ),
            None => None,
        }
    }

    /// The session after the open picker's colour was kept.
    pub open spec fn picker_kept(self) -> Session {
        match self.open_picker {
            None => self,
            Some(open) => Session {
                open_picker: Some(
                    if open.target == PickerTarget::CurrentPaint {
                        OpenPicker { cancel_current_paint: Some(self.current_paint), ..open }
                    } else {
                        OpenPicker { transaction_open: false, ..open }
                    },
                ),
                revision: next_revision(self.revision),
                ..self
            },
        }
    }

    /// Keeps the picked colour: cancelling does not take it back any more.
    pub fn commit_picker_color(&mut self) -> (r: PickerCommit)
        ensures
            *final(self) == old(self).picker_kept(),
            r == (PickerCommit {
                commit: old(self).picker_writing() && old(self).open_picker->0.target
                    != PickerTarget::CurrentPaint,
                add_swatch: old(self).open_picker is Some,
            }),
    {
        let open = match self.open_picker {
            Some(open) => open,
            None => {
                return PickerCommit { commit: false, add_swatch: false };
            },
        };
        let current = open.target == PickerTarget::CurrentPaint;
        if current {
            self.open_picker =
            Some(
                OpenPicker {
                    target: open.target,
                    color: open.color,
                    anchor: open.anchor,
                    transaction_open: open.transaction_open,
                    cancel_current_paint: Some(self.current_paint),
                },
            );
        } else {
            self.open_picker =
            Some(
                OpenPicker {
                    target: open.target,
                    color: open.color,
                    anchor: open.anchor,
                    transaction_open: false,
                    cancel_current_paint: open.cancel_current_paint,
                },
            );
        }
        self.repaint();
        PickerCommit { commit: open.transaction_open && !current, add_swatch: true }
    }

    /// Closes the picker and keeps what it wrote.
    pub fn finish_color_picker(&mut self) -> (r: PickerCommit)
        ensures
            r == (PickerCommit {
                commit: old(self).picker_writing() && old(self).open_picker->0.target
                    != PickerTarget::CurrentPaint,
                add_swatch: old(self).picker_writing(),
            }),
            *final(self) == (Session {
                open_picker: None,
                revision: if old(self).picker_writing() {
                    next_revision(next_revision(old(self).revision))
                } else {
                    next_revision(old(self).revision)
                },
                ..*old(self)
            }),
    {
        let writing = match self.open_picker {
            Some(open) => open.transaction_open,
            None => false,
        };
        let r = if writing {
            self.commit_picker_color()
        } else {
            PickerCommit { commit: false, add_swatch: false }
        };
        self.open_picker = None;
        self.repaint();
        r
    }

    /// Adds a colour to the swatches, which the host keeps. Says how many of them
    /// there may be.
    pub fn add_swatch(&mut self) -> (limit: usize)
        ensures
            limit == SWATCHES,
            *final(self) == (Session {
                revision: next_revision(old(self).revision),
                ..*old(self)
            }),
    {
        self.repaint();
        SWATCHES
    }

    /// The swatch button: closes an open picker, or opens one on the current
    /// paint. Says whether the host cancels a transaction.
    pub fn press_swatch(&mut self, color: Handle, anchor: Handle) -> (cancel: bool)
        ensures
            cancel == old(self).picker_writing(),
            if old(self).open_picker is Some {
                *final(self) == (Session {
                    revision: next_revision(old(self).revision),
                    ..old(self).picker_cancelled()
                })
            } else {
                let closed = old(self).menu_closed();
                *final(self) == (Session {
                    open_picker: Some(
                        OpenPicker {
                            target: PickerTarget::CurrentPaint,
                            color,
                            anchor,
                            transaction_open: false,
                            cancel_current_paint: Some(closed.current_paint),
                        },
                    ),
                    revision: next_revision(closed.revision),
                    ..closed
                })
            },
    {
        if self.open_picker.is_some() {
            self.close_color_picker()
        } else {
            self.open_color_picker(PickerTarget::CurrentPaint, color, anchor)
        }
    }
}

impl Document {
    /// The property that holds the colour of a style: the stroke's own for a
    /// stroke, else the fill's.
    pub open spec fn color_property(&self, style: NodeId) -> &'static str {
        if self.is_style(style, StyleKind::Stroke) {
            "stroke.color"
        } else {
            "fill.color"
        }
    }

    pub fn style_color_path(&self, style: NodeId) -> (r: &'static str)
        ensures
            r == self.color_property(style),
    {
        match self.get(style) {
            Some(n) => if n.kind == NodeKind::Style(StyleKind::Stroke) {
                "stroke.color"
            } else {
                "fill.color"
            },
            None => "fill.color",
        }
    }
}

/// An entry of the context menu.
#[derive(Clone, Copy, Debug, PartialEq, Eq, Structural)]
pub enum MenuAction {
    Rename,
    Copy,
    Cut,
    Paste,
    Duplicate,
    CenterPivot,
    /// Any other action, numbered by the host.
    Other(Handle),
}

/// What the host does about a picked menu entry; the menu is closed.
#[derive(Debug)]
pub enum MenuStep {
    Done,
    Copy,
    Cut,
    Paste,
    Duplicate,
    CenterPivot,
    /// Let the menu's own code turn the action into outputs, at the canvas point
    /// where the menu was opened, if it was opened there.
    Dispatch { action: Handle, at: Option<crate::session::GraphPoint> },
}

impl Session {
    /// The canvas point where the open menu was opened.
    pub open spec fn menu_point(&self) -> Option<crate::session::GraphPoint> {
        match self.context_menu {
            Some(ContextMenuState { source: ContextMenuSource::Canvas { world }, .. }) => Some(
                world,
            ),
            _ => None,
        }
    }

    /// Runs an entry of the open context menu. A rename starts on the layer row
    /// where the menu was opened.
    pub fn run_menu_action(&mut self, action: MenuAction, doc: &Document) -> (r: MenuStep)
        ensures
            r == (match action {
                MenuAction::Rename => MenuStep::Done,
                MenuAction::Copy => MenuStep::Copy,
                MenuAction::Cut => MenuStep::Cut,
                MenuAction::Paste => MenuStep::Paste,
                MenuAction::Duplicate => MenuStep::Duplicate,
                MenuAction::CenterPivot => MenuStep::CenterPivot,
                MenuAction::Other(action) => MenuStep::Dispatch {
                    action,
                    at: old(self).menu_point(),
                },
            }),
            match (action, old(self).context_menu) {
                (
                    MenuAction::Rename,
                    Some(ContextMenuState { source: ContextMenuSource::Layers { row }, .. }),
                ) => {
                    &&& final(self).renaming matches Some((id, name)) && id == row && name@ == (
                    if doc.has(row) {
                        doc.node(row).name@
                    } else {
                        Seq::empty()
                    })
                    &&& *final(self) == (Session {
                        renaming: final(self).renaming,
                        ..old(self).menu_closed()
                    })
                },
                _ => *final(self) == old(self).menu_closed(),
            },
    {
        let menu = self.context_menu;
        if matches!(action, MenuAction::Rename) {
            if let Some(ContextMenuState { source: ContextMenuSource::Layers { row }, .. }) = menu {
                let name = match doc.get(row) {
                    Some(n) => n.name.clone(),
                    None => String::new(),
                };
                self.renaming = Some((row, name));
            }
        }
        self.close_context_menu();
        match action {
            MenuAction::Rename => MenuStep::Done,
            MenuAction::Copy => MenuStep::Copy,
            MenuAction::Cut => MenuStep::Cut,
            MenuAction::Paste => MenuStep::Paste,
            MenuAction::Duplicate => MenuStep::Duplicate,
            MenuAction::CenterPivot => MenuStep::CenterPivot,
            MenuAction::Other(action) => {
                let at = match menu {
                    Some(ContextMenuState { source: ContextMenuSource::Canvas { world }, .. }) =>
                        Some(world),
                    _ => None,
                };
                MenuStep::Dispatch { action, at }
            },
        }
    }
}

} // verus!
