//! What dragging, naming and opening layers does.
use vstd::prelude::*;

use crate::arrange_laws::is_open;
use crate::commands::{Edit, EditorCommand, SelectionChange, ToolOutput};
use crate::layers::{has_chevron, node_name, LayerKind, RowLook};
use crate::model::{Document, NodeId, Parent};
use crate::propedit::NameEdit;
use crate::session::Session;
use crate::strings::trimmed;

verus! {

/// A dragged layer is dropped by the one command that was asked for, unless that changes
/// nothing or would put the layer onto or into itself or below itself; the drag ends in
/// any case.
pub proof fn law_layers_are_not_dropped_into_themselves(
    a: Session,
    b: Session,
    doc: Document,
    target: NodeId,
    parent: Parent,
    command: EditorCommand,
    noop: bool,
    r: Option<Edit>,
)
    requires
        doc.wf(),
        a.layer_drag is Some,
        exists|s: &mut Session| #[trigger]
            call_ensures(
                Session::finish_layer_drag,
                (s, &doc, Some((target, parent)), Some(command), noop),
                r,
            ) && *s == a && *final(s) == b,
    ensures
        ({
            let id = a.layer_drag->0.id;
            r is Some <==> !noop && id != target && !doc.ancestors(target).contains(id) && (
            parent matches Parent::Node(p) ==> p != id && !doc.ancestors(p).contains(id))
        }),
        r matches Some(e) ==> e.commands@ == seq![command] && e.select is None,
        b.layer_drag is None,
        b.selection == a.selection,
        b.dirty == a.dirty,
        forall|x: NodeId| #[trigger]
            b.expanded_layers@.contains(x) <==> a.expanded_layers@.contains(x) || (r is Some
                && a.layer_drag->0.as_child && x == target),
{
}

/// Letting a row go drops the layer by the command that was asked for, unless that
/// changes nothing or would put it as a child below itself.
pub proof fn law_rows_are_released(
    a: Session,
    b: Session,
    doc: Document,
    target: NodeId,
    command: EditorCommand,
    noop: bool,
    r: Option<Edit>,
)
    requires
        doc.wf(),
        a.layer_drag is Some,
        exists|s: &mut Session| #[trigger]
            call_ensures(
                Session::release_layer_row,
                (s, &doc, Some(target), Some(command), noop),
                r,
            ) && *s == a && *final(s) == b,
    ensures
        r is Some <==> !noop && !(a.layer_drag->0.as_child && doc.ancestors(target).contains(
            a.layer_drag->0.id,
        )),
        r matches Some(e) ==> e.commands@ == seq![command] && e.select is None,
        b.layer_drag is None,
        b.selection == a.selection,
{
}

/// A drag starts on the pressed row, selects the layer unless it is selected already, and
/// follows the pointer: only a group that is hovered far to the right takes it as a child.
pub proof fn law_drags_follow_the_pointer(
    a: Session,
    id: NodeId,
    row: usize,
    y: u32,
    row_y: u32,
)
    ensures
        forall|
            s: &mut Session,
            t: &mut Session,
            index: usize,
            kind: LayerKind,
            upper: bool,
            right: bool,
        |
            *s == a && *t == *final(s)
                && #[trigger] call_ensures(Session::begin_layer_drag, (s, id, row, y, row_y), ())
                && #[trigger] call_ensures(
                Session::drag_layer_over,
                (t, index, kind, upper, right),
                (),
            ) ==> {
                &&& (*final(s)).layer_drag matches Some(d) && d.id == id && d.hover_row == row
                    && d.press_index == row && !d.as_child
                &&& a.selection@.contains(id) ==> (*final(s)).selection@ == a.selection@
                &&& !a.selection@.contains(id) ==> (*final(s)).selection@ == seq![id]
                &&& (*final(t)).layer_drag matches Some(d) && d.id == id && d.hover_row == index
                    && d.press_index == row && d.before == upper && (d.as_child <==> kind is Group
                    && right) && d.press_window_y == y && d.grab_offset_y == row_y
                &&& (*final(t)).selection == (*final(s)).selection
            },
        a.layer_drag is None ==> forall|
            s: &mut Session,
            index: usize,
            kind: LayerKind,
            upper: bool,
            right: bool,
        |
            *s == a && #[trigger] call_ensures(
                Session::drag_layer_over,
                (s, index, kind, upper, right),
                (),
            ) ==> *final(s) == a,
{
}

/// A row looks selected where its layer is, and like a target where another layer is
/// dragged over it.
pub proof fn law_rows_look_like_what_they_are(a: Session, index: usize, id: NodeId, r: RowLook)
    requires
        call_ensures(Session::layer_row_look, (&a, index, id), r),
    ensures
        r is Selected <==> a.selection@.contains(id),
        r is DropTarget <==> !a.selection@.contains(id) && a.layer_drag is Some
            && a.layer_drag->0.hover_row == index && a.layer_drag->0.id != id,
{
}

/// A name that was typed for an open layer is its name once it is committed, trimmed,
/// unless nothing is left of it or it is the name already; a locked layer is not renamed.
pub proof fn law_renaming_writes_the_trimmed_name(
    a: Session,
    doc: Document,
    id: NodeId,
    name: &str,
    text: &str,
)
    requires
        a.renaming is None,
    ensures
        forall|s: &mut Session, t: &mut Session, u: &mut Session, r: Option<NameEdit>|
            *s == a && *t == *final(s) && *u == *final(t)
                && #[trigger] call_ensures(Session::begin_rename, (s, &doc, id, name), ())
                && #[trigger] call_ensures(Session::draft_rename, (t, text), ())
                && #[trigger] call_ensures(Session::commit_rename, (u, &doc), r) ==> {
                &&& r is Some <==> is_open(doc, id) && trimmed(text@).len() > 0 && trimmed(text@)
                    != doc.nodes()[id].name@
                &&& r matches Some(e) ==> e.id == id && e.name@ == trimmed(text@)
                &&& (*final(u)).renaming is None
                &&& (*final(u)).selection == a.selection && (*final(u)).dirty == a.dirty
            },
        forall|s: &mut Session, t: &mut Session|
            *s == a && *t == *final(s)
                && #[trigger] call_ensures(Session::begin_rename, (s, &doc, id, name), ())
                && #[trigger] call_ensures(Session::cancel_rename, (t,), ())
                    ==> (*final(t)).renaming is None,
        forall|s: &mut Session, r: Option<NameEdit>|
            *s == a && #[trigger] call_ensures(Session::commit_rename, (s, &doc), r) ==> r is None
                && *final(s) == a,
{
}

/// Opening a layer that is open closes it; two in a row change nothing, and no other
/// layer is touched.
pub proof fn law_opening_twice_changes_nothing(a: Session, id: NodeId)
    ensures
        forall|s: &mut Session, t: &mut Session|
            *s == a && *t == *final(s)
                && #[trigger] call_ensures(Session::toggle_expanded, (s, id), ())
                && #[trigger] call_ensures(Session::toggle_expanded, (t, id), ()) ==> {
                &&& (*final(s)).expanded_layers@.contains(id) <==> !a.expanded_layers@.contains(id)
                &&& forall|x: NodeId|
                    x != id ==> (#[trigger] (*final(s)).expanded_layers@.contains(x)
                        <==> a.expanded_layers@.contains(x))
                &&& (*final(t)).expanded_layers@ == a.expanded_layers@
            },
{
    assert forall|s: &mut Session, t: &mut Session|
        *s == a && *t == *final(s) && #[trigger] call_ensures(Session::toggle_expanded, (s, id), ())
            && #[trigger] call_ensures(Session::toggle_expanded, (t, id), ()) implies (*final(t)).expanded_layers@ == a.expanded_layers@ by {
        assert((*final(t)).expanded_layers@ =~= a.expanded_layers@);
    }
}

/// A press selects the layer alone, or toggles it with Shift or Ctrl; a menu keeps the
/// selection that the layer belongs to.
pub proof fn law_presses_select_the_layer(a: Session, doc: Document, id: NodeId)
    ensures
        forall|s: &mut Session, shift: bool, ctrl: bool, r: (Option<NameEdit>, ToolOutput)|
            *s == a && #[trigger] call_ensures(
                Session::press_layer_row,
                (s, &doc, id, shift, ctrl),
                r,
            ) ==> {
                &&& shift || ctrl ==> r.1 == ToolOutput::RequestSelection(
                    SelectionChange::Toggle(id),
                )
                &&& !shift && !ctrl ==> (r.1 matches ToolOutput::RequestSelection(
                    SelectionChange::Replace(ids),
                ) && ids@ == seq![id])
                &&& a.renaming is None ==> r.0 is None
                &&& forall|t: &mut Session, named: Option<NameEdit>|
                    *t == a && #[trigger] call_ensures(Session::commit_rename, (t, &doc), named)
                        ==> (r.0 is Some <==> named is Some) && (r.0 is Some ==> r.0->0.id
                        == named->0.id && r.0->0.name@ == named->0.name@)
                &&& (*final(s)).renaming is None
            },
        forall|s: &mut Session|
            *s == a && #[trigger] call_ensures(Session::select_for_menu, (s, id), ()) ==> {
                &&& (*final(s)).selection@.contains(id)
                &&& a.selection@.contains(id) ==> *final(s) == a
                &&& !a.selection@.contains(id) ==> (*final(s)).selection@ == seq![id]
            },
{
    assert(seq![id][0] == id);
}

/// An ancestor is one; a layer is called its name, or its key where it is gone; a chevron
/// stands at groups with children.
pub proof fn law_layer_facts(doc: Document, above: NodeId, id: NodeId, key: &str)
    requires
        doc.wf(),
    ensures
        forall|r: bool| #[trigger]
            call_ensures(Document::is_ancestor, (&doc, above, id), r) ==> (r
                <==> doc.ancestors(id).contains(above)),
        forall|r: String| #[trigger]
            call_ensures(node_name, (&doc, id, key), r) ==> {
                &&& doc.nodes().contains_key(id) ==> r@ == doc.nodes()[id].name@
                &&& !doc.nodes().contains_key(id) ==> r@ == key@
            },
        forall|kind: LayerKind, children: usize, r: bool| #[trigger]
            call_ensures(has_chevron, (kind, children), r) ==> (r <==> kind is Group && children
                > 0),
{
}

} // verus!
