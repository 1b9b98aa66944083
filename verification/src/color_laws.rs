//! What the colour picker keeps, writes and gives back, and how gradients get stops.
use vstd::prelude::*;

use crate::colors::{bytes_len, hex_has_alpha, without_signs, ParsedHex, PickerState, Strip};
use crate::commands::{Edit, EditorCommand, Property};
use crate::gradients::{insert_gradient_stop, stop_order, widest_gap, NewStop};
use crate::model::{Document, Handle, NodeId, NodeKind, StyleKind};
use crate::picker::{MenuAction, MenuStep, PickerCommit, PickerWrite};
use crate::session::{ContextMenuSource, ContextMenuState, PickerTarget, Session};

verus! {

/// A colour is spelt with its alpha where eight bytes follow the number signs that it
/// starts with.
pub proof fn law_alpha_is_spelt_with_eight_digits(text: &str, n: int, r: bool)
    requires
        call_ensures(hex_has_alpha, (text,), r),
        0 <= n <= text@.len(),
        forall|i: int| 0 <= i < n ==> text@[i] == '#',
        n < text@.len() ==> text@[n] != '#',
    ensures
        r <==> bytes_len(text@.skip(n)) == 8,
        (forall|i: int| n <= i < text@.len() ==> (#[trigger] text@[i] as u32) <= 0x7f) ==> (r
            <==> text@.len() == n + 8),
{
    lemma_without_signs(text@, n);
    if forall|i: int| n <= i < text@.len() ==> (#[trigger] text@[i] as u32) <= 0x7f {
        let rest = text@.skip(n);
        assert forall|i: int| 0 <= i < rest.len() implies (#[trigger] rest[i] as u32) <= 0x7f by {
            assert(rest[i] == text@[n + i]);
        }
        lemma_ascii_len(rest);
    }
}

/// A text takes one byte for an ASCII character, two up to the code 0x7ff, three up to
/// 0xffff and four beyond.
pub proof fn law_characters_take_their_bytes(text: Seq<char>, c: char)
    ensures
        bytes_len(text.push(c)) == bytes_len(text) + (if (c as u32) < 0x80 {
            1int
        } else if (c as u32) < 0x800 {
            2int
        } else if (c as u32) < 0x1_0000 {
            3int
        } else {
            4int
        }),
        bytes_len(Seq::empty()) == 0,
{
    assert(text.push(c).drop_last() =~= text);
}

proof fn lemma_without_signs(text: Seq<char>, n: int)
    requires
        0 <= n <= text.len(),
        forall|i: int| 0 <= i < n ==> text[i] == '#',
        n < text.len() ==> text[n] != '#',
    ensures
        without_signs(text) == text.skip(n),
    decreases text.len(),
{
    if n > 0 {
        assert(text[0] == '#');
        lemma_without_signs(text.drop_first(), n - 1);
        assert(text.drop_first().skip(n - 1) =~= text.skip(n));
    } else {
        assert(text.skip(0) =~= text);
    }
}

proof fn lemma_ascii_len(text: Seq<char>)
    requires
        forall|i: int| 0 <= i < text.len() ==> (#[trigger] text[i] as u32) <= 0x7f,
    ensures
        bytes_len(text) == text.len(),
    decreases text.len(),
{
    if text.len() > 0 {
        assert forall|i: int| 0 <= i < text.drop_last().len() implies (
        #[trigger] text.drop_last()[i] as u32) <= 0x7f by {
            assert(text.drop_last()[i] == text[i]);
        }
        lemma_ascii_len(text.drop_last());
        assert((text[text.len() - 1] as u32) <= 0x7f);
    }
}

/// A strip that is pressed is dragged until it is let go, and it alone; the colour stays.
pub proof fn law_strips_are_dragged_one_by_one(p: PickerState, strip: Strip, other: Strip)
    ensures
        forall|s: &mut PickerState, t: &mut PickerState, was: bool|
            *s == p && *t == *final(s)
                && #[trigger] call_ensures(PickerState::press, (s, strip), ())
                && #[trigger] call_ensures(PickerState::release, (t, strip), was) ==> {
                &&& was
                &&& forall|on: bool| #[trigger]
                    call_ensures(PickerState::is_dragging, (final(s), strip), on) ==> on
                &&& (*final(s)).hsv == p.hsv && (*final(s)).alpha == p.alpha
                &&& (*final(s)).hex_draft == p.hex_draft && (*final(s)).hex_error == p.hex_error
                &&& strip is Square ==> !(*final(t)).dragging_square && (*final(t)).dragging_hue
                    == p.dragging_hue && (*final(t)).dragging_alpha == p.dragging_alpha
                &&& strip is Hue ==> !(*final(t)).dragging_hue && (*final(t)).dragging_square
                    == p.dragging_square && (*final(t)).dragging_alpha == p.dragging_alpha
                &&& strip is Alpha ==> !(*final(t)).dragging_alpha && (*final(t)).dragging_square
                    == p.dragging_square && (*final(t)).dragging_hue == p.dragging_hue
            },
{
}

/// A typed colour is taken where it parses, its alpha only where it is spelt out; one
/// that does not parse is kept as the draft and stops the commit.
pub proof fn law_typed_colors_are_taken_or_kept_as_drafts(
    p: PickerState,
    text: String,
    parsed: Option<ParsedHex>,
    spelt: bool,
)
    requires
        spelt <==> crate::colors::spells_alpha(text@),
    ensures
        forall|s: &mut PickerState, r: bool|
            *s == p && #[trigger] call_ensures(PickerState::hex_typed, (s, text, parsed), r) ==> {
                &&& r <==> parsed is Some
                &&& (*final(s)).hex_draft == text
                &&& (*final(s)).hex_error <==> parsed is None
                &&& parsed is None ==> (*final(s)).hsv == p.hsv && (*final(s)).alpha == p.alpha
                &&& parsed matches Some(c) ==> (*final(s)).hsv == c.hsv && (spelt
                    ==> (*final(s)).alpha == c.alpha) && (!spelt ==> (*final(s)).alpha == p.alpha)
                &&& forall|may: bool| #[trigger]
                    call_ensures(PickerState::may_commit, (final(s),), may) ==> (may
                        <==> parsed is Some)
            },
        forall|s: &mut PickerState, hsv: Handle, hex: String|
            *s == p && #[trigger] call_ensures(PickerState::set_color, (s, hsv, hex), ()) ==> {
                &&& (*final(s)).hsv == hsv && (*final(s)).hex_draft == hex && !(*final(s)).hex_error
                &&& (*final(s)).alpha == p.alpha
            },
        forall|s: &mut PickerState, alpha: Handle|
            *s == p && #[trigger] call_ensures(PickerState::set_alpha, (s, alpha), ()) ==> {
                &&& (*final(s)).alpha == alpha && (*final(s)).hsv == p.hsv
                &&& (*final(s)).hex_draft == p.hex_draft && (*final(s)).hex_error == p.hex_error
            },
{
}

/// Opening the picker on the current paint, changing it and closing the picker gives the
/// paint back; finishing the picker keeps it.
pub proof fn law_closing_the_picker_gives_the_paint_back(
    a: Session,
    color: Handle,
    anchor: Handle,
    paint: Handle,
    open: bool,
)
    requires
        a.open_picker is None,
    ensures
        forall|
            s: &mut Session,
            t: &mut Session,
            u: &mut Session,
            c1: bool,
            w: PickerWrite,
            c2: bool,
        |
            *s == a && *t == *final(s) && *u == *final(t)
                && #[trigger] call_ensures(
                Session::open_color_picker,
                (s, PickerTarget::CurrentPaint, color, anchor),
                c1,
            ) && #[trigger] call_ensures(Session::apply_picker_change, (t, paint, open), w)
                && #[trigger] call_ensures(Session::close_color_picker, (u,), c2) ==> {
                &&& !c1 && !c2 && w is Nothing
                &&& (*final(t)).current_paint == paint
                &&& (*final(u)).current_paint == a.current_paint
                &&& (*final(u)).open_picker is None
            },
        forall|
            s: &mut Session,
            t: &mut Session,
            u: &mut Session,
            c1: bool,
            w: PickerWrite,
            kept: PickerCommit,
        |
            *s == a && *t == *final(s) && *u == *final(t)
                && #[trigger] call_ensures(
                Session::open_color_picker,
                (s, PickerTarget::CurrentPaint, color, anchor),
                c1,
            ) && #[trigger] call_ensures(Session::apply_picker_change, (t, paint, open), w)
                && #[trigger] call_ensures(Session::finish_color_picker, (u,), kept) ==> {
                &&& !kept.commit
                &&& (*final(u)).current_paint == paint
                &&& (*final(u)).open_picker is None
            },
{
}

/// On any other target the first change opens one transaction, later ones write in it;
/// closing the picker takes it back, finishing it commits it. While another edit is under
/// way nothing is written.
pub proof fn law_picker_writes_in_one_transaction(
    a: Session,
    target: PickerTarget,
    color: Handle,
    anchor: Handle,
    paint: Handle,
)
    requires
        a.open_picker is None,
        target != PickerTarget::CurrentPaint,
    ensures
        forall|
            s: &mut Session,
            t: &mut Session,
            u: &mut Session,
            c: bool,
            w: PickerWrite,
            again: PickerWrite,
        |
            *s == a && *t == *final(s) && *u == *final(t)
                && #[trigger] call_ensures(
                Session::open_color_picker,
                (s, target, color, anchor),
                c,
            ) && #[trigger] call_ensures(Session::apply_picker_change, (t, paint, false), w)
                && #[trigger] call_ensures(Session::apply_picker_change, (u, paint, true), again)
                ==> {
                &&& w matches PickerWrite::Write { target: x, begin } && x == target && begin
                    is Some
                &&& again == (PickerWrite::Write { target, begin: None })
                &&& (*final(u)).current_paint == a.current_paint
                &&& forall|v: &mut Session, cancel: bool|
                    *v == *final(u) && #[trigger] call_ensures(
                        Session::close_color_picker,
                        (v,),
                        cancel,
                    ) ==> cancel && (*final(v)).open_picker is None
                &&& forall|v: &mut Session, kept: PickerCommit|
                    *v == *final(u) && #[trigger] call_ensures(
                        Session::finish_color_picker,
                        (v,),
                        kept,
                    ) ==> kept.commit && kept.add_swatch && (*final(v)).open_picker is None
                &&& forall|v: &mut Session, kept: PickerCommit|
                    *v == *final(u) && #[trigger] call_ensures(
                        Session::commit_picker_color,
                        (v,),
                        kept,
                    ) ==> kept.commit && (*final(v)).open_picker is Some
                        && !(*final(v)).open_picker->0.transaction_open
            },
        forall|s: &mut Session, t: &mut Session, c: bool, w: PickerWrite|
            *s == a && *t == *final(s)
                && #[trigger] call_ensures(
                Session::open_color_picker,
                (s, target, color, anchor),
                c,
            ) && #[trigger] call_ensures(Session::apply_picker_change, (t, paint, true), w) ==> w
                is Nothing && (*final(t)).open_picker == (*final(s)).open_picker,
        forall|s: &mut Session, w: PickerWrite, open: bool|
            *s == a && #[trigger] call_ensures(Session::apply_picker_change, (s, paint, open), w)
                ==> w is Nothing && *final(s) == a,
{
}

/// Committing the colour of the current paint keeps it: closing the picker afterwards
/// gives back what was committed.
pub proof fn law_committed_paint_stays(
    a: Session,
    color: Handle,
    anchor: Handle,
    paint: Handle,
    open: bool,
)
    requires
        a.open_picker is None,
    ensures
        forall|
            s: &mut Session,
            t: &mut Session,
            u: &mut Session,
            v: &mut Session,
            c1: bool,
            w: PickerWrite,
            kept: PickerCommit,
            c2: bool,
        |
            *s == a && *t == *final(s) && *u == *final(t) && *v == *final(u)
                && #[trigger] call_ensures(
                Session::open_color_picker,
                (s, PickerTarget::CurrentPaint, color, anchor),
                c1,
            ) && #[trigger] call_ensures(Session::apply_picker_change, (t, paint, open), w)
                && #[trigger] call_ensures(Session::commit_picker_color, (u,), kept)
                && #[trigger] call_ensures(Session::close_color_picker, (v,), c2) ==> {
                &&& !kept.commit && kept.add_swatch
                &&& (*final(v)).current_paint == paint
                &&& (*final(v)).open_picker is None
            },
        forall|s: &mut Session, limit: usize|
            *s == a && #[trigger] call_ensures(Session::add_swatch, (s,), limit) ==> limit == 12
                && (*final(s)).current_paint == a.current_paint,
        forall|doc: Document, style: NodeId, r: &'static str| #[trigger]
            call_ensures(Document::style_color_path, (&doc, style), r) ==> {
                let stroke = doc.nodes().contains_key(style) && doc.nodes()[style].kind
                    == NodeKind::Style(StyleKind::Stroke);
                &&& stroke ==> r == "stroke.color"
                &&& !stroke ==> r == "fill.color"
            },
        forall|hsv: Handle, alpha: Handle, hex: String, p: PickerState| #[trigger]
            call_ensures(PickerState::from_color, (hsv, alpha, hex), p) ==> {
                &&& p.hsv == hsv && p.alpha == alpha && p.hex_draft == hex && !p.hex_error
                &&& !p.dragging_square && !p.dragging_hue && !p.dragging_alpha
            },
{
}

/// A picked colour is written to what the picker is open on: the colour of a style, a
/// gradient's stops or a property, keyed while recording; the current paint is no
/// property.
pub proof fn law_picked_color_goes_to_its_target(
    a: Session,
    doc: Document,
    target: PickerTarget,
    value: Handle,
    r: Option<EditorCommand>,
)
    requires
        call_ensures(Session::picker_command, (&a, &doc, target, Some(value)), r),
    ensures
        r is None <==> target is CurrentPaint,
        r matches Some(command) ==> {
            &&& command matches EditorCommand::SetProperty { id, prop, value: v, keyed } && {
                &&& v == value && keyed == a.writes_keys()
                &&& target matches PickerTarget::Prop { id: x, path } ==> id == x && prop
                    == Property::Listed(path)
                &&& target matches PickerTarget::GradientStop { style_id, .. } ==> id == style_id
                    && prop == Property::Path("grad.stops")
                &&& target matches PickerTarget::StyleColor { style_id } ==> {
                    &&& id == style_id
                    &&& doc.nodes().contains_key(style_id) && doc.nodes()[style_id].kind
                        == NodeKind::Style(StyleKind::Stroke) ==> prop == Property::Path(
                        "stroke.color",
                    )
                    &&& !(doc.nodes().contains_key(style_id) && doc.nodes()[style_id].kind
                        == NodeKind::Style(StyleKind::Stroke)) ==> prop == Property::Path(
                        "fill.color",
                    )
                }
            }
        },
        forall|q: Option<EditorCommand>| #[trigger]
            call_ensures(Session::picker_command, (&a, &doc, target, None::<Handle>), q) ==> q
                is None,
{
}

/// Opening a menu closes the picker and gives the paint back; closing the menu leaves the
/// rest.
pub proof fn law_menus_close_the_picker(a: Session, menu: ContextMenuState)
    ensures
        forall|s: &mut Session, cancel: bool|
            *s == a && #[trigger] call_ensures(Session::open_context_menu, (s, menu), cancel) ==> {
                &&& (*final(s)).context_menu == Some(menu)
                &&& (*final(s)).open_picker is None
                &&& cancel <==> a.open_picker is Some && a.open_picker->0.transaction_open
                &&& a.open_picker is None ==> (*final(s)).current_paint == a.current_paint
                &&& a.open_picker matches Some(o) ==> (o.cancel_current_paint matches Some(p)
                    ==> (*final(s)).current_paint == p)
                &&& (*final(s)).selection == a.selection
            },
        forall|s: &mut Session|
            *s == a && #[trigger] call_ensures(Session::close_context_menu, (s,), ()) ==> {
                &&& (*final(s)).context_menu is None
                &&& (*final(s)).open_picker == a.open_picker
                &&& a.context_menu is None ==> *final(s) == a
            },
{
}

/// Pressing the swatch opens the picker on the current paint, and closes an open one.
pub proof fn law_swatch_toggles_the_picker(a: Session, color: Handle, anchor: Handle)
    requires
        a.open_picker is None,
    ensures
        forall|s: &mut Session, t: &mut Session, c1: bool, c2: bool|
            *s == a && *t == *final(s)
                && #[trigger] call_ensures(Session::press_swatch, (s, color, anchor), c1)
                && #[trigger] call_ensures(Session::press_swatch, (t, color, anchor), c2) ==> {
                &&& !c1 && !c2
                &&& (*final(s)).open_picker matches Some(o) && o.target is CurrentPaint && o.color
                    == color && o.anchor == anchor
                &&& (*final(t)).open_picker is None
                &&& (*final(t)).current_paint == a.current_paint
            },
{
}

/// A menu action closes the menu; renaming starts on the layer that the menu was opened
/// on, with its name, and other actions are handed on with the point of the menu.
pub proof fn law_menu_actions_close_the_menu(a: Session, action: MenuAction, doc: Document)
    ensures
        forall|s: &mut Session, r: MenuStep|
            *s == a && #[trigger] call_ensures(Session::run_menu_action, (s, action, &doc), r) ==> {
                &&& (*final(s)).context_menu is None
                &&& action is Rename <==> r is Done
                &&& action is Copy <==> r is Copy
                &&& action is Cut <==> r is Cut
                &&& action is Paste <==> r is Paste
                &&& action is Duplicate <==> r is Duplicate
                &&& action is CenterPivot <==> r is CenterPivot
                &&& action matches MenuAction::Other(x) ==> (r matches MenuStep::Dispatch {
                    action: y,
                    at,
                } && x == y && (a.context_menu is None ==> at is None))
                &&& !(action is Rename) ==> (*final(s)).renaming == a.renaming
                &&& action is Rename && a.context_menu is Some ==> (a.context_menu->0.source
                    matches ContextMenuSource::Layers { row } ==> (*final(s)).renaming is Some && ((
                *final(s)).renaming->0).0 == row && (doc.nodes().contains_key(row)
                    ==> ((*final(s)).renaming->0).1@ == doc.nodes()[row].name@))
            },
{
}

/// The order of gradient stops lists each of them once, by offset; stops with the same
/// offset stay as they were.
pub proof fn law_stops_are_sorted_by_offset(keys: Vec<i64>, r: Vec<usize>)
    requires
        call_ensures(stop_order, (&keys,), r),
    ensures
        r@.len() == keys@.len(),
        r@.no_duplicates(),
        forall|i: int| 0 <= i < r@.len() ==> (#[trigger] r@[i]) < keys@.len(),
        forall|i: usize| i < keys@.len() ==> #[trigger] r@.contains(i),
        forall|i: int, j: int|
            0 <= i < j < r@.len() ==> {
                &&& keys@[#[trigger] r@[i] as int] <= keys@[#[trigger] r@[j] as int]
                &&& keys@[r@[i] as int] == keys@[r@[j] as int] ==> r@[i] < r@[j]
            },
{
    assert forall|i: int, j: int| 0 <= i < j < r@.len() implies r@[i] != r@[j] by {
        assert(crate::gradients::stands_before(keys@, r@[i], r@[j]));
    }
    assert forall|i: int, j: int| 0 <= i < j < r@.len() implies {
        &&& keys@[#[trigger] r@[i] as int] <= keys@[#[trigger] r@[j] as int]
        &&& keys@[r@[i] as int] == keys@[r@[j] as int] ==> r@[i] < r@[j]
    } by {
        assert(crate::gradients::stands_before(keys@, r@[i], r@[j]));
    }
    assert(keys.len() == keys@.len());
    crate::clipboard_laws::lemma_all_listed(r@, keys@.len());
}

/// A new stop goes into the widest gap, the first of these, between the two stops that
/// stand at its ends.
pub proof fn law_new_stop_halves_the_widest_gap(
    order: Vec<usize>,
    gaps: Vec<i64>,
    at: usize,
    r: NewStop,
)
    requires
        order@.len() >= 2,
        gaps@.len() == order@.len() - 1,
        call_ensures(widest_gap, (&gaps,), at),
        call_ensures(insert_gradient_stop, (&order, &gaps), r),
    ensures
        at < gaps@.len(),
        forall|i: int| 0 <= i < gaps@.len() ==> #[trigger] gaps@[i] <= gaps@[at as int],
        forall|i: int| 0 <= i < at ==> #[trigger] gaps@[i] < gaps@[at as int],
        r == (NewStop::Between { first: order@[at as int], second: order@[at + 1] }),
{
    let other = choose|other: int| #[trigger]
        crate::gradients::is_widest(gaps@, other) && r == (NewStop::Between {
            first: order@[other],
            second: order@[other + 1],
        });
    if other < at {
        assert(gaps@[other] < gaps@[at as int]);
        assert(gaps@[at as int] <= gaps@[other]);
    } else if at < other {
        assert(gaps@[at as int] < gaps@[other]);
        assert(gaps@[other] <= gaps@[at as int]);
    }
}

/// A gradient without stops gets both ends, one with a single stop that one's colour in
/// the middle; two stops always stay.
pub proof fn law_gradients_keep_two_stops(
    a: Session,
    style: NodeId,
    order: Vec<usize>,
    gaps: Vec<i64>,
    index: usize,
    count: usize,
    stops: Handle,
)
    ensures
        forall|r: NewStop| #[trigger]
            call_ensures(insert_gradient_stop, (&order, &gaps), r) ==> {
                &&& order@.len() == 0 ==> r is Both
                &&& order@.len() == 1 ==> r == (NewStop::Middle { of: order@[0] })
            },
        forall|r: Option<Edit>| #[trigger]
            call_ensures(Session::remove_stop, (&a, style, index, count, stops), r) ==> {
                &&& r is Some <==> count > 2 && index < count
                &&& r matches Some(e) ==> e.commands@ == seq![
                    EditorCommand::SetProperty {
                        id: style,
                        prop: Property::Path("grad.stops"),
                        value: stops,
                        keyed: a.writes_keys(),
                    },
                ]
            },
        forall|r: Option<Edit>| #[trigger]
            call_ensures(Session::add_stop, (&a, style, Some(stops)), r) ==> (r matches Some(e)
                && e.commands@ == seq![
                EditorCommand::SetProperty {
                    id: style,
                    prop: Property::Path("grad.stops"),
                    value: stops,
                    keyed: a.writes_keys(),
                },
            ]),
{
}

} // verus!
