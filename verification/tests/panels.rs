//! The shell, the canvas, the layer list, the timeline and the pickers.
use std::collections::{HashMap, HashSet};

use renamite::assets::{
    apply_font, font_is_active, font_line, image_line, nothing_yet, place_image, remove_font,
    remove_image, FontAssetRow, ImageAssetRow,
};
use renamite::colors::{hex_has_alpha, ParsedHex, PickerState, Strip};
use renamite::commands::{EditorCommand, Head, Property, SelectionChange, ToolId, ToolOutput};
use renamite::fields::NameField;
use renamite::gradients::{insert_gradient_stop, stop_order, widest_gap, NewStop};
use renamite::graph::PointerButton;
use renamite::layers::{
    has_chevron, node_name, toggle_lock, toggle_visibility, LayerKind, RowLook,
};
use renamite::model::{
    Composition, Document, Location, Node, NodeKind, Parent, ShapeKind, StyleKind,
};
use renamite::picker::{MenuAction, MenuStep, PickerCommit, PickerWrite};
use renamite::session::{
    ContextMenuSource, ContextMenuState, EditorMode, GraphPoint, LoopMode, PanelPage,
    PendingIntent, PickerTarget, Session,
};
use renamite::shell::{
    compact_nav_pages, default_dock_state, dock_key, dock_panels, effective_side_page, file_intent,
    file_label, file_menu, has_bottom_bar, has_undo_buttons, launcher_tiles, medium_nav_pages,
    menu_entries_height, menu_line_action, open_dialog, page_label, platform_shell_class,
    render_menu_entries, tool_buttons, tool_label, DockKind, FileItem, MenuEntry, ShellClass,
    WidthClass,
};
use renamite::timeline::{
    drag_label, find_key, frame_label, info_line, key_selected, range_label, row_label, ruler_ticks,
    HeadPlace, KeyRef, ListedProp, Tick, TimelineEventKind, TimelineRoute, TimelineRow,
};
use renamite::viewport::{
    checker_size, hud_tool_label, key_consumed, launcher_cols, launcher_tile_cols, map_key,
    overlay_marks, shows_hint, stage_key, tile_is_light, AnchorTangents, CanvasKey, KeyAction,
    Mark, PressRoute, Snap, StageKey, ToolOverlay, ViewportState,
};

const COMP: u64 = 100;

fn node(id: u64, kind: NodeKind, parent: Parent, children: &[u64]) -> Node {
    Node {
        id,
        name: format!("Node {}", id),
        kind,
        parent: match parent {
            Parent::Node(p) => Some(p),
            Parent::Comp(_) => None,
        },
        location: Some(Location { parent, index: 0 }),
        children: children.to_vec(),
        locked: id == 5,
        visible: true,
        content: id,
    }
}

/// A group of a path and a fill, a group in a group, and a locked layer.
fn sample() -> Document {
    let top = Parent::Comp(COMP);
    Document::new(
        vec![
            node(1, NodeKind::Group, top, &[2, 3]),
            node(2, NodeKind::Shape(ShapeKind::Path), Parent::Node(1), &[]),
            node(3, NodeKind::Style(StyleKind::Fill), Parent::Node(1), &[]),
            node(4, NodeKind::Shape(ShapeKind::Rect), top, &[]),
            node(5, NodeKind::Layer, top, &[]),
        ],
        vec![Composition {
            id: COMP,
            name: "Main".to_string(),
            children: vec![1, 4, 5],
            range: (0, 60),
            size: (640, 480),
        }],
        COMP,
    )
    .unwrap()
}

fn session(selection: &[u64]) -> Session {
    let mut s = Session::new((0, 60), None, 7);
    s.selection = selection.to_vec();
    s
}

fn status(s: &Session) -> String {
    match &s.status {
        Some(m) => m.to_text(),
        None => String::new(),
    }
}

fn at(x: u64, y: u64) -> GraphPoint {
    GraphPoint { x, y }
}

#[test]
fn shells_follow_the_width() {
    assert_eq!(platform_shell_class(WidthClass::Compact), ShellClass::Compact);
    assert_eq!(platform_shell_class(WidthClass::Medium), ShellClass::Medium);
    assert_eq!(platform_shell_class(WidthClass::Expanded), ShellClass::Expanded);
    assert!(has_undo_buttons(ShellClass::Expanded));
    assert!(!has_undo_buttons(ShellClass::Medium));
    assert!(has_bottom_bar(ShellClass::Compact));
    assert!(!has_bottom_bar(ShellClass::Medium));
    assert!(shows_hint(ShellClass::Medium));
    assert!(!shows_hint(ShellClass::Compact));
}

#[test]
fn menus_are_as_high_as_their_entries() {
    let entries = vec![
        MenuEntry::Action { action: 1, label: "Copy", enabled: true },
        MenuEntry::Separator,
        MenuEntry::Submenu {
            label: "Align",
            children: vec![MenuEntry::Action { action: 2, label: "Left", enabled: false }],
        },
    ];
    assert_eq!(menu_entries_height(&vec![]), 8);
    assert_eq!(menu_entries_height(&entries), 8 + 38 + 5 + 24 + 8 + 38);
    let lines = render_menu_entries(&entries);
    assert_eq!(lines.len(), 4);
    assert_eq!(menu_line_action(lines[0]), Some(1));
    assert_eq!(menu_line_action(lines[1]), None);
    assert_eq!(menu_line_action(lines[3]), None);
}

#[test]
fn every_mode_docks_its_own_panels() {
    let design = default_dock_state(EditorMode::Design);
    assert_eq!(design.next_id, 999);
    assert_eq!(design.root.id, 1);
    assert!(matches!(design.root.kind, DockKind::Split { .. }));
    assert_eq!(dock_panels(EditorMode::Design)[3].title, "Assets");
    assert_eq!(dock_panels(EditorMode::Animate)[3].title, "Timeline");
    assert_eq!(dock_panels(EditorMode::Interact)[3].title, "Interactivity");
    assert_eq!(dock_key(EditorMode::Animate), "dock_animate");
}

#[test]
fn navigation_covers_the_pages_of_the_mode() {
    assert_eq!(effective_side_page(PanelPage::Canvas), PanelPage::Layers);
    assert_eq!(effective_side_page(PanelPage::Assets), PanelPage::Assets);
    assert_eq!(
        compact_nav_pages(EditorMode::Interact),
        vec![PanelPage::Canvas, PanelPage::Interact, PanelPage::Inspect]
    );
    for mode in [EditorMode::Design, EditorMode::Animate, EditorMode::Interact] {
        let compact = compact_nav_pages(mode);
        for page in medium_nav_pages(mode) {
            assert!(compact.contains(&page));
        }
    }
    assert_eq!(page_label(PanelPage::Interact), "Logic");
    let mut s = session(&[]);
    s.active_page = PanelPage::Inspect;
    assert_eq!(s.bottom_nav_index(), 2);
    s.active_page = PanelPage::Timeline;
    assert_eq!(s.bottom_nav_index(), 0);
    assert_eq!(s.side_tab(), PanelPage::Layers);
}

#[test]
fn every_tool_has_a_button() {
    let buttons = tool_buttons(ToolId::Pen, false);
    assert_eq!(buttons.len(), 10);
    assert_eq!(buttons.iter().filter(|b| b.selected).count(), 1);
    assert!(buttons[2].selected);
    assert_eq!(buttons[9].tool, ToolId::Gradient);
    assert_eq!(tool_buttons(ToolId::Pen, true)[9].tool, ToolId::Fill);
    assert_eq!(tool_label(ToolId::Transform), "Transform / pivot");
    assert_eq!(hud_tool_label(ToolId::Transform), "Transform");
}

#[test]
fn the_file_menu_asks_before_it_replaces() {
    let menu = file_menu();
    assert_eq!(menu.len(), 15);
    assert_eq!(menu[4], None);
    assert_eq!(file_label(FileItem::SaveAs), "Save As…");
    assert_eq!(file_intent(FileItem::New), Some(PendingIntent::New));
    assert_eq!(file_intent(FileItem::Save), None);
    assert_eq!(launcher_tiles()[1].subtitle, "Open .ren / .renb");
    assert_eq!(open_dialog(PendingIntent::New), None);
    assert_eq!(open_dialog(PendingIntent::Open), Some(("Open project", vec!["ren", "renb"])));
}

#[test]
fn panning_goes_before_tools() {
    let mut v = ViewportState::new();
    assert!(v.may_fit());
    assert_eq!(v.pointer_pressed(PointerButton::Secondary, at(1, 1)), PressRoute::Menu);
    assert_eq!(v.pointer_pressed(PointerButton::Primary, at(1, 1)), PressRoute::Tool);
    v.space_held = true;
    assert_eq!(v.pointer_pressed(PointerButton::Primary, at(1, 1)), PressRoute::Pan);
    assert!(v.is_panning());
    assert!(!v.may_fit());
    assert_eq!(v.pointer_moved(at(2, 3)), Some(at(1, 1)));
    assert_eq!(v.pointer_moved(at(4, 4)), Some(at(2, 3)));
    assert!(v.pointer_released());
    assert_eq!(v.pointer_moved(at(5, 5)), None);
    assert_eq!(v.update_pan(at(6, 6)), None);
    v.begin_pan(at(7, 7));
    v.file_replaced();
    assert!(v.fit_pending);
    assert!(v.may_fit());
    assert_eq!(v.last_pointer, at(0, 0));
}

#[test]
fn snapping_needs_what_it_snaps_to() {
    let mut v = ViewportState::new();
    assert_eq!(v.snap(), Snap { grid: false, anchor: true, guide: true });
    v.show_grid = true;
    assert!(v.snap().grid);
    let mut s = session(&[]);
    s.record = true;
    let context = s.dispatch_canvas(&v);
    assert_eq!((context.tool, context.record, context.paint), (ToolId::Select, false, 7));
    assert_eq!(context.snap, v.snap());
    s.mode = EditorMode::Animate;
    assert!(s.dispatch_canvas(&v).record);
    v.snapping_enabled = false;
    assert_eq!(v.snap(), Snap { grid: false, anchor: false, guide: false });
}

#[test]
fn keys_on_the_canvas() {
    let design = EditorMode::Design;
    assert_eq!(stage_key(design, StageKey::Space, true, false), KeyAction::HoldSpace(true));
    assert_eq!(stage_key(design, StageKey::Character('F'), true, false), KeyAction::Fit);
    assert_eq!(stage_key(design, StageKey::Character('d'), true, true), KeyAction::Duplicate);
    assert_eq!(stage_key(design, StageKey::Character('f'), false, false), KeyAction::Ignored);
    assert_eq!(
        stage_key(design, StageKey::Delete, true, false),
        KeyAction::Canvas(CanvasKey::Delete)
    );
    assert_eq!(
        stage_key(EditorMode::Interact, StageKey::Delete, true, false),
        KeyAction::Swallowed
    );
    assert_eq!(map_key(StageKey::Escape), Some(CanvasKey::Escape));
    assert_eq!(map_key(StageKey::Space), None);
    assert!(key_consumed(KeyAction::Swallowed));
    assert!(!key_consumed(KeyAction::Ignored));
}

#[test]
fn menus_act_on_what_lies_below() {
    let mut s = session(&[1, 4]);
    s.select_below(Some(4), false);
    assert_eq!(s.selection, vec![1, 4]);
    s.select_below(Some(2), false);
    assert_eq!(s.selection, vec![2]);
    s.select_below(None, true);
    assert_eq!(s.selection, vec![2]);
    s.select_below(None, false);
    assert!(s.selection.is_empty());
    s.dismiss_welcome();
    assert!(!s.welcome);
}

#[test]
fn the_heads_up_display_tells_the_state() {
    let mut s = session(&[1, 4]);
    assert_eq!(
        s.hud_lines(640, 480, 12),
        vec!["Main", "640×480", "Frame 12", "Select", "2 selected"]
    );
    s.record = true;
    assert_eq!(s.hud_lines(640, 480, -3), vec!["● REC", "Frame -3"]);
}

#[test]
fn columns_and_tiles() {
    assert_eq!(launcher_cols(100), 1);
    assert_eq!(launcher_cols(600), 2);
    assert_eq!(launcher_cols(9000), 4);
    assert_eq!(launcher_tile_cols(600), 3);
    assert_eq!(checker_size(64, 65), (2, 3));
    assert!(tile_is_light(0, 0));
    assert!(!tile_is_light(1, 0));
    assert!(tile_is_light(1, 1));
}

#[test]
fn overlays_are_drawn_in_order() {
    assert_eq!(overlay_marks(&ToolOverlay::Nothing), vec![]);
    assert_eq!(
        overlay_marks(&ToolOverlay::Selection { pivot: true }),
        vec![Mark::Bounds, Mark::RotateHandle, Mark::ScaleHandle, Mark::Pivot]
    );
    assert_eq!(
        overlay_marks(&ToolOverlay::PenPreview { anchors: 2, hover: true }),
        vec![Mark::Anchor(0), Mark::Anchor(1), Mark::Hover]
    );
    let anchors = vec![
        AnchorTangents { has_in: false, has_out: true },
        AnchorTangents { has_in: true, has_out: false },
    ];
    assert_eq!(
        overlay_marks(&ToolOverlay::PathHandles { anchors, active: Some(1) }),
        vec![Mark::Anchor(0), Mark::TangentOut(0), Mark::ActiveAnchor(1), Mark::TangentIn(1)]
    );
    assert_eq!(
        overlay_marks(&ToolOverlay::GradientLine { radial: true, short: false }),
        vec![Mark::Line, Mark::StartDot, Mark::EndDot { radial: true }]
    );
    assert_eq!(overlay_marks(&ToolOverlay::GradientLine { radial: true, short: true }), vec![]);
}

#[test]
fn assets_tell_their_uses_and_go_when_unused() {
    let image = ImageAssetRow {
        id: 3,
        name: "photo".to_string(),
        width: 20,
        height: 10,
        usage_count: 1,
    };
    assert_eq!(image_line(&image), "20×10 · 1 use");
    assert!(remove_image(&image).is_none());
    let unused = ImageAssetRow { usage_count: 0, ..image };
    assert_eq!(
        remove_image(&unused).unwrap().commands,
        vec![EditorCommand::DetachAsset { asset: 3 }]
    );
    let font = FontAssetRow {
        id: Some(8),
        family: "Sans".to_string(),
        name: "Sans.ttf".to_string(),
        usage_count: 2,
        bundled: false,
    };
    assert_eq!(font_line(&font), "Sans.ttf · 2 uses");
    assert!(remove_font(&font).is_none());
    assert!(font_is_active(&font, true, Some("Sans")));
    assert!(!font_is_active(&font, false, Some("Sans")));
    assert!(!font_is_active(&font, true, None));
    assert_eq!(
        apply_font(&font, 4, 9).commands,
        vec![EditorCommand::SetTextFont { id: 4, font: Some(9) }]
    );
    let bundled = FontAssetRow {
        id: None,
        family: "default".to_string(),
        name: "Default".to_string(),
        usage_count: 0,
        bundled: true,
    };
    assert!(remove_font(&bundled).is_none());
    assert!(font_is_active(&bundled, true, None));
    assert_eq!(
        apply_font(&bundled, 4, 9).commands,
        vec![EditorCommand::SetTextFont { id: 4, font: None }]
    );
    assert!(nothing_yet(&vec![], &vec![]));
    assert!(!nothing_yet(&vec![font], &vec![]));
    assert!(place_image(None).is_none());
}

#[test]
fn name_fields_keep_a_draft_while_focused() {
    let mut f = NameField::new();
    assert_eq!(f.frame("Box", false).shown, "Box");
    assert!(f.frame("Box", true).commit.is_none());
    f.edited("Crate".to_string());
    assert_eq!(f.frame("Box", true).shown, "Crate");
    assert_eq!(NameField::submitted("  Crate "), "Crate");
    f.committed("Crate".to_string(), Err("taken".to_string()));
    assert_eq!(f.error, Some("taken".to_string()));
    f.committed("Crate".to_string(), Ok(()));
    assert_eq!(f.error, None);
    let left = f.frame(" Crate ", false);
    assert_eq!(left.commit, Some("Crate".to_string()));
    assert!(f.frame(" Crate ", false).commit.is_none());
}

#[test]
fn hex_drafts_carry_alpha_only_when_spelled() {
    assert!(hex_has_alpha("#11223344"));
    assert!(!hex_has_alpha("#112233"));
    let mut p = PickerState::from_color(1, 2, "#112233".to_string());
    assert!(p.hex_typed("#445566".to_string(), Some(ParsedHex { hsv: 3, alpha: 4 })));
    assert_eq!((p.hsv, p.alpha), (3, 2));
    assert!(p.hex_typed("#44556677".to_string(), Some(ParsedHex { hsv: 3, alpha: 4 })));
    assert_eq!(p.alpha, 4);
    assert!(!p.hex_typed("#4".to_string(), None));
    assert!(!p.may_commit());
    p.set_color(5, "#aabbcc".to_string());
    assert!(p.may_commit());
    p.press(Strip::Hue);
    assert!(p.is_dragging(Strip::Hue));
    assert!(!p.is_dragging(Strip::Alpha));
    assert!(p.release(Strip::Hue));
    assert!(!p.release(Strip::Hue));
}

fn stops(value: u64, keyed: bool) -> EditorCommand {
    EditorCommand::SetProperty { id: 3, prop: Property::Path("grad.stops"), value, keyed }
}

#[test]
fn stops_go_into_the_widest_gap() {
    let order = stop_order(&vec![50, 0, 100, 0]);
    assert_eq!(order, vec![1, 3, 0, 2]);
    assert_eq!(widest_gap(&vec![1, 9, 3]), 1);
    assert_eq!(
        insert_gradient_stop(&order, &vec![0, 50, 49]),
        NewStop::Between { first: 3, second: 0 }
    );
    assert_eq!(insert_gradient_stop(&vec![0], &vec![]), NewStop::Middle { of: 0 });
    assert_eq!(insert_gradient_stop(&vec![], &vec![]), NewStop::Both);
    let s = session(&[]);
    assert_eq!(
        s.add_stop(3, Some(6)).unwrap().commands,
        vec![stops(6, false)]
    );
    assert!(s.add_stop(3, None).is_none());
    assert_eq!(s.remove_stop(3, 2, 3, 6).unwrap().label, "Remove stop");
    let mut s = session(&[]);
    s.record = true;
    for mode in [EditorMode::Design, EditorMode::Interact] {
        s.mode = mode;
        assert_eq!(s.add_stop(3, Some(6)).unwrap().commands, vec![stops(6, false)]);
        assert_eq!(s.remove_stop(3, 2, 3, 6).unwrap().commands, vec![stops(6, false)]);
    }
    s.mode = EditorMode::Animate;
    assert_eq!(s.add_stop(3, Some(6)).unwrap().commands, vec![stops(6, true)]);
    assert_eq!(s.remove_stop(3, 2, 3, 6).unwrap().commands, vec![stops(6, true)]);
    assert!(s.remove_stop(3, 0, 2, 6).is_none());
    assert!(s.remove_stop(3, 3, 3, 6).is_none());
}

#[test]
fn layer_rows_are_picked_dragged_and_dropped() {
    let doc = sample();
    assert!(doc.is_ancestor(1, 2));
    assert!(!doc.is_ancestor(2, 1));
    let mut s = session(&[4]);
    s.begin_rename(&doc, 4, "Node 4");
    s.draft_rename("Box");
    let (rename, out) = s.press_layer_row(&doc, 2, true, false);
    assert_eq!(rename.unwrap().name, "Box");
    assert!(s.renaming.is_none());
    assert!(matches!(out, ToolOutput::RequestSelection(SelectionChange::Toggle(2))));
    let (none, alone) = s.press_layer_row(&doc, 2, false, false);
    assert!(none.is_none());
    assert!(matches!(alone, ToolOutput::RequestSelection(SelectionChange::Replace(_))));
    assert!(has_chevron(LayerKind::Group, 2));
    assert!(!has_chevron(LayerKind::Group, 0));
    assert!(!has_chevron(LayerKind::Shape, 2));
    s.select_for_menu(2);
    assert_eq!(s.selection, vec![2]);
    s.begin_layer_drag(1, 0, 77, 5);
    assert_eq!(s.layer_drag.unwrap().press_window_y, 77);
    assert_eq!(s.layer_drag.unwrap().grab_offset_y, 5);
    assert_eq!(s.selection, vec![1]);
    s.drag_layer_over(2, LayerKind::Group, true, true);
    let drag = s.layer_drag.unwrap();
    assert!(drag.as_child && drag.before);
    assert_eq!(drag.hover_row, 2);
    let moved = EditorCommand::MoveNode { id: 1, new_parent: Parent::Node(2), index: 0 };
    // A group cannot go into what it contains.
    assert!(s.finish_layer_drag(&doc, Some((2, Parent::Node(1))), Some(moved), false).is_none());
    assert!(s.layer_drag.is_none());
    s.begin_layer_drag(4, 1, 0, 0);
    let edit = s
        .finish_layer_drag(&doc, Some((1, Parent::Comp(COMP))), Some(moved), false)
        .unwrap();
    assert_eq!(edit.label, "Reorder layer");
    assert_eq!(edit.commands, vec![moved]);
    s.begin_layer_drag(4, 1, 0, 0);
    assert!(s.release_layer_row(&doc, Some(1), Some(moved), true).is_none());
    assert_eq!(s.layer_row_look(0, 9), RowLook::Plain);
}

#[test]
fn layers_fold_and_are_renamed() {
    let doc = sample();
    let mut s = session(&[]);
    s.toggle_expanded(1);
    assert!(s.expanded_layers.contains(&1));
    s.toggle_expanded(1);
    assert!(s.expanded_layers.is_empty());
    s.begin_rename(&doc, 5, "Locked");
    assert!(s.renaming.is_none());
    s.begin_rename(&doc, 4, "Node 4");
    s.draft_rename("  Box ");
    let rename = s.commit_rename(&doc).unwrap();
    assert_eq!((rename.label, rename.id, rename.name.as_str()), ("Rename", 4, "Box"));
    s.begin_rename(&doc, 4, "Node 4");
    assert!(s.commit_rename(&doc).is_none());
    s.begin_rename(&doc, 4, "Node 4");
    s.cancel_rename();
    assert!(s.renaming.is_none());
    assert_eq!(node_name(&doc, 4, "4v1"), "Node 4");
    assert_eq!(node_name(&doc, 9, "9v1"), "9v1");
    let command = EditorCommand::RemoveNode { id: 4 };
    assert_eq!(toggle_visibility(command).label, "Visibility");
    assert_eq!(toggle_lock(command).label, "Lock");
}

#[test]
fn a_cancelled_picker_restores_the_paint() {
    let mut s = session(&[]);
    assert!(!s.press_swatch(1, 2));
    assert_eq!(s.apply_picker_change(30, false), PickerWrite::Nothing);
    assert_eq!(s.current_paint, 30);
    assert!(!s.close_color_picker());
    assert_eq!(s.current_paint, 7);
    assert!(s.open_picker.is_none());
}

#[test]
fn pickers_write_in_one_transaction() {
    let doc = sample();
    let mut s = session(&[]);
    assert_eq!(s.add_swatch(), 12);
    let target = PickerTarget::StyleColor { style_id: 3 };
    s.open_color_picker(target, 1, 2);
    assert_eq!(s.apply_picker_change(30, true), PickerWrite::Nothing);
    assert_eq!(status(&s), "Finish the active edit before changing a color");
    assert_eq!(
        s.apply_picker_change(30, false),
        PickerWrite::Write { target, begin: Some("Edit color") }
    );
    assert_eq!(
        s.picker_command(&doc, target, Some(9)),
        Some(EditorCommand::SetProperty {
            id: 3,
            prop: Property::Path("fill.color"),
            value: 9,
            keyed: false,
        })
    );
    assert_eq!(s.picker_command(&doc, target, None), None);
    assert_eq!(s.picker_command(&doc, PickerTarget::CurrentPaint, Some(9)), None);
    let stroke = Document::new(
        vec![node(6, NodeKind::Style(StyleKind::Stroke), Parent::Comp(COMP), &[])],
        vec![],
        COMP,
    )
    .unwrap();
    assert_eq!(
        s.picker_command(&stroke, PickerTarget::StyleColor { style_id: 6 }, Some(9)),
        Some(EditorCommand::SetProperty {
            id: 6,
            prop: Property::Path("stroke.color"),
            value: 9,
            keyed: false,
        })
    );
    assert_eq!(
        s.picker_command(&doc, PickerTarget::GradientStop { style_id: 3, index: 1 }, Some(9)),
        Some(stops(9, false))
    );
    assert_eq!(
        s.picker_command(&doc, PickerTarget::Prop { id: 4, path: 8 }, Some(9)),
        Some(EditorCommand::SetProperty {
            id: 4,
            prop: Property::Listed(8),
            value: 9,
            keyed: false,
        })
    );
    assert_eq!(s.apply_picker_change(31, true), PickerWrite::Write { target, begin: None });
    assert_eq!(s.commit_picker_color(), PickerCommit { commit: true, add_swatch: true });
    s.apply_picker_change(32, false);
    assert_eq!(s.finish_color_picker(), PickerCommit { commit: true, add_swatch: true });
    assert!(s.open_picker.is_none());
    assert_eq!(s.finish_color_picker(), PickerCommit { commit: false, add_swatch: false });
    s.open_color_picker(target, 1, 2);
    s.apply_picker_change(33, false);
    assert!(s.close_color_picker());
}

#[test]
fn context_menus_close_with_their_action() {
    let doc = sample();
    let mut s = session(&[]);
    let menu = ContextMenuState {
        screen_pos: at(1, 2),
        entries: 6,
        source: ContextMenuSource::Layers { row: 4 },
    };
    assert!(!s.open_context_menu(menu));
    assert!(matches!(s.run_menu_action(MenuAction::Rename, &doc), MenuStep::Done));
    assert_eq!(s.renaming, Some((4, "Node 4".to_string())));
    assert!(s.context_menu.is_none());
    s.open_context_menu(menu);
    assert!(matches!(s.run_menu_action(MenuAction::Cut, &doc), MenuStep::Cut));
    s.open_context_menu(menu);
    s.close_context_menu();
    assert!(s.context_menu.is_none());
    assert!(!doc.style_color_path(3).is_empty());
}

#[test]
fn timelines_list_the_animated_opacities_of_open_layers() {
    let doc = sample();
    let opacity = |prop: u64| ListedProp { prop, opacity: true, animated: true };
    let mut props: HashMap<u64, Vec<ListedProp>> = HashMap::new();
    props.insert(1, vec![ListedProp { prop: 69, opacity: false, animated: true }, opacity(70)]);
    props.insert(2, vec![opacity(71), opacity(72)]);
    props.insert(4, vec![opacity(73)]);
    props.insert(5, vec![ListedProp { prop: 74, opacity: true, animated: false }]);
    let mut open: HashSet<u64> = HashSet::new();
    assert_eq!(
        doc.timeline_rows(&open, &props),
        vec![TimelineRow { node: 1, prop: 70 }, TimelineRow { node: 4, prop: 73 }]
    );
    open.insert(1);
    let rows = doc.timeline_rows(&open, &props);
    assert_eq!(rows.len(), 4);
    assert_eq!(rows[1], TimelineRow { node: 2, prop: 71 });
    let picked = vec![KeyRef { node: 2, prop: 71, frame: 8 }];
    assert!(key_selected(&picked, rows[1], 8));
    assert!(!key_selected(&picked, rows[1], 9));
}

#[test]
fn keys_are_found_on_either_side() {
    let keys = vec![vec![0, 10, 30], vec![20]];
    assert_eq!(find_key(&keys, 12, 1), Some(20));
    assert_eq!(find_key(&keys, 12, -1), Some(10));
    assert_eq!(find_key(&keys, 30, 1), None);
    let mut s = session(&[]);
    assert_eq!(s.step_to_keyframe(&keys, 30, 1, (0, 60)), 60);
    assert_eq!(s.playback.head, Head::Frame(60));
    assert_eq!(s.step_to_keyframe(&keys, 0, -1, (0, 60)), 0);
    assert_eq!(s.step_to_keyframe(&keys, 60, -1, (0, 60)), 30);
}

#[test]
fn loop_modes_take_turns() {
    let mut s = session(&[]);
    let first = s.playback.loop_mode;
    assert_eq!(first, LoopMode::Loop);
    s.cycle_loop_mode();
    assert_ne!(s.playback.loop_mode, first);
    s.cycle_loop_mode();
    assert_ne!(s.playback.loop_mode, first);
    s.cycle_loop_mode();
    assert_eq!(s.playback.loop_mode, first);
}

#[test]
fn the_playhead_stays_in_the_range() {
    let mut s = session(&[]);
    s.set_head(Head::Frame(50));
    s.sync_playback_range((0, 40), HeadPlace::After);
    assert_eq!(s.playback.head, Head::Frame(40));
    assert_eq!(s.playback.range, (0, 40));
    s.sync_playback_range((5, 40), HeadPlace::Inside);
    assert_eq!(s.playback.head, Head::Frame(40));
    s.sync_playback_range((45, 60), HeadPlace::Before);
    assert_eq!(s.playback.head, Head::Frame(45));
    assert!(!s.tick_playback(Head::Frame(46)));
    assert_eq!(s.playback.head, Head::Frame(45));
    s.toggle_playback();
    assert!(s.tick_playback(Head::Frame(46)));
    assert_eq!(s.playback.head, Head::Frame(46));
}

#[test]
fn timeline_events_scrub_or_edit() {
    let mut s = session(&[]);
    let pointer = TimelineEventKind::Pointer;
    assert_eq!(s.dispatch_timeline(pointer, false, false, true), TimelineRoute::Scrub);
    assert_eq!(s.dispatch_timeline(pointer, false, true, true), TimelineRoute::Keys);
    assert_eq!(s.dispatch_timeline(pointer, true, true, false), TimelineRoute::Scrub);
    assert_eq!(
        s.dispatch_timeline(TimelineEventKind::Other, true, false, true),
        TimelineRoute::Keys
    );
    s.machine_preview_enabled = true;
    assert_eq!(s.dispatch_timeline(pointer, true, false, true), TimelineRoute::Ignored);
}

#[test]
fn timeline_texts() {
    assert_eq!(row_label("Box", Some("Opacity")), "Box · Opacity");
    assert_eq!(row_label("Box", None), "Box");
    assert_eq!(frame_label(-4), "Frame -4");
    assert_eq!(range_label((0, 60)), "Range 0–60");
    assert_eq!(info_line(true), "● REC — edits add keys");
    assert_eq!(info_line(false), "One row per keyed property");
    assert_eq!(drag_label(3), Some("+3f".to_string()));
    assert_eq!(drag_label(-2), Some("-2f".to_string()));
    assert_eq!(drag_label(0), None);
    let ticks = ruler_ticks((9, 11));
    assert_eq!(
        ticks,
        vec![
            Tick { frame: 9, major: false },
            Tick { frame: 10, major: true },
            Tick { frame: 11, major: false },
        ]
    );
    assert!(ruler_ticks((5, 4)).is_empty());
    let last = ruler_ticks((i64::MAX - 1, i64::MAX));
    assert_eq!(last.len(), 2);
    assert_eq!(last[1], Tick { frame: i64::MAX, major: false });
    let edit = Session::set_composition_range(COMP, None, Some(90));
    assert_eq!(edit.label, "Duration");
}
