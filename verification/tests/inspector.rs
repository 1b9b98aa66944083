//! The inspector's blocks, rows and editors.
use renamite::arrange::Move;
use renamite::commands::{BlendMode, EditorCommand, GradientKind, Property, ToolOutput};
use renamite::inspect::{
    appearance_for, apply_channel, can_remove_stop, diamond_look, diamond_state,
    find_shape_painted_by, has_diamond, hex_color, paint_style_id, percent_line, row_editor, same_value,
    section_runs, segment_is_active, stop_base, swatch_target, toggle_keys, Block,
    Channel, DiamondState, Inspection, NumberEditor, NumberView, PropKind, PropRow, RowEditor,
    SceneItem, StopPart, StyleLinks, ValueKind,
};
use renamite::model::{
    Composition, Document, Location, Node, NodeKind, Parent, ShapeKind, StyleKind,
};
use renamite::propedit::{
    add_modifier, axis_labels, blend_index, blend_label, can_remove_dash_pair, change_dashes,
    composition_title, dash_label, dash_path, dimensions_line, duration_line, font_chips, modifier_chips,
    modifier_label, optional_edit, set_blend, set_choice, set_composition_end,
    set_composition_name, set_composition_rate, set_composition_side, set_font, set_image_crop,
    set_layer_end, set_layer_stretch, set_node_name, set_paint, set_precomp_offset,
    set_precomp_source, set_precomp_stretch, set_switch, set_text, style_action,
    style_action_label, style_actions, switch_label, DashChange, ModifierKind, PaintKind,
    RangeEnd, Side, StyleAction,
};
use renamite::session::{EditorMode, PickerTarget, Session};

const COMP: u64 = 100;

fn node(id: u64, kind: NodeKind, parent: Parent, children: &[u64]) -> Node {
    Node {
        id,
        name: format!("Node {}", id),
        kind,
        parent: match parent {
            Parent::Node(p) => Some(p),
            Parent::Comp(_) => None,
        },
        location: Some(Location { parent, index: 0 }),
        children: children.to_vec(),
        locked: id == 5,
        visible: true,
        content: id,
    }
}

/// A group of one path with its fill, a group of a text, a locked layer and an image.
fn sample() -> Document {
    let top = Parent::Comp(COMP);
    Document::new(
        vec![
            node(1, NodeKind::Group, top, &[2, 3]),
            node(2, NodeKind::Shape(ShapeKind::Path), Parent::Node(1), &[]),
            node(3, NodeKind::Style(StyleKind::Fill), Parent::Node(1), &[]),
            node(4, NodeKind::Group, top, &[6]),
            node(5, NodeKind::Layer, top, &[]),
            node(6, NodeKind::Text, Parent::Node(4), &[]),
            node(7, NodeKind::Image, top, &[]),
        ],
        vec![Composition {
            id: COMP,
            name: "Main".to_string(),
            children: vec![1, 4, 5, 7],
            range: (0, 60),
            size: (640, 480),
        }],
        COMP,
    )
    .unwrap()
}

fn session(selection: &[u64]) -> Session {
    let mut s = Session::new((0, 60), None, 7);
    s.selection = selection.to_vec();
    s
}

fn write() -> EditorCommand {
    EditorCommand::SetProperty { id: 2, prop: Property::Listed(1), value: 9, keyed: false }
}

#[test]
fn groups_of_one_stand_for_what_they_hold() {
    let doc = sample();
    assert_eq!(doc.primary_content_in_group(1), Some(2));
    assert_eq!(doc.effective_inspect_id(1), 2);
    assert_eq!(doc.effective_inspect_id(2), 2);
    // Inspecting what is inspected changes nothing.
    assert_eq!(doc.effective_inspect_id(doc.effective_inspect_id(1)), 2);
    assert_eq!(doc.effective_inspect_id(5), 5);
    assert_eq!(doc.text_node(6), Some(6));
    assert_eq!(doc.text_node(4), Some(6));
    assert_eq!(doc.text_node(1), None);
    assert_eq!(doc.modifier_target(1), Some((2, ShapeKind::Path)));
    assert_eq!(doc.modifier_target(4), None);
}

#[test]
fn the_topmost_painting_is_inspected() {
    let doc = sample();
    let items = vec![
        SceneItem { node: 2, style: 3, kind: StyleKind::Fill },
        SceneItem { node: 6, style: 3, kind: StyleKind::Fill },
    ];
    assert_eq!(find_shape_painted_by(&items, 3), Some(6));
    assert_eq!(find_shape_painted_by(&items, 8), None);
    assert_eq!(paint_style_id(&doc, &items, 3), Some(3));
    assert_eq!(paint_style_id(&doc, &items, 2), Some(3));
    assert_eq!(paint_style_id(&doc, &items, 5), None);
    let none = StyleLinks { fill: None, stroke: None };
    let app = appearance_for(&doc, &items, none, 1).unwrap();
    assert_eq!((app.shape, app.fill, app.stroke), (2, Some(3), None));
    let style = appearance_for(&doc, &items, none, 3).unwrap();
    assert_eq!((style.shape, style.fill, style.stroke), (6, Some(3), None));
    assert!(appearance_for(&doc, &items, none, 5).is_none());
    assert!(appearance_for(&doc, &items, none, 9).is_none());
}

#[test]
fn neighbouring_rows_share_a_section() {
    let rows = vec![
        PropRow { section: "Transform", row: 1 },
        PropRow { section: "Transform", row: 2 },
        PropRow { section: "Path", row: 3 },
        PropRow { section: "Transform", row: 4 },
    ];
    let runs = section_runs(&rows);
    let shape: Vec<(&str, usize, usize)> = runs.iter().map(|r| (r.section, r.from, r.to)).collect();
    assert_eq!(shape, vec![("Transform", 0, 2), ("Path", 2, 3), ("Transform", 3, 4)]);
    assert!(section_runs(&vec![]).is_empty());
}

#[test]
fn panels_show_blocks_for_the_selection() {
    let doc = sample();
    let host = Inspection {
        links: StyleLinks { fill: None, stroke: None },
        fill_rows: false,
        stroke_rows: false,
        image_known: false,
    };
    let rows = vec![PropRow { section: "Transform", row: 1 }];
    let s = session(&[2]);
    let blocks = s.property_blocks(&doc, &vec![], host, &rows);
    assert!(matches!(blocks[0], Block::Identity { id: 2 }));
    assert!(blocks.iter().any(|b| matches!(b, Block::Modifiers { shape: 2, .. })));
    let none = session(&[]).property_blocks(&doc, &vec![], host, &rows);
    assert_eq!(none.len(), 1);
    assert!(matches!(none[0], Block::CompositionBlock { comp: COMP }));
    let both = session(&[2, 6]);
    assert_eq!(both.property_blocks(&doc, &vec![], host, &rows).len(), 1);
    assert_eq!(both.inspect_ids(&doc), vec![2, 6]);
    assert_eq!(session(&[1]).inspect_ids(&doc), vec![2]);
    assert_eq!(both.properties_title(&doc), "2 layers");
    assert_eq!(s.properties_title(&doc), "Node 2");
    assert_eq!(session(&[9]).properties_title(&doc), "Properties");
}

#[test]
fn numbers_are_dragged_in_one_transaction() {
    let mut s = session(&[2]);
    assert_eq!(s.drag_number(1, 0), None);
    s.press_number(1, 0, vec![2], vec![5], 6);
    assert_eq!(s.drag_number(1, 1), None);
    assert_eq!(s.drag_number(1, 0), Some(true));
    assert_eq!(s.drag_number(1, 0), Some(false));
    assert!(s.release_number());
    assert!(!s.release_number());
    let ids = vec![2];
    assert_eq!(s.drag_outputs(true, 1, &ids, 9).len(), 2);
    let outputs = s.drag_outputs(false, 1, &ids, 9);
    assert_eq!(outputs.len(), 1);
    assert!(matches!(&outputs[0], ToolOutput::Commands(c) if *c == vec![write()]));
    assert_eq!(
        same_value(&vec![4, 2], 9),
        vec![Move { id: 4, value: Some(9) }, Move { id: 2, value: Some(9) }]
    );
    assert_eq!(s.typed_number(1, &vec![4, 2], Some(9)).unwrap().commands.len(), 2);
    let typed = s.typed_number(1, &ids, Some(9)).unwrap();
    assert_eq!(typed.label, "Edit property");
    assert_eq!(typed.commands, vec![write()]);
    assert!(s.typed_number(1, &ids, None).is_none());
}

#[test]
fn rows_write_keys_only_while_animating() {
    let mut s = session(&[2]);
    let ids = vec![2];
    s.record = true;
    for mode in [EditorMode::Design, EditorMode::Interact] {
        s.mode = mode;
        assert_eq!(s.typed_number(1, &ids, Some(9)).unwrap().commands, vec![write()]);
    }
    s.mode = EditorMode::Animate;
    assert_eq!(
        s.typed_number(1, &ids, Some(9)).unwrap().commands,
        vec![EditorCommand::SetProperty {
            id: 2,
            prop: Property::Listed(1),
            value: 9,
            keyed: true,
        }]
    );
}

#[test]
fn number_fields_open_and_close() {
    let mut n = NumberEditor::new("1.00".to_string());
    assert_eq!(n.frame(false), NumberView::Number);
    n.open("1.00".to_string());
    assert_eq!(n.frame(false), NumberView::Input { ask_focus: true });
    assert_eq!(n.frame(true), NumberView::Input { ask_focus: false });
    n.edited("2".to_string());
    assert_eq!(n.draft, "2");
    assert_eq!(n.frame(false), NumberView::Number);
    assert!(!n.editing);
}

#[test]
fn diamonds_fade_in_design_mode() {
    assert_eq!(diamond_state(true, true), DiamondState::AtPlayhead);
    assert_eq!(diamond_state(false, true), DiamondState::HasKeys);
    assert_eq!(diamond_state(false, false), DiamondState::Empty);
    assert_eq!(diamond_look(DiamondState::Empty, true), None);
    assert_eq!(diamond_look(DiamondState::HasKeys, true).unwrap().alpha, 102);
    let look = diamond_look(DiamondState::AtPlayhead, false).unwrap();
    assert_eq!((look.filled, look.tip, look.alpha), (true, "Remove keyframe", 255));
    let mut s = session(&[]);
    assert!(s.diamonds_are_quiet());
    s.mode = EditorMode::Animate;
    assert!(!s.diamonds_are_quiet());
    assert_eq!(s.record_tip(), Some("Record keys on edit"));
    assert_eq!(session(&[]).record_tip(), None);
    assert!(toggle_keys(vec![]).is_none());
    assert_eq!(toggle_keys(vec![write()]).unwrap().label, "Keyframe");
    s.toggle_record();
    assert!(s.record);
    s.use_as_current_paint(44);
    assert_eq!(s.current_paint, 44);
    assert_eq!(s.status.unwrap().to_text(), "Current paint updated");
}

#[test]
fn rows_get_the_editor_of_their_value() {
    assert_eq!(
        row_editor(PropKind::ThreeChoices, ValueKind::Whole),
        RowEditor::Segments { count: 3 }
    );
    assert_eq!(row_editor(PropKind::Angle, ValueKind::Number), RowEditor::Number);
    assert_eq!(row_editor(PropKind::Color, ValueKind::Number), RowEditor::Nothing);
    assert!(!has_diamond(RowEditor::Switch));
    assert!(has_diamond(RowEditor::Pair));
    assert!(segment_is_active(1, 1));
    assert!(!segment_is_active(-1, 1));
}

#[test]
fn channels_of_stops_match_their_base() {
    assert_eq!(apply_channel(ValueKind::Point, 0, 1), Channel::Y);
    assert_eq!(apply_channel(ValueKind::Color, 0, 3), Channel::Alpha);
    for index in 0..3 {
        assert_eq!(
            apply_channel(ValueKind::Stops, 3, stop_base(index)),
            Channel::Stop { index, part: StopPart::Offset }
        );
        assert_eq!(
            apply_channel(ValueKind::Stops, 3, stop_base(index) + 4),
            Channel::Stop { index, part: StopPart::Alpha }
        );
    }
    assert_eq!(apply_channel(ValueKind::Stops, 3, stop_base(3)), Channel::Nothing);
    assert!(can_remove_stop(1, 3));
    assert!(!can_remove_stop(1, 2));
    assert!(!can_remove_stop(3, 3));
}

#[test]
fn colors_in_words() {
    let doc = sample();
    assert_eq!(hex_color(255, 10, 0), "#FF0A00");
    assert_eq!(percent_line(-5), "-5%");
    assert_eq!(swatch_target(&doc, &vec![3]), Some(PickerTarget::StyleColor { style_id: 3 }));
    assert_eq!(swatch_target(&doc, &vec![2]), None);
    assert_eq!(swatch_target(&doc, &vec![3, 3]), None);
}

#[test]
fn names_are_trimmed_and_not_empty() {
    let doc = sample();
    let edit = set_composition_name(COMP, "  Intro ").unwrap();
    assert_eq!((edit.label, edit.id, edit.name.as_str()), ("Set composition name", COMP, "Intro"));
    assert!(set_composition_name(COMP, "  ").is_none());
    assert_eq!(set_node_name(&doc, 2, "Leaf").unwrap().label, "Rename");
    assert!(set_node_name(&doc, 5, "Leaf").is_none());
    assert!(set_node_name(&doc, 9, "Leaf").is_none());
}

#[test]
fn composition_fields_read_numbers() {
    assert_eq!(
        set_composition_side(COMP, (640, 480), Side::Width, "800").unwrap().commands,
        vec![EditorCommand::SetCompositionSize { comp: COMP, width: 800, height: 480 }]
    );
    assert_eq!(
        set_composition_side(COMP, (640, 480), Side::Height, "0").unwrap().commands,
        vec![EditorCommand::SetCompositionSize { comp: COMP, width: 640, height: 1 }]
    );
    assert!(set_composition_side(COMP, (640, 480), Side::Width, "-1").is_none());
    assert!(set_composition_side(COMP, (640, 480), Side::Width, "4294967296").is_none());
    assert_eq!(
        set_composition_rate(COMP, "30").unwrap().commands,
        vec![EditorCommand::SetCompositionRate { comp: COMP, rate: 30 }]
    );
    assert_eq!(
        set_composition_end(COMP, RangeEnd::In, "-12").unwrap().commands,
        vec![EditorCommand::SetCompositionRange { comp: COMP, start: Some(-12), end: None }]
    );
    assert!(set_composition_end(COMP, RangeEnd::Out, "ten").is_none());
    assert_eq!(composition_title("Intro"), "Composition · Intro");
    assert_eq!(duration_line((0, 60)), "60 frames");
    assert_eq!(duration_line((10, 0)), "0 frames");
}

#[test]
fn shown_numbers_read_back() {
    for n in [-12i64, 0, 7, 100, i64::MAX, i64::MIN] {
        let line = percent_line(n);
        let text = line.trim_end_matches('%');
        assert_eq!(
            set_composition_end(COMP, RangeEnd::In, text).unwrap().commands,
            vec![EditorCommand::SetCompositionRange { comp: COMP, start: Some(n), end: None }]
        );
    }
}

#[test]
fn layers_and_precomps_take_their_time() {
    assert_eq!(set_layer_end(5, RangeEnd::Out, "40").unwrap().label, "Set layer out");
    assert!(set_layer_end(5, RangeEnd::Out, "").is_none());
    assert_eq!(set_layer_stretch(5, Some(3)).unwrap().label, "Set layer stretch");
    assert!(set_layer_stretch(5, None).is_none());
    assert_eq!(
        set_precomp_offset(5, "7").unwrap().commands,
        vec![EditorCommand::SetPrecompTimeMap { id: 5, offset: Some(7), stretch: None }]
    );
    assert!(set_precomp_stretch(5, None).is_none());
    assert!(set_precomp_source(5, 100, 100).is_none());
    assert_eq!(
        set_precomp_source(5, 100, 101).unwrap().commands,
        vec![EditorCommand::SetPrecompComp { id: 5, comp: 101 }]
    );
}

#[test]
fn blend_chips_match_their_modes() {
    let modes = [
        BlendMode::Normal,
        BlendMode::Multiply,
        BlendMode::ColorDodge,
        BlendMode::Luminosity,
    ];
    for mode in modes {
        let edit = set_blend(5, blend_index(mode));
        assert_eq!(
            edit.commands,
            vec![EditorCommand::SetLayerProps {
                id: 5,
                in_frame: None,
                out_frame: None,
                stretch: None,
                blend: Some(mode),
            }]
        );
    }
    assert_eq!(blend_label(BlendMode::SoftLight), "SoftLight");
}

#[test]
fn images_texts_and_fonts() {
    let doc = sample();
    assert_eq!(
        set_image_crop(&doc, 7, Some(2)).unwrap().commands,
        vec![EditorCommand::SetImageCrop { id: 7, crop: 2 }]
    );
    assert!(set_image_crop(&doc, 2, Some(2)).is_none());
    assert!(set_image_crop(&doc, 7, None).is_none());
    assert_eq!(dimensions_line(20, 10), "20×10 px");
    assert_eq!(set_text(6, 3).label, "Edit text");
    assert_eq!(set_font(6, None).commands, vec![EditorCommand::SetTextFont { id: 6, font: None }]);
    let families = vec!["Sans".to_string(), "Serif".to_string()];
    assert_eq!(font_chips(&families, None), vec![true, false, false]);
    assert_eq!(font_chips(&families, Some("Serif")), vec![false, false, true]);
}

#[test]
fn styles_and_modifiers_are_added_and_removed() {
    let (fill, stroke) = style_actions(true, false);
    assert_eq!(style_action_label(fill), "Remove fill");
    assert_eq!(style_action_label(stroke), "Add stroke");
    let add = StyleAction { kind: StyleKind::Fill, remove: false };
    assert_eq!(style_action(add, Some(write())).unwrap().label, "Add fill");
    assert!(style_action(add, None).is_none());
    assert!(optional_edit("Anything", None).is_none());
    assert!(modifier_chips(ShapeKind::Rect).contains(&ModifierKind::RoundCorners));
    assert!(!modifier_chips(ShapeKind::Star).contains(&ModifierKind::RoundCorners));
    assert_eq!(modifier_label(ModifierKind::PuckerBloat), "Pucker & Bloat");
    assert_eq!(
        add_modifier(ModifierKind::ZigZag, Some(write())).unwrap().label,
        "Add Zig Zag"
    );
}

#[test]
fn choices_switches_paints_and_dashes() {
    assert_eq!(set_choice("fill.rule", vec![write()]).unwrap().label, "Set fill.rule");
    assert!(set_choice("fill.rule", vec![]).is_none());
    assert_eq!(set_switch("Smooth", vec![write()]).unwrap().label, "Toggle Smooth");
    assert_eq!(switch_label("mask.inverted", true), "Inverted");
    assert_eq!(switch_label("zigzag.smooth", false), "Corner");
    assert_eq!(switch_label("anything", true), "On");
    let linear = PaintKind::Gradient(GradientKind::Linear);
    let radial = PaintKind::Gradient(GradientKind::Radial);
    assert!(set_paint(3, None, linear, 1, 2).is_none());
    assert!(set_paint(3, Some(linear), linear, 1, 2).is_none());
    assert_eq!(
        set_paint(3, Some(linear), radial, 1, 2).unwrap().commands,
        vec![EditorCommand::SetPaint { id: 3, paint: 1 }]
    );
    assert_eq!(
        set_paint(3, Some(PaintKind::Solid), linear, 1, 2).unwrap().commands,
        vec![EditorCommand::ConvertToGradient { id: 3, kind: GradientKind::Linear, axis: 2 }]
    );
    assert_eq!(axis_labels(GradientKind::Radial), ("Center", "Edge"));
    assert_eq!(dash_label(0), "Dash 1");
    assert_eq!(dash_label(3), "Gap 2");
    assert_eq!(dash_path(2), "stroke.dash.2");
    assert!(can_remove_dash_pair(4));
    assert!(!can_remove_dash_pair(2));
    assert_eq!(change_dashes(DashChange::Disable, Some(write())).unwrap().label, "Disable dashes");
    assert!(change_dashes(DashChange::AddPair, None).is_none());
}
