//! The document's walks, the clipboard and the commands on a selection.
use renamite::arrange::{nudge_step, Modifiers, Move};
use renamite::clipboard::EditClosed;
use renamite::commands::{
    Applied, Edit, EditorCommand, Head, KindSource, Label, Message, Property, SelectionChange,
    ToolId, ToolOutput, TreeSource,
};
use renamite::model::{
    Composition, Document, DocumentError, Location, Node, NodeKind, Parent, ShapeKind, StyleKind,
};
use renamite::pathops::{
    contours_in_subject_space, piece_name, shape_kind_from_contours, Contours, DivideRun, SelectionBoolean,
};
use renamite::session::{
    EditorMode, OutputEnd, OutputRun, OutputStep, PanelPage, PickerTarget, PlayState, Session,
    StyleCopy,
};
use renamite::strokes::StrokeTarget;
use renamite::tree::TreeRow;

const COMP: u64 = 100;

fn node(id: u64, kind: NodeKind, parent: Parent, index: usize, children: &[u64]) -> Node {
    Node {
        id,
        name: format!("Node {}", id),
        kind,
        parent: match parent {
            Parent::Node(p) => Some(p),
            Parent::Comp(_) => None,
        },
        location: Some(Location { parent, index }),
        children: children.to_vec(),
        locked: false,
        visible: true,
        content: id + 10,
    }
}

fn comp(children: &[u64]) -> Composition {
    Composition {
        id: COMP,
        name: "Main".to_string(),
        children: children.to_vec(),
        range: (0, 60),
        size: (640, 480),
    }
}

/// A group of a rectangle and its fill, a path, a stroke and a locked compound path.
fn sample_nodes() -> Vec<Node> {
    let top = Parent::Comp(COMP);
    let mut locked = node(6, NodeKind::Shape(ShapeKind::CompoundPath), top, 3, &[]);
    locked.locked = true;
    vec![
        node(1, NodeKind::Group, top, 0, &[2, 3]),
        node(2, NodeKind::Shape(ShapeKind::Rect), Parent::Node(1), 0, &[]),
        node(3, NodeKind::Style(StyleKind::Fill), Parent::Node(1), 1, &[]),
        node(4, NodeKind::Shape(ShapeKind::Path), top, 1, &[]),
        node(5, NodeKind::Style(StyleKind::Stroke), top, 2, &[]),
        locked,
    ]
}

fn sample() -> Document {
    Document::new(sample_nodes(), vec![comp(&[1, 4, 5, 6])], COMP).unwrap()
}

fn session(selection: &[u64]) -> Session {
    let mut s = Session::new((0, 60), None, 7);
    s.selection = selection.to_vec();
    s
}

fn created(id: u64) -> Applied {
    Applied { created: Some(id), created_machine: None, created_clip: None }
}

fn plain() -> Applied {
    Applied { created: None, created_machine: None, created_clip: None }
}

fn status(s: &Session) -> String {
    match &s.status {
        Some(m) => m.to_text(),
        None => String::new(),
    }
}

fn removals(ids: &[u64]) -> Vec<EditorCommand> {
    ids.iter().map(|id| EditorCommand::RemoveNode { id: *id }).collect()
}

#[test]
fn documents_are_trees() {
    let doc = sample();
    assert!(doc.contains(2));
    assert!(!doc.contains(9));
    assert_eq!(doc.get(4).unwrap().name, "Node 4");
    assert_eq!(doc.parent_of(2), Some(1));
    assert_eq!(doc.parent_of(1), None);

    let mut twice = sample_nodes();
    twice.push(node(2, NodeKind::Group, Parent::Comp(COMP), 4, &[]));
    assert_eq!(
        Document::new(twice, vec![comp(&[1])], COMP).err(),
        Some(DocumentError::DuplicateNode)
    );

    let looped = vec![
        node(1, NodeKind::Group, Parent::Node(2), 0, &[2]),
        node(2, NodeKind::Group, Parent::Node(1), 0, &[1]),
    ];
    assert_eq!(Document::new(looped, vec![comp(&[])], COMP).err(), Some(DocumentError::Cyclic));
}

#[test]
fn roots_leave_out_what_a_root_contains() {
    let doc = sample();
    let roots = doc.selected_roots(&vec![2, 1, 4]);
    assert_eq!(roots, vec![1, 4]);
    assert_eq!(doc.selected_roots(&roots), roots);
    assert_eq!(doc.selected_roots(&vec![2, 4]), vec![2, 4]);
    assert_eq!(doc.selected_roots(&vec![]), Vec::<u64>::new());
}

#[test]
fn forests_and_trees_list_parents_first() {
    let doc = sample();
    assert_eq!(doc.collect_forest(&vec![4, 1]), vec![4, 1, 2, 3]);
    assert!(doc.is_complete(1));
    assert_eq!(
        doc.tree_of(1),
        vec![
            TreeRow { content: 11, children: 2 },
            TreeRow { content: 12, children: 0 },
            TreeRow { content: 13, children: 0 },
        ]
    );
    let dangling = Document::new(
        vec![node(1, NodeKind::Group, Parent::Comp(COMP), 0, &[8])],
        vec![comp(&[1])],
        COMP,
    )
    .unwrap();
    assert!(!dangling.is_complete(1));
    assert!(!{
        let s = session(&[1]);
        s.may_copy(&dangling)
    });
    let locked = Document::new(
        vec![
            Node { locked: true, ..node(1, NodeKind::Group, Parent::Comp(COMP), 0, &[8]) },
            node(2, NodeKind::Group, Parent::Comp(COMP), 1, &[]),
            Node { location: None, ..node(3, NodeKind::Group, Parent::Comp(COMP), 2, &[8]) },
        ],
        vec![comp(&[1, 2])],
        COMP,
    )
    .unwrap();
    assert!(session(&[1, 2, 3]).may_copy(&locked));
    assert!(!session(&[1, 2, 3]).may_duplicate(&locked));
    assert!(session(&[1, 2]).may_duplicate(&locked));
}

#[test]
fn styles_are_found_outwards() {
    let doc = sample();
    assert_eq!(doc.nearest_style_node(2, StyleKind::Fill), Some(3));
    assert_eq!(doc.nearest_style_node(2, StyleKind::Stroke), Some(5));
    assert_eq!(doc.nearest_style_node(4, StyleKind::Fill), None);
    assert_eq!(doc.style_scope_info(3), Some((Parent::Node(1), false)));
    assert_eq!(doc.style_scope_info(5), Some((Parent::Comp(COMP), true)));
    assert_eq!(doc.style_scope_info(9), None);
}

#[test]
fn attachment_needs_a_parent_or_a_composition() {
    let mut nodes = sample_nodes();
    nodes.push(Node { location: None, ..node(7, NodeKind::Group, Parent::Comp(COMP), 0, &[]) });
    let doc = Document::new(nodes, vec![comp(&[1, 4, 5, 6])], COMP).unwrap();
    assert!(doc.node_is_attached(2));
    assert!(doc.node_is_attached(4));
    assert!(!doc.node_is_attached(7));
    assert!(!doc.node_is_attached(9));
    assert!(doc.parent_is_attached(Parent::Comp(COMP)));
    assert!(!doc.parent_is_attached(Parent::Comp(101)));
    assert!(!doc.parent_is_attached(Parent::Node(7)));
}

#[test]
fn shapes_come_bottom_first() {
    let doc = sample();
    assert_eq!(doc.selected_shape_roots_in_z_order(&vec![1, 4]), vec![4, 2]);
    assert_eq!(doc.selected_shape_roots_in_z_order(&vec![4, 6, 2]), vec![6, 4, 2]);
    assert_eq!(doc.selected_shape_roots_in_z_order(&vec![5]), Vec::<u64>::new());
}

#[test]
fn pasting_gives_back_what_was_copied() {
    let doc = sample();
    let mut s = session(&[2, 1, 4]);
    assert!(s.may_copy(&doc));
    s.copy_selection(&doc, false);
    let payload = s.clipboard.as_ref().unwrap();
    assert_eq!(payload.items.len(), 2);
    assert_eq!(payload.items[0].source_parent, Parent::Comp(COMP));
    assert_eq!(payload.items[1].source_index, 1);
    assert_eq!(
        payload.style_nodes,
        vec![
            StyleCopy { kind: StyleKind::Fill, content: 13 },
            StyleCopy { kind: StyleKind::Stroke, content: 15 },
        ]
    );

    let (_, mut run) = s.paste_selection(false).unwrap();
    assert_eq!(run.label, "Paste");
    assert_eq!(run.items[0].tree, doc.tree_of(1));
    assert_eq!(run.items[1].tree, doc.tree_of(4));
    assert_eq!(
        run.next_command(&doc),
        Some(EditorCommand::InsertNode {
            parent: Parent::Comp(COMP),
            index: 0,
            tree: TreeSource::Item { item: 0, shifted: true },
        })
    );
    run.inserted(Some(50));
    assert_eq!(
        run.next_command(&doc),
        Some(EditorCommand::InsertNode {
            parent: Parent::Comp(COMP),
            index: 0,
            tree: TreeSource::Item { item: 1, shifted: true },
        })
    );
    run.inserted(None);
    assert_eq!(run.next_command(&doc), None);
    assert!(s.finish_insert(run, &doc));
    assert_eq!(s.selection, vec![50]);
    assert!(s.dirty);
}

#[test]
fn pasting_in_place_goes_back_in_order() {
    let doc = sample();
    let mut s = session(&[4, 1]);
    s.copy_selection(&doc, false);
    let (_, mut run) = s.paste_clipboard_in_place(false).unwrap();
    assert_eq!(run.label, "Paste in place");
    assert_eq!(
        run.next_command(&doc),
        Some(EditorCommand::InsertNode {
            parent: Parent::Comp(COMP),
            index: 0,
            tree: TreeSource::Item { item: run.order[0], shifted: false },
        })
    );
    assert_eq!(run.items[run.order[0]].tree, doc.tree_of(1));
    run.inserted(Some(60));
    assert_eq!(
        run.next_command(&doc),
        Some(EditorCommand::InsertNode {
            parent: Parent::Comp(COMP),
            index: 1,
            tree: TreeSource::Item { item: run.order[1], shifted: false },
        })
    );
}

#[test]
fn cutting_is_copying_and_removing() {
    let doc = sample();
    let mut cut = session(&[1, 2, 4]);
    let mut copied = session(&[1, 2, 4]);
    let edit = cut.cut_selection(&doc, false).1.unwrap();
    copied.copy_selection(&doc, false);
    assert_eq!(edit.label, "Cut");
    assert_eq!(edit.commands, removals(&[1, 4]));
    assert_eq!(edit.select, Some(vec![]));
    let a = cut.clipboard.unwrap();
    let b = copied.clipboard.unwrap();
    assert_eq!(a.items.len(), b.items.len());
    assert_eq!(a.items[0].tree, b.items[0].tree);
    assert_eq!(a.style_nodes, b.style_nodes);
}

#[test]
fn locked_and_empty_selections_are_refused() {
    let doc = sample();
    let mut s = session(&[6]);
    s.copy_selection(&doc, false);
    assert!(s.clipboard.is_none());
    assert_eq!(status(&s), "Nothing to copy: selection is empty or locked");
    assert_eq!(s.revision, 1);
    assert!(s.cut_selection(&doc, false).1.is_none());
    assert!(s.duplicate_selection(&doc, false).1.is_none());
    assert_eq!(status(&s), "Nothing to duplicate: selection is empty or locked");
    assert!(s.paste_clipboard(false).is_none());
    assert_eq!(status(&s), "Clipboard empty");
    assert!(s.delete_selection_nodes(&doc, false).is_none());
    assert_eq!(status(&s), "Locked layers cannot be deleted");
}

#[test]
fn duplicating_leaves_the_clipboard_alone() {
    let doc = sample();
    let mut s = session(&[4]);
    let run = s.duplicate_selection(&doc, false).1.unwrap();
    assert_eq!(run.label, "Duplicate");
    assert_eq!(run.items[0].tree, doc.tree_of(4));
    assert!(s.clipboard.is_none());
}

#[test]
fn styles_paste_onto_their_own_node_or_into_a_group() {
    let doc = sample();
    let mut s = session(&[]);
    assert!(s.paste_style(&doc, false).is_none());
    assert_eq!(status(&s), "Clipboard empty");
    s.selection = vec![2];
    s.copy_selection(&doc, false);
    s.selection = vec![];
    assert!(s.paste_style(&doc, false).is_none());
    assert_eq!(status(&s), "Select objects to paste the style onto");

    // The path has no fill of its own and shares its stroke: both go into a group.
    s.selection = vec![4];
    let (_, mut run) = s.paste_style(&doc, false).unwrap();
    assert_eq!(run.label(), "Paste style");
    assert_eq!(
        run.next_command(&doc),
        Some(EditorCommand::InsertNode {
            parent: Parent::Comp(COMP),
            index: 1,
            tree: TreeSource::Group { name: "Styled" },
        })
    );
    run.replied(Some(created(70)));
    assert_eq!(
        run.next_command(&doc),
        Some(EditorCommand::MoveNode { id: 4, new_parent: Parent::Node(70), index: 0 })
    );
    run.replied(Some(plain()));
    assert_eq!(
        run.next_command(&doc),
        Some(EditorCommand::InsertNode {
            parent: Parent::Node(70),
            index: usize::MAX,
            tree: TreeSource::Style { kind: StyleKind::Fill, content: 13 },
        })
    );
    run.replied(Some(created(71)));
    assert_eq!(
        run.next_command(&doc),
        Some(EditorCommand::InsertNode {
            parent: Parent::Node(70),
            index: usize::MAX,
            tree: TreeSource::Style { kind: StyleKind::Stroke, content: 15 },
        })
    );
    run.replied(None);
    assert_eq!(run.next_command(&doc), None);
    assert!(run.failed);
    s.finish_paste_style(run.failed);
    assert_eq!(status(&s), "Paste style failed on part of the selection");
}

#[test]
fn styles_without_a_place_paste_nowhere() {
    let doc = sample();
    let mut s = session(&[2]);
    s.copy_selection(&doc, false);
    s.selection = vec![9];
    assert!(s.paste_style(&doc, false).is_none());
    assert_eq!(status(&s), "Nothing to paste");
    let bare = Document::new(
        vec![node(4, NodeKind::Shape(ShapeKind::Path), Parent::Comp(COMP), 0, &[])],
        vec![comp(&[4])],
        COMP,
    )
    .unwrap();
    s.selection = vec![4];
    s.copy_selection(&bare, false);
    assert!(s.paste_style(&bare, false).is_none());
    assert_eq!(status(&s), "No style on the clipboard");
}

#[test]
fn strokes_become_outlines() {
    let doc = sample();
    let mut s = session(&[4]);
    let targets = s.stroke_targets(&doc);
    assert_eq!(targets, vec![StrokeTarget { shape: 4, stroke: 5 }]);
    let (_, mut run) = s.stroke_selection_to_path(&doc, &vec![Some(90)], false).unwrap();
    assert_eq!(run.label(), "Stroke to path");
    assert!(run.conversions[0].shared);
    assert_eq!(
        run.next_command(&doc),
        Some(EditorCommand::SetNodeKind { id: 4, kind: KindSource::Compound { contours: 90 } })
    );
    run.replied(Some(plain()));
    assert_eq!(
        run.next_command(&doc),
        Some(EditorCommand::InsertNode {
            parent: Parent::Comp(COMP),
            index: 1,
            tree: TreeSource::Group { name: "Stroked Path" },
        })
    );

    assert!(s.stroke_selection_to_path(&doc, &vec![None], false).is_none());
    assert_eq!(status(&s), "No stroked shapes found");
    s.selection = vec![];
    assert!(s.stroke_targets(&doc).is_empty());
    assert!(s.stroke_selection_to_path(&doc, &vec![], false).is_none());
    assert_eq!(status(&s), "Select stroked shapes to convert");
    s.finish_stroke_to_path(true);
    assert_eq!(status(&s), "Stroke to path failed on part of the selection");
}

#[test]
fn contours_make_paths_and_compounds() {
    assert_eq!(shape_kind_from_contours(Contours { list: 1, count: 0, first: 2 }), None);
    assert_eq!(
        shape_kind_from_contours(Contours { list: 1, count: 1, first: 2 }),
        Some(KindSource::Path { contour: 2 })
    );
    assert_eq!(
        shape_kind_from_contours(Contours { list: 1, count: 3, first: 2 }),
        Some(KindSource::Compound { contours: 1 })
    );
    assert_eq!(piece_name("Star", 2), "Star 2");
}

#[test]
fn booleans_merge_into_the_bottom_shape() {
    let doc = sample();
    let mut s = session(&[1, 4]);
    let ids = s.boolean_selection(&doc).unwrap();
    assert_eq!(ids, vec![4, 2]);
    let subject = Contours { list: 30, count: 1, first: 31 };
    let mut run = s.boolean_subject(SelectionBoolean::Union, ids.clone(), subject).unwrap();
    assert_eq!(run.next_cutter(), Some(2));
    run.cut(Contours { list: 32, count: 2, first: 33 });
    assert_eq!(run.next_cutter(), None);
    let edit = run.finish();
    assert_eq!(edit.label, "Union");
    assert_eq!(
        edit.commands,
        vec![
            EditorCommand::SetNodeKind { id: 4, kind: KindSource::Compound { contours: 32 } },
            EditorCommand::RemoveNode { id: 2 },
        ]
    );
    assert_eq!(edit.select, Some(vec![4]));

    let mut empty = s.boolean_subject(SelectionBoolean::Difference, ids.clone(), subject).unwrap();
    empty.cut(Contours { list: 34, count: 0, first: 0 });
    let gone = empty.finish();
    assert_eq!(gone.label, "Difference");
    assert_eq!(gone.commands, removals(&[4, 2]));
    assert_eq!(gone.select, Some(vec![]));

    let nothing = Contours { list: 35, count: 0, first: 0 };
    assert!(s.boolean_subject(SelectionBoolean::Xor, ids, nothing).is_none());
    assert_eq!(status(&s), "The subject has no geometry");
    s.selection = vec![4];
    assert!(s.boolean_selection(&doc).is_none());
    assert_eq!(status(&s), "Select at least two closed shapes");
    assert_eq!(contours_in_subject_space(&doc, 4, true), Ok(()));
    assert_eq!(contours_in_subject_space(&doc, 9, true), Err("Selected node no longer exists"));
    assert_eq!(
        contours_in_subject_space(&doc, 5, true),
        Err("Selection contains non-shape nodes")
    );
    assert_eq!(
        contours_in_subject_space(&doc, 4, false),
        Err("Cannot resolve transforms for the selection")
    );
    s.fail_geometry("Selected node no longer exists".to_string());
    assert_eq!(status(&s), "Selected node no longer exists");
    assert_eq!(SelectionBoolean::Intersection.label(), "Intersection");
    assert_eq!(SelectionBoolean::Xor.label(), "Xor");
}

#[test]
fn dividing_keeps_every_piece() {
    let doc = sample();
    let mut s = session(&[1, 4]);
    let ids = s.divide_selection(&doc, &vec![true, true]).unwrap();
    let mut run = DivideRun::new(ids.clone(), Contours { list: 40, count: 1, first: 41 });
    assert!(run.has_material());
    assert_eq!(run.next_cutter(), Some(2));
    run.cut(Contours { list: 42, count: 1, first: 43 }, Contours { list: 44, count: 2, first: 45 });
    assert_eq!(run.next_cutter(), None);
    let edit = s.finish_divide(&doc, run).unwrap();
    assert_eq!(edit.label, "Division");
    assert_eq!(
        edit.commands,
        vec![
            EditorCommand::SetNodeKind { id: 4, kind: KindSource::Path { contour: 43 } },
            EditorCommand::InsertNode {
                parent: Parent::Comp(COMP),
                index: 2,
                tree: TreeSource::Piece {
                    template: 4,
                    number: 2,
                    kind: KindSource::Compound { contours: 44 },
                },
            },
            EditorCommand::RemoveNode { id: 2 },
        ]
    );

    let none = Contours { list: 46, count: 0, first: 0 };
    let mut nothing = DivideRun::new(ids, none);
    nothing.cut(none, none);
    assert!(s.finish_divide(&doc, nothing).is_none());
    assert_eq!(status(&s), "Division produced no geometry");
    assert!(s.divide_selection(&doc, &vec![false, true]).is_none());
    assert_eq!(status(&s), "Division requires closed shapes (open cutting not supported)");
    s.selection = vec![4];
    assert!(s.divide_selection(&doc, &vec![true]).is_none());
    assert_eq!(status(&s), "Select at least two closed shapes to divide");
}

#[test]
fn combining_and_breaking_apart() {
    let doc = sample();
    let mut s = session(&[1, 4]);
    let ids = s.combine_selection(&doc).unwrap();
    let edit = s.finish_combine(&ids, Contours { list: 50, count: 2, first: 51 }).unwrap();
    assert_eq!(edit.label, "Combine");
    assert_eq!(
        edit.commands,
        vec![
            EditorCommand::SetNodeKind { id: 4, kind: KindSource::Compound { contours: 50 } },
            EditorCommand::RemoveNode { id: 2 },
        ]
    );
    assert!(s.finish_combine(&ids, Contours { list: 50, count: 0, first: 0 }).is_none());
    assert_eq!(status(&s), "Nothing to combine");

    assert!(s.break_apart_selection(&doc, &vec![1, 2]).is_none());
    assert_eq!(status(&s), "Select one combined path to break apart");
    s.selection = vec![4];
    assert!(s.break_apart_selection(&doc, &vec![1, 2]).is_none());
    assert_eq!(status(&s), "Break apart requires a compound path");
    s.selection = vec![6];
    assert!(s.break_apart_selection(&doc, &vec![1]).is_none());
    assert_eq!(status(&s), "The compound path has a single contour");
    let broken = s.break_apart_selection(&doc, &vec![61, 62, 63]).unwrap();
    assert_eq!(broken.label, "Break apart");
    assert_eq!(broken.commands.len(), 3);
    assert_eq!(
        broken.commands[0],
        EditorCommand::SetNodeKind { id: 6, kind: KindSource::Path { contour: 61 } }
    );
    assert_eq!(
        broken.commands[2],
        EditorCommand::InsertNode {
            parent: Parent::Comp(COMP),
            index: 5,
            tree: TreeSource::Piece {
                template: 6,
                number: 3,
                kind: KindSource::Path { contour: 63 },
            },
        }
    );
    s.selection = vec![];
    assert!(s.combine_selection(&doc).is_none());
    assert_eq!(status(&s), "Select at least two objects to combine");
}

#[test]
fn paths_reverse_simplify_and_convert() {
    let doc = sample();
    let mut s = session(&[4, 4]);
    let reversed = s.reverse_selected_paths(&doc).unwrap();
    assert_eq!(reversed.commands, vec![EditorCommand::ReversePath { id: 4 }]);
    s.selection = vec![2];
    assert!(s.reverse_selected_paths(&doc).is_none());
    assert_eq!(status(&s), "Select a path to reverse");

    let targets = s.primitive_targets(&doc);
    assert_eq!(targets, vec![2]);
    let converted = s.convert_selection_to_path(&doc, &vec![80]).unwrap();
    assert_eq!(converted.label, "Object to path");
    assert_eq!(
        converted.commands,
        vec![EditorCommand::SetNodeKind { id: 2, kind: KindSource::Path { contour: 80 } }]
    );
    assert!(s.simplify_selection(&doc, &vec![None]).is_none());
    assert_eq!(status(&s), "Select vector paths to simplify");
    s.selection = vec![4];
    assert!(s.convert_selection_to_path(&doc, &vec![]).is_none());
    assert_eq!(status(&s), "Select a primitive shape to convert");
    let simple = s.simplify_selection(&doc, &vec![Some(81)]).unwrap();
    assert_eq!(
        simple.commands,
        vec![EditorCommand::SetNodeKind { id: 4, kind: KindSource::Path { contour: 81 } }]
    );
    s.selection = vec![];
    assert!(s.simplify_selection(&doc, &vec![]).is_none());
    assert_eq!(status(&s), "Select a path to simplify");
}

#[test]
fn aligning_and_distributing_write_what_changes() {
    let doc = sample();
    let mut s = session(&[1, 4]);
    let moves = vec![Move { id: 1, value: Some(5) }, Move { id: 4, value: None }];
    let edit = s.align_selection(&doc, 2, &moves).unwrap();
    assert_eq!(edit.label, "Align");
    assert_eq!(edit.commands, vec![EditorCommand::SetProperty {
            id: 1,
            prop: Property::Path("transform.position"),
            value: 5,
            keyed: false,
        }]);
    assert!(s.align_selection(&doc, 0, &moves).is_none());
    assert_eq!(status(&s), "Nothing to align");
    assert!(s.distribute_selection(&doc, 2, Some(&moves)).is_none());
    assert_eq!(status(&s), "Select 3+ objects to distribute");
    s.selection = vec![1, 4, 5];
    assert!(s.distribute_selection(&doc, 2, Some(&moves)).is_none());
    assert_eq!(status(&s), "Select 3+ visible objects to distribute");
    assert!(s.distribute_selection(&doc, 3, None).is_none());
    assert_eq!(status(&s), "Nothing to distribute");
    assert_eq!(s.distribute_selection(&doc, 3, Some(&moves)).unwrap().commands.len(), 1);
    assert!(s.flip_selection(&doc, &vec![None, None, None]).is_none());
    assert_eq!(status(&s), "Flip does not apply to the selection");
    let flip = s.flip_selection(&doc, &vec![None, Some(8), None]).unwrap();
    assert_eq!(flip.label, "Flip");
    assert_eq!(flip.commands, vec![EditorCommand::SetProperty {
            id: 4,
            prop: Property::Path("transform.scale"),
            value: 8,
            keyed: false,
        }]);
}

#[test]
fn keys_are_written_only_while_recording_an_animation() {
    let doc = sample();
    let mut s = session(&[4]);
    let positions = vec![Some(5)];
    s.record = true;
    assert!(!s.record_for_writes());
    s.mode = EditorMode::Animate;
    assert!(s.record_for_writes());
    let edit = s.nudge_selection(&doc, false, &positions).unwrap();
    assert_eq!(edit.commands, vec![EditorCommand::SetProperty {
            id: 4,
            prop: Property::Path("transform.position"),
            value: 5,
            keyed: true,
        }]);
    assert!(s.nudge_selection(&doc, true, &positions).is_none());
    s.record = false;
    assert!(!s.record_for_writes());
}

#[test]
fn nudges_are_fine_or_coarse() {
    let none = Modifiers { shift: false, ctrl: false, alt: false };
    assert_eq!(nudge_step(none), 2);
    assert_eq!(nudge_step(Modifiers { alt: true, ..none }), 1);
    assert_eq!(nudge_step(Modifiers { alt: true, shift: true, ..none }), 1);
    assert_eq!(nudge_step(Modifiers { shift: true, ctrl: true, ..none }), 20);
}

#[test]
fn cycling_back_undoes_cycling() {
    let doc = sample();
    let mut s = session(&[4]);
    s.cycle_selection(&doc, false);
    let forward = s.selection.clone();
    assert_ne!(forward, vec![4]);
    s.cycle_selection(&doc, true);
    assert_eq!(s.selection, vec![4]);
    s.select_all_top_level(&doc);
    assert_eq!(s.selection, vec![1, 4, 5, 6]);
    assert!(s.deselect_when_idle(false));
    assert!(s.selection.is_empty());
    assert!(!s.deselect_when_idle(false));
}

#[test]
fn expanding_and_revealing() {
    let doc = sample();
    let mut s = session(&[2]);
    s.ensure_selection_visible(&doc);
    assert!(s.expanded_layers.contains(&1));
    s.set_all_expanded(&doc, false);
    assert!(s.expanded_layers.is_empty());
    s.set_all_expanded(&doc, true);
    assert_eq!(s.expanded_layers.len(), 1);
}

#[test]
fn deleting_removes_the_roots() {
    let doc = sample();
    let mut s = session(&[1, 2, 6]);
    let edit = s.delete_selection_nodes(&doc, false).unwrap();
    assert_eq!(edit.commands, removals(&[1]));
    assert!(s.delete_selection_nodes(&doc, true).is_none());
}

#[test]
fn pivots_are_centred_on_one_object() {
    let mut s = session(&[4]);
    let edit = s.center_pivot(Some((8, 9))).unwrap();
    assert_eq!(
        edit.commands,
        vec![
            EditorCommand::SetStatic { id: 4, prop: "transform.anchor", value: 8 },
            EditorCommand::SetStatic { id: 4, prop: "transform.position", value: 9 },
        ]
    );
    assert!(s.center_pivot(None).is_none());
    s.selection = vec![1, 4];
    assert!(s.center_pivot(Some((8, 9))).is_none());
}

#[test]
fn outputs_of_an_edit_open_and_close_a_transaction() {
    let doc = sample();
    let mut s = session(&[1]);
    let mut run = OutputRun::new();
    let edit = Edit { label: "Delete", commands: removals(&[1]), select: Some(vec![]) };
    let mut steps: Vec<OutputStep> = Vec::new();
    for out in edit.outputs() {
        let step = s.apply_output(&mut run, out, &doc, false);
        if step == OutputStep::Apply {
            s.commands_applied(&mut run, vec![Ok(plain())], &doc, true);
        }
        steps.push(step);
    }
    assert_eq!(
        steps,
        vec![
            OutputStep::Begin(Label::Text("Delete")),
            OutputStep::Apply,
            OutputStep::Commit,
            OutputStep::Done,
        ]
    );
    assert!(s.dirty);
    assert!(s.selection.is_empty());
    assert!(!run.in_transaction);
    assert_eq!(s.outputs_done(&run), OutputEnd { sync_timeline: true, reevaluate: true });
    assert_eq!(s.revision, 1);
}

#[test]
fn empty_transactions_leave_the_document_clean() {
    let doc = sample();
    let mut s = session(&[]);
    let mut run = OutputRun::new();
    s.apply_output(&mut run, ToolOutput::BeginTransaction(Label::Text("Drag")), &doc, false);
    let step = s.apply_output(&mut run, ToolOutput::CommitTransaction, &doc, true);
    assert_eq!(step, OutputStep::Commit);
    assert!(!s.dirty);
    let stray = s.apply_output(&mut run, ToolOutput::CommitTransaction, &doc, false);
    assert_eq!(stray, OutputStep::Done);
    assert_eq!(s.outputs_done(&run), OutputEnd { sync_timeline: false, reevaluate: false });
    assert_eq!(s.revision, 0);
}

#[test]
fn failed_commands_are_told_and_created_nodes_selected() {
    let doc = sample();
    let mut s = session(&[1]);
    let mut run = OutputRun::new();
    s.commands_applied(
        &mut run,
        vec![Ok(created(2)), Err("no such node".to_string())],
        &doc,
        false,
    );
    assert_eq!(s.selection, vec![2]);
    assert!(s.expanded_layers.contains(&1));
    assert_eq!(status(&s), "Edit failed: no such node");
    assert!(s.dirty);
    assert!(run.mutated_outside_transaction);
    assert_eq!(s.take_status(), Some(Message::Built("Edit failed: no such node".to_string())));
    assert_eq!(s.take_status(), None);
    assert_eq!(s.history_apply(Ok(created(8))), Some(8));
    assert_eq!(s.history_apply(Err("gone".to_string())), None);
    assert_eq!(status(&s), "Edit failed: gone");
}

#[test]
fn toggling_twice_restores_the_selection() {
    let doc = sample();
    let mut s = session(&[1]);
    let mut run = OutputRun::new();
    let toggle = || ToolOutput::RequestSelection(SelectionChange::Toggle(4));
    s.apply_output(&mut run, toggle(), &doc, false);
    assert_eq!(s.selection, vec![1, 4]);
    s.apply_output(&mut run, toggle(), &doc, false);
    assert_eq!(s.selection, vec![1]);
}

#[test]
fn the_playhead_stands_still_under_a_preview() {
    let doc = sample();
    let mut s = session(&[]);
    let mut run = OutputRun::new();
    let head = Head::Frame(12);
    assert_eq!(
        s.apply_output(&mut run, ToolOutput::SetPlayhead(head), &doc, false),
        OutputStep::Scrub(head)
    );
    assert_eq!(s.playback.head, head);
    s.machine_preview_enabled = true;
    let later = ToolOutput::SetPlayhead(Head::Frame(20));
    assert_eq!(s.apply_output(&mut run, later, &doc, false), OutputStep::Done);
    assert_eq!(s.playback.head, head);
}

#[test]
fn tools_pages_and_playback_switch() {
    let mut s = session(&[]);
    s.select_tool(ToolId::Pen);
    assert_eq!(s.active_tool, ToolId::Pen);
    s.set_active_page(PanelPage::Layers);
    assert_eq!(s.active_page, PanelPage::Layers);
    s.toggle_playback();
    assert!(s.playing);
    assert_eq!(s.playback.state, PlayState::Playing);
    s.toggle_playback();
    assert_eq!(s.playback.state, PlayState::Stopped);
}

#[test]
fn open_edits_are_closed_before_others() {
    let doc = sample();
    let mut s = session(&[4]);
    assert_eq!(s.finalize_open_edit(false), EditClosed { commit: false, add_swatch: false });
    assert!(!s.dirty);
    s.press_number(1, 0, vec![4], vec![5], 6);
    assert_eq!(s.copy_selection(&doc, true), EditClosed { commit: true, add_swatch: false });
    assert!(s.dirty);
    assert!(s.inspector_drag.is_none());
}

#[test]
fn a_picked_colour_is_kept_when_its_edit_is_closed() {
    let doc = sample();
    let mut s = session(&[4]);
    let target = PickerTarget::StyleColor { style_id: 5 };
    s.open_color_picker(target, 1, 2);
    s.apply_picker_change(30, false);
    let (closed, run) = s.duplicate_selection(&doc, true);
    assert_eq!(closed, EditClosed { commit: true, add_swatch: true });
    assert!(run.is_some());
    assert!(!s.open_picker.unwrap().transaction_open);
    assert!(!s.close_color_picker());
}

#[test]
fn added_layers_are_selected() {
    let doc = sample();
    let mut s = session(&[4]);
    let edit = s.add_ellipse_layer(&doc);
    assert_eq!(edit.label, "Add layer");
    assert_eq!(
        edit.commands,
        vec![EditorCommand::InsertNode {
            parent: Parent::Comp(COMP),
            index: 0,
            tree: TreeSource::Ellipse { doubled_center: (640, 480), paint: 7 },
        }]
    );
    s.finish_add_layer(Ok(created(2)), &doc);
    assert_eq!(s.selection, vec![2]);
    assert!(s.expanded_layers.contains(&1));
    s.finish_add_layer(Err("full".to_string()), &doc);
    assert_eq!(status(&s), "Edit failed: full");
    assert_eq!(s.selection, vec![2]);
    assert!(s.dirty);
}
