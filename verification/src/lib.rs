//! The editing core of the renamite vector animation editor: text layout, the
//! document tree, the session state machine and the decisions behind its panels.
pub mod arrange;
pub mod arrange_laws;
pub mod assets;
pub mod clipboard;
pub mod clipboard_laws;
pub mod color_laws;
pub mod colors;
pub mod commands;
pub mod exports;
pub mod faces;
pub mod fields;
pub mod file_laws;
pub mod files;
pub mod font;
pub mod font_laws;
pub mod frame_laws;
pub mod gradients;
pub mod graph;
pub mod graph_laws;
pub mod inspect;
pub mod inspect_laws;
pub mod kept;
pub mod label_laws;
pub mod laws;
pub mod layer_laws;
pub mod layers;
pub mod machine;
pub mod machine_edit;
pub mod machine_laws;
pub mod machine_ui;
pub mod machine_ui_laws;
pub mod model;
pub mod model_laws;
pub mod panel_laws;
pub mod path_laws;
pub mod path_name_laws;
pub mod pathops;
pub mod paths;
pub mod picker;
pub mod preview;
pub mod preview_laws;
pub mod prop_laws;
pub mod propedit;
pub mod refusal_laws;
pub mod seqs;
pub mod session;
pub mod session_laws;
pub mod shell;
pub mod shell_laws;
pub mod step_laws;
pub mod string_laws;
pub mod strings;
pub mod strokes;
pub mod style_laws;
pub mod styling;
pub mod text;
pub mod text_laws;
pub mod timeline;
pub mod timeline_laws;
pub mod tree;
pub mod tree_laws;
pub mod viewport;
pub mod viewport_laws;
