//! Paths, project files and the unsaved-changes question.
use renamite::commands::{Applied, Message};
use renamite::files::{
    decoded_asset, font_result, image_asset, image_asset_from_bytes, image_picked, image_result, import_result,
    import_stem, lottie_bytes, lottie_saved, lottie_source, mime_for, open_result, panic_payload,
    png_result, png_saved, ren_source, svg_saved, FileStep, ImportKind, OpenedFile, PendingFileOp,
    RenSource, Rendering, SaveTarget,
};
use renamite::paths::{extension_of, file_name, file_stem, is_binary, portable_path, stem_of};
use renamite::session::{PendingIntent, Session};

fn session() -> Session {
    Session::new((0, 60), None, 7)
}

fn file(content: u64) -> OpenedFile {
    OpenedFile { content, start_machine: None, machine_order: vec![5, 6] }
}

fn status(s: &Session) -> String {
    s.status.as_ref().map(|m| m.to_text()).unwrap_or_default()
}

fn applied() -> Applied {
    Applied { created: None, created_machine: None, created_clip: None }
}

#[test]
fn file_names_come_from_the_end_of_a_path() {
    assert_eq!(file_name("/a/b/c.ren"), Some("c.ren"));
    assert_eq!(file_name("c.ren"), Some("c.ren"));
    assert_eq!(file_name("a/b/"), Some("b"));
    assert_eq!(file_name("a/b/."), Some("b"));
    assert_eq!(file_name("a/.."), None);
    assert_eq!(file_name("/"), None);
    assert_eq!(file_name(""), None);
    assert_eq!(file_name("."), None);
    assert_eq!(file_name("..a"), Some("..a"));
}

#[test]
fn stems_and_extensions() {
    assert_eq!(stem_of("a.tar.gz"), "a.tar");
    let path = portable_path("C:\\x.y\\a.ren", true);
    assert_eq!(path, "C:/x.y/a.ren");
    assert_eq!(file_stem(&path), Some("a"));
    assert_eq!(portable_path("x\\a.ren", false), "x\\a.ren");
    assert_eq!(extension_of("a.tar.gz"), Some("gz"));
    assert_eq!(stem_of(".hidden"), ".hidden");
    assert_eq!(extension_of(".hidden"), None);
    assert_eq!(extension_of("plain"), None);
    assert_eq!(extension_of("dot."), Some(""));
    assert_eq!(file_stem("/x/y/scene.ren"), Some("scene"));
    assert_eq!(file_stem(".."), None);
}

#[test]
fn paths_agree_with_the_standard_library() {
    for p in [
        "", "/", ".", "..", "a", "a/", "a/b", "a//b", "a/./b", "a/b/.", "a/b/..", ".a", "a.b",
        "a.b.c", "a.", "..b", "...", "/x.y/z", "x/.y.z", "./", "../a.ren",
    ] {
        let path = std::path::Path::new(p);
        let name = path.file_name().map(|s| s.to_string_lossy().into_owned());
        let stem = path.file_stem().map(|s| s.to_string_lossy().into_owned());
        let extension = path.extension().map(|s| s.to_string_lossy().into_owned());
        assert_eq!(file_name(p).map(String::from), name, "{p}");
        assert_eq!(file_stem(p).map(String::from), stem, "{p}");
        assert_eq!(
            file_name(p).and_then(|n| extension_of(n).map(String::from)),
            extension,
            "{p}"
        );
    }
}

#[test]
fn binary_projects_are_told_by_their_extension() {
    assert!(is_binary("a/b.renb"));
    assert!(is_binary("B.RenB"));
    assert!(!is_binary("b.ren"));
    assert!(!is_binary("renb"));
    assert!(!is_binary(".renb"));
}

#[test]
fn project_files_are_read_as_their_name_says() {
    assert!(matches!(ren_source("a.renb", &[0xff, 0]), Ok(RenSource::Binary)));
    match ren_source("a.ren", "zwölf".as_bytes()) {
        Ok(RenSource::Text(s)) => assert_eq!(s, "zwölf"),
        other => panic!("{other:?}"),
    }
    let error = ren_source("a.ren", &[b'a', 0xff]).unwrap_err();
    assert_eq!(error, std::str::from_utf8(&[b'a', 0xff]).unwrap_err().to_string());
}

#[test]
fn lottie_files_must_be_json() {
    let source = lottie_source("dir/walk.json", b"{\"fr\": 30}").ok().expect("it is JSON");
    assert_eq!(source.name, "walk");
    assert_eq!(source.json["fr"].as_i64(), Some(30));
    let bytes = lottie_bytes(&source.json).unwrap();
    assert_eq!(bytes, b"{\n  \"fr\": 30\n}".to_vec());
    assert!(lottie_source("x.json", b"{").is_err());
    assert_eq!(import_stem("/"), "Imported");
}

#[test]
fn images_are_decoded_for_their_size() {
    let mut png = std::io::Cursor::new(Vec::new());
    let image = image::DynamicImage::ImageRgba8(image::RgbaImage::new(3, 2));
    image.write_to(&mut png, image::ImageFormat::Png).unwrap();
    let bytes = png.into_inner();
    let asset = image_asset_from_bytes("pic.PNG".to_string(), bytes.clone()).unwrap();
    assert_eq!((asset.width, asset.height), (3, 2));
    assert_eq!(asset.mime, "image/png");
    assert_eq!(asset.bytes, bytes);
    assert!(asset.srgb);
    match image_picked(None, Ok(bytes)) {
        PendingFileOp::ImportImageDone { asset } => {
            assert_eq!(asset.name, "Image");
            assert_eq!(asset.mime, "application/octet-stream");
        }
        other => panic!("{other:?}"),
    }
    match image_picked(Some("a.png".to_string()), Ok(vec![1, 2, 3])) {
        PendingFileOp::Failed { message } => {
            assert!(message.to_text().starts_with("Image import failed: "));
        }
        other => panic!("{other:?}"),
    }
    match image_picked(None, Err("gone".to_string())) {
        PendingFileOp::Failed { message } => {
            assert_eq!(message.to_text(), "Image import failed: gone");
        }
        other => panic!("{other:?}"),
    }
}

#[test]
fn image_kinds() {
    assert_eq!(mime_for("a.jpg"), "image/jpeg");
    assert_eq!(mime_for("a.JPEG"), "image/jpeg");
    assert_eq!(mime_for("a.webp"), "image/webp");
    assert_eq!(mime_for("a"), "application/octet-stream");
    let refused = decoded_asset("b.png".to_string(), vec![9], Err("no image".to_string()));
    assert_eq!(refused.unwrap_err(), "no image");
    let known = decoded_asset("b.jpeg".to_string(), vec![9], Ok((6, 7))).unwrap();
    assert_eq!((known.width, known.height, known.mime), (6, 7, "image/jpeg"));
    let asset = image_asset("b.webp".to_string(), vec![9], 4, 5);
    assert!(matches!(image_result(Ok(asset)), PendingFileOp::ImportImageDone { .. }));
}

#[test]
fn opening_replaces_the_project() {
    let mut s = session();
    s.dirty = true;
    s.selection = vec![1, 2];
    s.record = true;
    s.welcome = true;
    s.pending_intent = Some(PendingIntent::Open);
    let step = s.file_op_arrived(open_result(Ok(file(40)), Some("/p/scene.ren".to_string())));
    assert!(matches!(step, FileStep::Load { content: 40 }));
    assert!(!s.dirty && !s.welcome && !s.record);
    assert!(s.selection.is_empty());
    assert_eq!(s.active_machine, Some(5));
    assert_eq!(s.current_path.as_deref(), Some("/p/scene.ren"));
    assert_eq!(status(&s), "Opened");
    assert_eq!(s.pending_intent, Some(PendingIntent::Open));
    assert_eq!(s.revision, 1);
}

#[test]
fn import_warnings_are_counted_and_the_first_ones_shown() {
    let mut s = session();
    let many: Vec<String> = ["a", "b", "c", "d"].iter().map(|w| w.to_string()).collect();
    s.file_op_arrived(import_result(ImportKind::Lottie, Ok(file(1)), many));
    assert_eq!(status(&s), "Imported Lottie (4 warnings: a; b; c)");
    assert_eq!(s.current_path, None);
    s.file_op_arrived(import_result(ImportKind::Svg, Ok(file(1)), vec!["x".to_string()]));
    assert_eq!(status(&s), "Imported SVG (1 warning: x)");
    s.file_op_arrived(import_result(ImportKind::Svg, Err("bad".to_string()), Vec::new()));
    assert_eq!(status(&s), "Error: Import failed: bad");
}

#[test]
fn a_save_runs_what_waits_for_it() {
    let mut s = session();
    s.dirty = true;
    let done = PendingFileOp::SaveOutcome { ok: true, path: Some("a.ren".to_string()) };
    assert!(matches!(s.file_op_arrived(done), FileStep::Done));
    assert!(!s.dirty);
    assert_eq!(status(&s), "Saved");
    s.pending_intent = Some(PendingIntent::New);
    let done = PendingFileOp::SaveOutcome { ok: true, path: None };
    assert!(matches!(s.file_op_arrived(done), FileStep::RunIntent));
    assert_eq!(s.pending_intent, Some(PendingIntent::New));
    let canceled = PendingFileOp::SaveOutcome { ok: false, path: None };
    assert!(matches!(s.file_op_arrived(canceled), FileStep::Done));
    assert_eq!(s.pending_intent, None);
    assert_eq!(status(&s), "Save canceled");
}

#[test]
fn failures_drop_the_intent_and_end_the_export() {
    let mut s = session();
    s.exporting_png = true;
    s.pending_intent = Some(PendingIntent::ImportSvg);
    s.file_op_arrived(PendingFileOp::Failed { message: Message::Fixed("no room") });
    assert!(!s.exporting_png);
    assert_eq!(s.pending_intent, None);
    assert_eq!(status(&s), "Error: no room");
    assert_eq!(s.revision, 2);
}

#[test]
fn unsaved_changes_are_asked_about() {
    let mut s = session();
    assert!(s.request_guard(PendingIntent::Open));
    assert_eq!(s.pending_intent, None);
    s.dirty = true;
    assert!(!s.new_document(&file(2)));
    assert!(s.dirty);
    assert_eq!(s.pending_intent, Some(PendingIntent::New));
    assert_eq!(s.discard_discard(), Some(PendingIntent::New));
    s.new_document_inner(&file(2));
    assert!(!s.dirty && s.welcome);
    assert_eq!(status(&s), "New document");
    assert!(s.new_document(&file(3)));
}

#[test]
fn the_question_can_be_cancelled_or_saved() {
    let mut s = session();
    s.dirty = true;
    s.request_discard(PendingIntent::ImportLottie);
    s.discard_cancel();
    assert_eq!(s.pending_intent, None);
    assert_eq!(s.revision, 2);
    s.request_discard(PendingIntent::ImportLottie);
    assert_eq!(s.discard_save(false), None);
    assert_eq!(s.pending_intent, None);
    s.request_discard(PendingIntent::ImportLottie);
    assert_eq!(s.discard_save(true), Some(PendingIntent::ImportLottie));
    assert_eq!(s.take_pending_intent(), None);
}

#[test]
fn templates_are_unsaved() {
    let mut s = session();
    s.template_loaded(&file(8), "Bouncing Ball");
    assert!(s.dirty && !s.welcome);
    assert_eq!(status(&s), "Created from \"Bouncing Ball\"");
}

#[test]
fn titles_name_the_project() {
    let mut s = session();
    assert_eq!(s.window_title("Untitled"), "Untitled");
    assert_eq!(s.window_subtitle(), "Unsaved");
    assert_eq!(s.suggested_name("Untitled", ".json"), "Untitled.json");
    s.current_path = Some("/home/x/walk.ren".to_string());
    s.dirty = true;
    assert_eq!(s.window_title("Untitled"), "walk.ren *");
    assert_eq!(s.window_subtitle(), "/home/x/walk.ren");
    assert_eq!(s.document_stem("Untitled"), "walk");
    s.refuse("Saved");
    assert_eq!(s.window_subtitle(), "Saved");
    s.current_path = Some("..".to_string());
    assert_eq!(s.window_title("Untitled"), "Untitled *");
}

#[test]
fn save_goes_to_the_path_or_asks() {
    let mut s = session();
    match s.save_target("Draft") {
        SaveTarget::Ask { suggested } => assert_eq!(suggested, "Draft.ren"),
        other => panic!("{other:?}"),
    }
    s.current_path = Some("x.renb".to_string());
    match s.save_target("Draft") {
        SaveTarget::Write { path, binary } => assert_eq!((path.as_str(), binary), ("x.renb", true)),
        other => panic!("{other:?}"),
    }
    s.dirty = true;
    assert!(!s.save_finished("x.renb".to_string(), Err("disk full".to_string())));
    assert!(s.dirty);
    assert_eq!(status(&s), "Error: disk full");
    assert!(s.save_finished("y.ren".to_string(), Ok(())));
    assert!(!s.dirty);
    assert_eq!(s.current_path.as_deref(), Some("y.ren"));
}

#[test]
fn one_png_export_at_a_time() {
    let mut s = session();
    assert!(s.may_export_png());
    assert!(s.png_prepared(Ok(())));
    assert_eq!(status(&s), "Rendering PNG…");
    assert!(!s.may_export_png());
    assert_eq!(status(&s), "PNG export already in progress");
    let op = png_result(Rendering::Written(Ok(())), "frame.png".to_string());
    s.file_op_arrived(op);
    assert!(!s.exporting_png);
    assert_eq!(status(&s), "Exported frame.png");
    assert!(!s.png_prepared(Err("no scene".to_string())));
    assert_eq!(status(&s), "Error: no scene");
}

#[test]
fn renderings_end_in_operations() {
    let text = |op: PendingFileOp| match op {
        PendingFileOp::Failed { message } => message.to_text(),
        other => panic!("{other:?}"),
    };
    let t = || "t".to_string();
    assert_eq!(
        text(png_result(Rendering::Failed("gpu".to_string()), t())),
        "PNG export failed: gpu"
    );
    assert_eq!(
        text(png_result(Rendering::Written(Err("io".to_string())), t())),
        "PNG export failed: io"
    );
    assert_eq!(
        text(png_result(Rendering::Panicked(None), t())),
        "PNG export failed: <non-string panic payload>"
    );
    assert_eq!(panic_payload(Some("boom")), "boom");
    let mut s = session();
    match s.file_op_arrived(png_result(Rendering::Ready(vec![1, 2]), "n.png".to_string())) {
        FileStep::SavePng { bytes, suggested_name } => {
            assert_eq!((bytes, suggested_name.as_str()), (vec![1, 2], "n.png"));
        }
        other => panic!("{other:?}"),
    }
}

#[test]
fn dialogs_end_in_operations() {
    let mut s = session();
    s.file_op_arrived(png_saved(false));
    assert_eq!(status(&s), "PNG export canceled");
    s.file_op_arrived(png_saved(true));
    assert_eq!(status(&s), "Exported PNG");
    s.file_op_arrived(lottie_saved(true));
    assert_eq!(status(&s), "Exported");
    s.file_op_arrived(lottie_saved(false));
    assert_eq!(status(&s), "Error: Lottie export cancelled or failed");
    assert!(svg_saved(false).is_none());
    s.svg_written("f.svg", Ok(()));
    assert_eq!(status(&s), "Exported f.svg");
}

#[test]
fn fonts_are_named_by_themselves_or_their_file() {
    let mut s = session();
    match s.file_op_arrived(font_result(Some("dir/Old.ttf".to_string()), Ok(vec![0]))) {
        FileStep::AddFont { asset } => {
            assert_eq!(asset.family, "Old");
            assert_eq!(asset.name, "dir/Old.ttf");
        }
        other => panic!("{other:?}"),
    }
    match font_result(None, Err("denied".to_string())) {
        PendingFileOp::Failed { message } => {
            assert_eq!(message.to_text(), "Font import failed: denied");
        }
        other => panic!("{other:?}"),
    }
    assert_eq!(renamite::files::font_family("..", None), "ImportedFont");
    assert_eq!(renamite::files::font_family("a.ttf", Some("Own".to_string())), "Own");
}

#[test]
fn asset_replies() {
    let mut s = session();
    s.import_font(Ok(applied()), "Inter");
    assert_eq!(status(&s), "Font import failed");
    assert!(s.dirty);
    s.import_font(Ok(Applied { created: Some(3), ..applied() }), "Inter");
    assert_eq!(status(&s), "Imported font: Inter");
    assert!(s.import_image(Ok(applied()), "pic.png"));
    assert_eq!(status(&s), "Imported image: pic.png");
    assert!(!s.import_image(Err("x".to_string()), "pic.png"));
    assert_eq!(status(&s), "Image import failed");
}
