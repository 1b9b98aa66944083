//! The assets panel: what its rows say, and the edits that they offer.
use vstd::prelude::*;
use vstd::string::StringExecFns;

use crate::commands::{Edit, EditorCommand};
use crate::model::{Handle, NodeId};
use crate::strings::{append_decimal, decimal, same_text};

verus! {

/// A font of the project, or the bundled one.
#[derive(Debug)]
pub struct FontAssetRow {
    pub id: Option<Handle>,
    pub family: String,
    pub name: String,
    pub usage_count: usize,
    pub bundled: bool,
}

/// An image of the project.
#[derive(Debug)]
pub struct ImageAssetRow {
    pub id: Handle,
    pub name: String,
    pub width: u32,
    pub height: u32,
    pub usage_count: usize,
}

/// How often something is used, in words.
pub open spec fn uses(count: nat) -> Seq<char> {
    decimal(count) + (if count == 1 {
        " use"@
    } else {
        " uses"@
    })
}

fn append_uses(out: &mut String, count: usize)
    ensures
        final(out)@ == old(out)@ + uses(count as nat),
{
    let ghost before = out@;
    append_decimal(out, count as u128);
    if count == 1 {
        out.append(" use");
    } else {
        out.append(" uses");
    }
    assert(out@ =~= before + uses(count as nat));
}

/// The line below an image's name.
pub fn image_line(row: &ImageAssetRow) -> (r: String)
    ensures
        r@ == decimal(row.width as nat) + "×"@ + decimal(row.height as nat) + " · "@ + uses(
            row.usage_count as nat,
        ),
{
    let mut out = "".to_owned();
    proof {
        reveal_strlit("");
    }
    append_decimal(&mut out, row.width as u128);
    assert(out@ =~= decimal(row.width as nat));
    out.append("×");
    append_decimal(&mut out, row.height as u128);
    out.append(" · ");
    append_uses(&mut out, row.usage_count);
    out
}

/// The line below a font's family.
pub fn font_line(row: &FontAssetRow) -> (r: String)
    ensures
        r@ == row.name@ + " · "@ + uses(row.usage_count as nat),
{
    let mut out = row.name.clone();
    out.append(" · ");
    append_uses(&mut out, row.usage_count);
    out
}

/// Whether the panel says that there is nothing yet.
pub fn nothing_yet(fonts: &Vec<FontAssetRow>, images: &Vec<ImageAssetRow>) -> (r: bool)
    ensures
        r == (fonts@.len() == 0 && images@.len() == 0),
{
    fonts.len() == 0 && images.len() == 0
}

/// Whether the selected text is set in this font. `font` is the text's own: nothing
/// stands for the family `default`. Without a selected text no font is.
pub fn font_is_active(row: &FontAssetRow, selected: bool, font: Option<&str>) -> (r: bool)
    ensures
        r == (selected && row.family@ == (match font {
            Some(f) => f@,
            None => "default"@,
        })),
{
    selected && match font {
        Some(f) => same_text(&row.family, f),
        None => same_text(&row.family, "default"),
    }
}

/// The edit that puts an image on the stage, where the host could build it.
pub fn place_image(command: Option<EditorCommand>) -> (r: Option<Edit>)
    ensures
        match command {
            Some(c) => r matches Some(e) && e.carries("Place image", seq![c]),
            None => r is None,
        },
{
    match command {
        Some(c) => Some(Edit::single("Place image", c)),
        None => None,
    }
}

/// The edit that takes an image out of the project, where nothing uses it.
pub fn remove_image(row: &ImageAssetRow) -> (r: Option<Edit>)
    ensures
        r is Some == (row.usage_count == 0),
        r matches Some(e) ==> e.carries(
            "Remove image",
            seq![EditorCommand::DetachAsset { asset: row.id }],
        ),
{
    if row.usage_count == 0 {
        Some(Edit::single("Remove image", EditorCommand::DetachAsset { asset: row.id }))
    } else {
        None
    }
}

/// The edit that takes a font out of the project, where nothing uses it and it is
/// not the bundled one.
pub fn remove_font(row: &FontAssetRow) -> (r: Option<Edit>)
    requires
        !row.bundled && row.usage_count == 0 ==> row.id is Some,
    ensures
        r is Some == (!row.bundled && row.usage_count == 0),
        r matches Some(e) ==> e.carries(
            "Remove font",
            seq![EditorCommand::DetachAsset { asset: row.id->0 }],
        ),
{
    if !row.bundled && row.usage_count == 0 {
        Some(Edit::single("Remove font", EditorCommand::DetachAsset { asset: row.id.unwrap() }))
    } else {
        None
    }
}

/// The edit that sets the selected text in this font. `family` is the host's number
/// for the row's family; the family `default` leaves the text without one.
pub fn apply_font(row: &FontAssetRow, text: NodeId, family: Handle) -> (r: Edit)
    ensures
        r.carries(
            "Change font",
            seq![
                EditorCommand::SetTextFont {
                    id: text,
                    font: if row.family@ == "default"@ {
                        None
                    } else {
                        Some(family)
                    },
                },
            ],
        ),
{
    let font = if same_text(&row.family, "default") {
        None
    } else {
        Some(family)
    };
    Edit::single("Change font", EditorCommand::SetTextFont { id: text, font })
}

} // verus!
