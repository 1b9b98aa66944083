//! What the menus, the docks and the navigation show.
use vstd::prelude::*;

use crate::commands::ToolId;
use crate::seqs::lemma_first_index;
use crate::session::{EditorMode, PanelPage, PendingIntent, Session};
use crate::shell::{
    compact_nav_pages, default_dock_state, dock_panels, docked, effective_side_page, entry_height,
    entry_lines, file_intent, has_bottom_bar, has_undo_buttons, launcher_tiles, medium_nav_pages,
    menu_entries_height, menu_height, menu_line_action, menu_lines, open_dialog,
    platform_shell_class, render_menu_entries, tool_buttons, DockPanel, DockState, FileItem,
    LauncherTile, MenuEntry, MenuLine, ShellClass, ToolButton, WidthClass, PANEL_ASSETS,
    PANEL_INTERACT, PANEL_LAYERS, PANEL_PROPERTIES, PANEL_TIMELINE, PANEL_VIEWPORT,
};

verus! {

/// A menu shows a line for every entry, in order: a rule, a choice, or a heading with the
/// lines of the entries below it.
pub proof fn law_menus_show_every_entry(a: Seq<MenuEntry>, b: Seq<MenuEntry>, entry: MenuEntry)
    ensures
        menu_lines(a + b) == menu_lines(a) + menu_lines(b),
        menu_lines(Seq::empty()) == Seq::<MenuLine>::empty(),
        entry is Separator ==> menu_lines(seq![entry]) == seq![MenuLine::Rule],
        entry matches MenuEntry::Action { action, label, enabled } ==> menu_lines(seq![entry])
            == seq![MenuLine::Choice { action, label, enabled }],
        entry matches MenuEntry::Submenu { label, children } ==> menu_lines(seq![entry]) == seq![
            MenuLine::Heading { label },
        ] + menu_lines(children@),
    decreases b.len(),
{
    if b.len() == 0 {
        assert(a + b =~= a);
        assert(menu_lines(a) + menu_lines(b) =~= menu_lines(a));
    } else {
        assert((a + b).drop_last() =~= a + b.drop_last());
        assert((a + b).last() == b.last());
        law_menus_show_every_entry(a, b.drop_last(), entry);
        assert(menu_lines(a + b) =~= menu_lines(a) + menu_lines(b));
    }
    let one = seq![entry];
    assert(one.drop_last() =~= Seq::<MenuEntry>::empty());
    assert(one.last() == entry);
    assert(menu_lines(one.drop_last()) =~= Seq::<MenuLine>::empty());
    assert(menu_lines(one) =~= entry_lines(entry));
}

/// The lines that are rendered, and the action of a line: only an enabled choice has one.
pub proof fn law_rendered_menu_lines(entries: Vec<MenuEntry>, line: MenuLine)
    ensures
        forall|r: Vec<MenuLine>| #[trigger]
            call_ensures(render_menu_entries, (&entries,), r) ==> r@ == menu_lines(entries@),
        forall|r: Option<u64>| #[trigger]
            call_ensures(menu_line_action, (line,), r) ==> {
                &&& r is Some <==> line is Choice && line->enabled
                &&& r is Some ==> r == Some(line->action)
            },
{
}

/// The heights of a menu's entries add up, with four pixels of room above and below: five
/// for a rule, thirty-eight for a choice, and for a submenu its heading and its own menu.
pub proof fn law_menu_heights_add_up(a: Seq<MenuEntry>, b: Seq<MenuEntry>, entry: MenuEntry)
    ensures
        menu_height(a + b) + 8 == menu_height(a) + menu_height(b),
        menu_height(Seq::empty()) == 8,
        entry is Separator ==> menu_height(seq![entry]) == 13,
        entry is Action ==> menu_height(seq![entry]) == 46,
        entry matches MenuEntry::Submenu { children, .. } ==> menu_height(seq![entry])
            == menu_height(children@) + 32,
    decreases b.len(),
{
    if b.len() == 0 {
        assert(a + b =~= a);
    } else {
        assert((a + b).drop_last() =~= a + b.drop_last());
        assert((a + b).last() == b.last());
        law_menu_heights_add_up(a, b.drop_last(), entry);
    }
    let one = seq![entry];
    assert(one.drop_last() =~= Seq::<MenuEntry>::empty());
    assert(one.last() == entry);
    assert(menu_height(one.drop_last()) == 8);
    assert(menu_height(one) == entry_height(entry) + 8);
}

/// The height that is reported is that of the menu.
pub proof fn law_menu_height_is_reported(entries: Vec<MenuEntry>, r: u128)
    requires
        call_ensures(menu_entries_height, (&entries,), r),
    ensures
        menu_height(entries@) <= u128::MAX ==> r == menu_height(entries@),
        menu_height(entries@) > u128::MAX ==> r == u128::MAX,
{
}

/// The navigation marks the page that is shown, where it lists it, and its first one
/// otherwise.
pub proof fn law_navigation_marks_the_active_page(a: Session, pages: Vec<PanelPage>, r: usize)
    requires
        call_ensures(compact_nav_pages, (a.mode,), pages),
        call_ensures(Session::bottom_nav_index, (&a,), r),
    ensures
        r < pages@.len(),
        pages@.contains(a.active_page) ==> pages@[r as int] == a.active_page,
        !pages@.contains(a.active_page) ==> r == 0,
        pages@[0] is Canvas,
{
    lemma_first_index(pages@, a.active_page);
}

/// The side tab is the page that is shown, where the side lists it; the canvas stands for
/// the layers, and the first tab for what is not listed.
pub proof fn law_side_shows_the_active_page(
    a: Session,
    pages: Vec<PanelPage>,
    page: PanelPage,
    r: PanelPage,
)
    requires
        call_ensures(medium_nav_pages, (a.mode,), pages),
        call_ensures(effective_side_page, (a.active_page,), page),
        call_ensures(Session::side_tab, (&a,), r),
    ensures
        a.active_page is Canvas ==> page is Layers,
        !(a.active_page is Canvas) ==> page == a.active_page,
        pages@.contains(page) ==> r == page,
        !pages@.contains(page) ==> r == pages@[0],
        !pages@.contains(PanelPage::Canvas),
{
    lemma_first_index(pages@, page);
    assert forall|i: int| 0 <= i < pages@.len() implies pages@[i] != PanelPage::Canvas by {}
}

/// Each mode has its own pages: the timeline while animating, the logic while interacting,
/// the assets while designing; every mode has the inspector.
pub proof fn law_modes_have_their_pages(mode: EditorMode, pages: Vec<PanelPage>)
    requires
        call_ensures(compact_nav_pages, (mode,), pages),
    ensures
        pages@.no_duplicates(),
        pages@.contains(PanelPage::Canvas),
        pages@.contains(PanelPage::Inspect),
        pages@.contains(PanelPage::Timeline) <==> mode is Animate,
        pages@.contains(PanelPage::Interact) <==> mode is Interact,
        pages@.contains(PanelPage::Assets) <==> mode is Design,
        pages@.contains(PanelPage::Layers) <==> !(mode is Interact),
{
    assert(pages@[0] is Canvas);
    match mode {
        EditorMode::Design => {
            assert(pages@[1] is Layers);
            assert(pages@[2] is Inspect);
            assert(pages@[3] is Assets);
        },
        EditorMode::Animate => {
            assert(pages@[1] is Timeline);
            assert(pages@[2] is Inspect);
            assert(pages@[3] is Layers);
        },
        EditorMode::Interact => {
            assert(pages@[1] is Interact);
            assert(pages@[2] is Inspect);
        },
    }
}

/// Exactly the button of the active tool is selected.
pub proof fn law_one_tool_is_selected(active: ToolId, compact: bool, r: Vec<ToolButton>)
    requires
        call_ensures(tool_buttons, (active, compact), r),
    ensures
        r@.len() == 10,
        forall|i: int|
            0 <= i < r@.len() ==> ((#[trigger] r@[i]).selected <==> r@[i].tool == active),
        forall|i: int, j: int|
            0 <= i < j < r@.len() ==> (#[trigger] r@[i]).tool != (#[trigger] r@[j]).tool,
        exists|i: int| 0 <= i < r@.len() && (#[trigger] r@[i]).selected,
{
    crate::shell::law_every_layout_offers_every_tool(active, compact);
    let order = crate::shell::tool_order(compact);
    let k = choose|k: int| 0 <= k < order.len() && order[k] == active;
    assert(r@[k].selected);
}

/// What the file menu and the launcher start asks about unsaved work first; opening and
/// importing ask for a file of their kind.
pub proof fn law_file_intents(item: FileItem, intent: PendingIntent)
    ensures
        forall|r: Option<PendingIntent>| #[trigger]
            call_ensures(file_intent, (item,), r) ==> {
                &&& item is New <==> r == Some(PendingIntent::New)
                &&& item is Open <==> r == Some(PendingIntent::Open)
                &&& item is ImportLottie <==> r == Some(PendingIntent::ImportLottie)
                &&& item is ImportSvg <==> r == Some(PendingIntent::ImportSvg)
            },
        forall|r: Option<(&'static str, Vec<&'static str>)>| #[trigger]
            call_ensures(open_dialog, (intent,), r) ==> {
                &&& r is None <==> intent is New
                &&& intent is Open ==> (r->0).1@ == seq!["ren", "renb"]
                &&& intent is ImportLottie ==> (r->0).1@ == seq!["json"]
                &&& intent is ImportSvg ==> (r->0).1@ == seq!["svg"]
            },
        forall|r: Vec<LauncherTile>| #[trigger]
            call_ensures(launcher_tiles, (), r) ==> {
                &&& r@.len() == 4
                &&& r@[0].intent is New && r@[1].intent is Open && r@[2].intent is ImportLottie
                    && r@[3].intent is ImportSvg
            },
{
}

/// The default dock of a mode shows its panels from left to right: the layers and the
/// assets, the timeline below the canvas, or the logic; and the properties last.
pub proof fn law_default_docks(mode: EditorMode, r: DockState)
    requires
        call_ensures(default_dock_state, (mode,), r),
    ensures
        mode is Design ==> docked(r.root) == seq![
            PANEL_LAYERS,
            PANEL_ASSETS,
            PANEL_VIEWPORT,
            PANEL_PROPERTIES,
        ],
        mode is Animate ==> docked(r.root) == seq![
            PANEL_LAYERS,
            PANEL_VIEWPORT,
            PANEL_TIMELINE,
            PANEL_PROPERTIES,
        ],
        mode is Interact ==> docked(r.root) == seq![
            PANEL_INTERACT,
            PANEL_VIEWPORT,
            PANEL_PROPERTIES,
        ],
        forall|panels: Vec<DockPanel>| #[trigger]
            call_ensures(dock_panels, (mode,), panels) ==> {
                &&& panels@.len() == 4
                &&& panels@[0].id == PANEL_VIEWPORT && panels@[1].id == PANEL_LAYERS
                &&& panels@[2].id == PANEL_PROPERTIES
                &&& mode is Design ==> panels@[3].id == PANEL_ASSETS
                &&& mode is Animate ==> panels@[3].id == PANEL_TIMELINE
                &&& mode is Interact ==> panels@[3].id == PANEL_INTERACT
            },
{
    reveal_with_fuel(docked, 5);
    match mode {
        EditorMode::Design => {
            assert(docked(r.root) =~= seq![
                PANEL_LAYERS,
                PANEL_ASSETS,
                PANEL_VIEWPORT,
                PANEL_PROPERTIES,
            ]);
        },
        EditorMode::Animate => {
            assert(docked(r.root) =~= seq![
                PANEL_LAYERS,
                PANEL_VIEWPORT,
                PANEL_TIMELINE,
                PANEL_PROPERTIES,
            ]);
        },
        EditorMode::Interact => {
            assert(docked(r.root) =~= seq![PANEL_INTERACT, PANEL_VIEWPORT, PANEL_PROPERTIES]);
        },
    }
}

/// The shell follows the width: buttons for undo in the expanded one only, a bottom bar
/// in the compact one only.
pub proof fn law_shell_follows_the_width(width: WidthClass, class: ShellClass)
    requires
        call_ensures(platform_shell_class, (width,), class),
    ensures
        width is Compact <==> class is Compact,
        width is Medium <==> class is Medium,
        width is Expanded <==> class is Expanded,
        forall|r: bool| #[trigger]
            call_ensures(has_undo_buttons, (class,), r) ==> (r <==> width is Expanded),
        forall|r: bool| #[trigger]
            call_ensures(has_bottom_bar, (class,), r) ==> (r <==> width is Compact),
{
}

} // verus!
