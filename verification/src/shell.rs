//! The editor's frame: which layout a window gets, what is docked in it, which
//! pages it leads to, and the order of its tools and menus.
use vstd::prelude::*;

use crate::commands::ToolId;
use crate::seqs::first_index;
use crate::session::{EditorMode, PanelPage, PendingIntent, Session};

verus! {

#[derive(Clone, Copy, Debug, PartialEq, Eq, Structural)]
pub enum ShellClass {
    Expanded,
    Medium,
    Compact,
}

/// How wide the window is: below 600, below 840, or more.
#[derive(Clone, Copy, Debug, PartialEq, Eq, Structural)]
pub enum WidthClass {
    Compact,
    Medium,
    Expanded,
}

/// The layout for a window.
pub fn platform_shell_class(width: WidthClass) -> (r: ShellClass)
    ensures
        r == (match width {
            WidthClass::Compact => ShellClass::Compact,
            WidthClass::Medium => ShellClass::Medium,
            WidthClass::Expanded => ShellClass::Expanded,
        }),
{
    match width {
        WidthClass::Compact => ShellClass::Compact,
        WidthClass::Medium => ShellClass::Medium,
        WidthClass::Expanded => ShellClass::Expanded,
    }
}

/// Whether the top bar has undo and redo buttons.
pub fn has_undo_buttons(class: ShellClass) -> (r: bool)
    ensures
        r == (class == ShellClass::Expanded),
{
    class == ShellClass::Expanded
}

/// Whether there is a navigation bar at the bottom.
pub fn has_bottom_bar(class: ShellClass) -> (r: bool)
    ensures
        r == (class == ShellClass::Compact),
{
    class == ShellClass::Compact
}

/// One entry of a context menu.
#[allow(inconsistent_fields)]
#[derive(Debug)]
pub enum MenuEntry {
    Separator,
    Action { action: u64, label: &'static str, enabled: bool },
    Submenu { label: &'static str, children: Vec<MenuEntry> },
}

/// The height of one entry.
pub open spec fn entry_height(entry: MenuEntry) -> nat
    decreases entry,
{
    match entry {
        MenuEntry::Separator => 5,
        MenuEntry::Action { .. } => 38,
        MenuEntry::Submenu { children, .. } => 24 + menu_height(children@),
    }
}

/// The height of a list of entries, with its margins.
pub open spec fn menu_height(entries: Seq<MenuEntry>) -> nat
    decreases entries,
{
    if entries.len() == 0 {
        8
    } else {
        entry_height(entries.last()) + menu_height(entries.drop_last())
    }
}

/// `n`, or the largest number there is where it is larger.
pub open spec fn capped(n: nat) -> u128 {
    if n <= u128::MAX {
        n as u128
    } else {
        u128::MAX
    }
}

/// The height of a list of entries, with its margins.
pub fn menu_entries_height(entries: &Vec<MenuEntry>) -> (r: u128)
    ensures
        r == capped(menu_height(entries@)),
    decreases entries@,
{
    let mut height: u128 = 8;
    let mut i: usize = 0;
    assert(entries@.take(0) =~= Seq::empty());
    while i < entries.len()
        invariant
            i <= entries@.len(),
            height == capped(menu_height(entries@.take(i as int))),
        decreases entries.len() - i,
    {
        assert(entries@.take(i + 1).drop_last() =~= entries@.take(i as int));
        assert(entries@.take(i + 1).last() == entries@[i as int]);
        let own = match &entries[i] {
            MenuEntry::Separator => 5u128,
            MenuEntry::Action { .. } => 38u128,
            MenuEntry::Submenu { children, .. } => {
                assert(decreases_to!(entries@ => entries@[i as int]));
                assert(entries@[i as int]->Submenu_children == *children);
                let inner = menu_entries_height(children);
                inner.saturating_add(24)
            },
        };
        assert(own == capped(entry_height(entries@[i as int])));
        assert(menu_height(entries@.take(i + 1)) == entry_height(entries@[i as int]) + menu_height(
            entries@.take(i as int),
        ));
        height = height.saturating_add(own);
        i = i + 1;
    }
    assert(entries@.take(i as int) =~= entries@);
    height
}

/// One line of an open menu.
#[allow(inconsistent_fields)]
#[derive(Clone, Copy, Debug, PartialEq, Eq)]
pub enum MenuLine {
    Rule,
    Choice { action: u64, label: &'static str, enabled: bool },
    Heading { label: &'static str },
}

/// The lines of one entry: a submenu's stand below its heading.
pub open spec fn entry_lines(entry: MenuEntry) -> Seq<MenuLine>
    decreases entry,
{
    match entry {
        MenuEntry::Separator => seq![MenuLine::Rule],
        MenuEntry::Action { action, label, enabled } => seq![
            MenuLine::Choice { action, label, enabled },
        ],
        MenuEntry::Submenu { label, children } => seq![MenuLine::Heading { label }] + menu_lines(
            children@,
        ),
    }
}

pub open spec fn menu_lines(entries: Seq<MenuEntry>) -> Seq<MenuLine>
    decreases entries,
{
    if entries.len() == 0 {
        Seq::empty()
    } else {
        menu_lines(entries.drop_last()) + entry_lines(entries.last())
    }
}

/// The lines of a menu, from top to bottom.
pub fn render_menu_entries(entries: &Vec<MenuEntry>) -> (r: Vec<MenuLine>)
    ensures
        r@ == menu_lines(entries@),
    decreases entries@,
{
    let mut out: Vec<MenuLine> = Vec::new();
    let mut i: usize = 0;
    assert(entries@.take(0) =~= Seq::empty());
    while i < entries.len()
        invariant
            i <= entries@.len(),
            out@ == menu_lines(entries@.take(i as int)),
        decreases entries.len() - i,
    {
        assert(entries@.take(i + 1).drop_last() =~= entries@.take(i as int));
        assert(entries@.take(i + 1).last() == entries@[i as int]);
        let ghost before = out@;
        match &entries[i] {
            MenuEntry::Separator => {
                out.push(MenuLine::Rule);
            },
            MenuEntry::Action { action, label, enabled } => {
                out.push(
                    MenuLine::Choice { action: *action, label: *label, enabled: *enabled },
                );
            },
            MenuEntry::Submenu { label, children } => {
                assert(decreases_to!(entries@ => entries@[i as int]));
                assert(entries@[i as int]->Submenu_children == *children);
                out.push(MenuLine::Heading { label: *label });
                let mut inner = render_menu_entries(children);
                out.append(&mut inner);
            },
        }
        assert(out@ =~= before + entry_lines(entries@[i as int]));
        i = i + 1;
    }
    assert(entries@.take(i as int) =~= entries@);
    out
}

/// What a click on a line of a menu runs.
pub fn menu_line_action(line: MenuLine) -> (r: Option<u64>)
    ensures
        r == (match line {
            MenuLine::Choice { action, enabled: true, .. } => Some(action),
            _ => None,
        }),
{
    match line {
        MenuLine::Choice { action, enabled, .. } => if enabled {
            Some(action)
        } else {
            None
        },
        _ => None,
    }
}

/// The panels that can be docked.
pub const PANEL_VIEWPORT: u64 = 1;

pub const PANEL_LAYERS: u64 = 2;

pub const PANEL_PROPERTIES: u64 = 3;

pub const PANEL_ASSETS: u64 = 4;

pub const PANEL_TIMELINE: u64 = 5;

pub const PANEL_INTERACT: u64 = 6;

#[derive(Clone, Copy, Debug, PartialEq, Eq, Structural)]
pub enum SplitDir {
    Horizontal,
    Vertical,
}

#[allow(inconsistent_fields)]
#[derive(Debug)]
pub enum DockKind {
    /// Two nodes side by side; `percent` of the room goes to the first.
    Split { dir: SplitDir, percent: u8, a: Box<DockNode>, b: Box<DockNode> },
    Tabs { tabs: Vec<u64>, active: Option<u64> },
}

#[derive(Debug)]
pub struct DockNode {
    pub id: u64,
    pub kind: DockKind,
}

/// A dock tree, and the next free node id.
#[derive(Debug)]
pub struct DockState {
    pub root: DockNode,
    pub next_id: u64,
}

/// A node that shows one panel.
pub open spec fn is_tabs(node: DockNode, id: u64, panel: u64) -> bool {
    &&& node.id == id
    &&& node.kind matches DockKind::Tabs { tabs, active }
    &&& tabs@ == seq![panel]
    &&& active == Some(panel)
}

pub open spec fn is_split(node: DockNode, id: u64, dir: SplitDir, percent: u8) -> bool {
    &&& node.id == id
    &&& node.kind is Split
    &&& node.kind->dir == dir
    &&& node.kind->percent == percent
}

/// The layout that a mode starts with: a rail on the left, the canvas in the
/// middle and the properties on the right.
pub open spec fn is_default_dock(mode: EditorMode, root: DockNode) -> bool {
    let a = *root.kind->a;
    let b = *root.kind->b;
    match mode {
        EditorMode::Design => {
            &&& is_split(root, 1, SplitDir::Horizontal, 22)
            &&& is_split(a, 11, SplitDir::Vertical, 72)
            &&& is_tabs(*a.kind->a, 101, PANEL_LAYERS)
            &&& is_tabs(*a.kind->b, 102, PANEL_ASSETS)
            &&& is_split(b, 12, SplitDir::Horizontal, 78)
            &&& is_tabs(*b.kind->a, 121, PANEL_VIEWPORT)
            &&& is_tabs(*b.kind->b, 122, PANEL_PROPERTIES)
        },
        EditorMode::Animate => {
            &&& is_split(root, 2, SplitDir::Horizontal, 20)
            &&& is_tabs(a, 21, PANEL_LAYERS)
            &&& is_split(b, 22, SplitDir::Horizontal, 80)
            &&& is_split(*b.kind->a, 23, SplitDir::Vertical, 72)
            &&& is_tabs(*b.kind->a.kind->a, 231, PANEL_VIEWPORT)
            &&& is_tabs(*b.kind->a.kind->b, 232, PANEL_TIMELINE)
            &&& is_tabs(*b.kind->b, 24, PANEL_PROPERTIES)
        },
        EditorMode::Interact => {
            &&& is_split(root, 3, SplitDir::Horizontal, 22)
            &&& is_tabs(a, 31, PANEL_INTERACT)
            &&& is_split(b, 32, SplitDir::Horizontal, 78)
            &&& is_tabs(*b.kind->a, 321, PANEL_VIEWPORT)
            &&& is_tabs(*b.kind->b, 322, PANEL_PROPERTIES)
        },
    }
}

fn tabs_node(id: u64, panel: u64) -> (r: DockNode)
    ensures
        is_tabs(r, id, panel),
{
    let mut tabs: Vec<u64> = Vec::new();
    tabs.push(panel);
    assert(tabs@ =~= seq![panel]);
    DockNode { id, kind: DockKind::Tabs { tabs, active: Some(panel) } }
}

fn split_node(id: u64, dir: SplitDir, percent: u8, a: DockNode, b: DockNode) -> (r: DockNode)
    ensures
        is_split(r, id, dir, percent),
        *r.kind->a == a,
        *r.kind->b == b,
{
    DockNode { id, kind: DockKind::Split { dir, percent, a: Box::new(a), b: Box::new(b) } }
}

/// The dock tree that a mode starts with.
pub fn default_dock_state(mode: EditorMode) -> (r: DockState)
    ensures
        is_default_dock(mode, r.root),
        r.next_id == 999,
{
    let root = match mode {
        EditorMode::Design => split_node(
            1,
            SplitDir::Horizontal,
            22,
            split_node(
                11,
                SplitDir::Vertical,
                72,
                tabs_node(101, PANEL_LAYERS),
                tabs_node(102, PANEL_ASSETS),
            ),
            split_node(
                12,
                SplitDir::Horizontal,
                78,
                tabs_node(121, PANEL_VIEWPORT),
                tabs_node(122, PANEL_PROPERTIES),
            ),
        ),
        EditorMode::Animate => split_node(
            2,
            SplitDir::Horizontal,
            20,
            tabs_node(21, PANEL_LAYERS),
            split_node(
                22,
                SplitDir::Horizontal,
                80,
                split_node(
                    23,
                    SplitDir::Vertical,
                    72,
                    tabs_node(231, PANEL_VIEWPORT),
                    tabs_node(232, PANEL_TIMELINE),
                ),
                tabs_node(24, PANEL_PROPERTIES),
            ),
        ),
        EditorMode::Interact => split_node(
            3,
            SplitDir::Horizontal,
            22,
            tabs_node(31, PANEL_INTERACT),
            split_node(
                32,
                SplitDir::Horizontal,
                78,
                tabs_node(321, PANEL_VIEWPORT),
                tabs_node(322, PANEL_PROPERTIES),
            ),
        ),
    };
    DockState { root, next_id: 999 }
}

/// A panel that can be docked, with its title.
#[derive(Clone, Copy, Debug, PartialEq, Eq)]
pub struct DockPanel {
    pub id: u64,
    pub title: &'static str,
}

/// The panels that a mode has.
pub open spec fn panels_for(mode: EditorMode) -> Seq<DockPanel> {
    seq![
        DockPanel { id: PANEL_VIEWPORT, title: "Canvas" },
        DockPanel { id: PANEL_LAYERS, title: "Layers" },
        DockPanel { id: PANEL_PROPERTIES, title: "Properties" },
        match mode {
            EditorMode::Design => DockPanel { id: PANEL_ASSETS, title: "Assets" },
            EditorMode::Animate => DockPanel { id: PANEL_TIMELINE, title: "Timeline" },
            EditorMode::Interact => DockPanel { id: PANEL_INTERACT, title: "Interactivity" },
        },
    ]
}

/// The panels that a mode has.
pub fn dock_panels(mode: EditorMode) -> (r: Vec<DockPanel>)
    ensures
        r@ == panels_for(mode),
{
    let mut out: Vec<DockPanel> = Vec::new();
    out.push(DockPanel { id: PANEL_VIEWPORT, title: "Canvas" });
    out.push(DockPanel { id: PANEL_LAYERS, title: "Layers" });
    out.push(DockPanel { id: PANEL_PROPERTIES, title: "Properties" });
    out.push(
        match mode {
            EditorMode::Design => DockPanel { id: PANEL_ASSETS, title: "Assets" },
            EditorMode::Animate => DockPanel { id: PANEL_TIMELINE, title: "Timeline" },
            EditorMode::Interact => DockPanel { id: PANEL_INTERACT, title: "Interactivity" },
        },
    );
    out
}

/// The panels shown somewhere in a dock tree.
pub open spec fn docked(node: DockNode) -> Seq<u64>
    decreases node,
{
    match node.kind {
        DockKind::Tabs { tabs, .. } => tabs@,
        DockKind::Split { a, b, .. } => docked(*a) + docked(*b),
    }
}

/// Every panel that a mode's first layout shows is one that the mode has, each is
/// shown once, and the canvas and the properties are always among them.
pub proof fn law_default_dock_shows_the_modes_panels(mode: EditorMode, root: DockNode)
    requires
        is_default_dock(mode, root),
    ensures
        docked(root).no_duplicates(),
        docked(root).contains(PANEL_VIEWPORT),
        docked(root).contains(PANEL_PROPERTIES),
        forall|p: u64|
            docked(root).contains(p) ==> exists|i: int|
                0 <= i < panels_for(mode).len() && (#[trigger] panels_for(mode)[i]).id == p,
{
    reveal_with_fuel(docked, 4);
    let shown = match mode {
        EditorMode::Design => seq![
            PANEL_LAYERS,
            PANEL_ASSETS,
            PANEL_VIEWPORT,
            PANEL_PROPERTIES,
        ],
        EditorMode::Animate => seq![
            PANEL_LAYERS,
            PANEL_VIEWPORT,
            PANEL_TIMELINE,
            PANEL_PROPERTIES,
        ],
        EditorMode::Interact => seq![PANEL_INTERACT, PANEL_VIEWPORT, PANEL_PROPERTIES],
    };
    assert(docked(root) =~= shown);
    let at = if mode == EditorMode::Design {
        2int
    } else {
        1int
    };
    assert(shown[at] == PANEL_VIEWPORT);
    assert(shown[shown.len() - 1] == PANEL_PROPERTIES);
    assert forall|p: u64| docked(root).contains(p) implies exists|i: int|
        0 <= i < panels_for(mode).len() && (#[trigger] panels_for(mode)[i]).id == p by {
        let panels = panels_for(mode);
        assert(panels[0].id == PANEL_VIEWPORT);
        assert(panels[1].id == PANEL_LAYERS);
        assert(panels[2].id == PANEL_PROPERTIES);
        assert(panels[3].id == (match mode {
            EditorMode::Design => PANEL_ASSETS,
            EditorMode::Animate => PANEL_TIMELINE,
            EditorMode::Interact => PANEL_INTERACT,
        }));
    }
}

/// The key that a mode's dock tree is remembered by.
pub fn dock_key(mode: EditorMode) -> (r: &'static str)
    ensures
        r == (match mode {
            EditorMode::Design => "dock_design",
            EditorMode::Animate => "dock_animate",
            EditorMode::Interact => "dock_interact",
        }),
{
    match mode {
        EditorMode::Design => "dock_design",
        EditorMode::Animate => "dock_animate",
        EditorMode::Interact => "dock_interact",
    }
}

/// The side panel's page: Layers while the canvas is the page.
pub open spec fn side_page(page: PanelPage) -> PanelPage {
    if page == PanelPage::Canvas {
        PanelPage::Layers
    } else {
        page
    }
}

/// The page shown in the side panel.
pub fn effective_side_page(page: PanelPage) -> (r: PanelPage)
    ensures
        r == side_page(page),
{
    match page {
        PanelPage::Canvas => PanelPage::Layers,
        other => other,
    }
}

/// The pages of the bottom bar, in order.
pub open spec fn compact_pages(mode: EditorMode) -> Seq<PanelPage> {
    match mode {
        EditorMode::Design => seq![
            PanelPage::Canvas,
            PanelPage::Layers,
            PanelPage::Inspect,
            PanelPage::Assets,
        ],
        EditorMode::Animate => seq![
            PanelPage::Canvas,
            PanelPage::Timeline,
            PanelPage::Inspect,
            PanelPage::Layers,
        ],
        EditorMode::Interact => seq![PanelPage::Canvas, PanelPage::Interact, PanelPage::Inspect],
    }
}

/// The tabs of the side panel, in order.
pub open spec fn medium_pages(mode: EditorMode) -> Seq<PanelPage> {
    match mode {
        EditorMode::Design => seq![PanelPage::Layers, PanelPage::Inspect, PanelPage::Assets],
        EditorMode::Animate => seq![PanelPage::Timeline, PanelPage::Layers, PanelPage::Inspect],
        EditorMode::Interact => seq![PanelPage::Interact, PanelPage::Inspect],
    }
}

/// The pages of the bottom bar, in order.
pub fn compact_nav_pages(mode: EditorMode) -> (r: Vec<PanelPage>)
    ensures
        r@ == compact_pages(mode),
{
    let mut out: Vec<PanelPage> = Vec::new();
    out.push(PanelPage::Canvas);
    match mode {
        EditorMode::Design => {
            out.push(PanelPage::Layers);
            out.push(PanelPage::Inspect);
            out.push(PanelPage::Assets);
        },
        EditorMode::Animate => {
            out.push(PanelPage::Timeline);
            out.push(PanelPage::Inspect);
            out.push(PanelPage::Layers);
        },
        EditorMode::Interact => {
            out.push(PanelPage::Interact);
            out.push(PanelPage::Inspect);
        },
    }
    assert(out@ =~= compact_pages(mode));
    out
}

/// The tabs of the side panel, in order.
pub fn medium_nav_pages(mode: EditorMode) -> (r: Vec<PanelPage>)
    ensures
        r@ == medium_pages(mode),
{
    let mut out: Vec<PanelPage> = Vec::new();
    match mode {
        EditorMode::Design => {
            out.push(PanelPage::Layers);
            out.push(PanelPage::Inspect);
            out.push(PanelPage::Assets);
        },
        EditorMode::Animate => {
            out.push(PanelPage::Timeline);
            out.push(PanelPage::Layers);
            out.push(PanelPage::Inspect);
        },
        EditorMode::Interact => {
            out.push(PanelPage::Interact);
            out.push(PanelPage::Inspect);
        },
    }
    assert(out@ =~= medium_pages(mode));
    out
}

/// What a page is called.
pub fn page_label(page: PanelPage) -> (r: &'static str)
    ensures
        r == (match page {
            PanelPage::Canvas => "Canvas",
            PanelPage::Layers => "Layers",
            PanelPage::Timeline => "Timeline",
            PanelPage::Inspect => "Inspect",
            PanelPage::Assets => "Assets",
            PanelPage::Interact => "Logic",
        }),
{
    match page {
        PanelPage::Canvas => "Canvas",
        PanelPage::Layers => "Layers",
        PanelPage::Timeline => "Timeline",
        PanelPage::Inspect => "Inspect",
        PanelPage::Assets => "Assets",
        PanelPage::Interact => "Logic",
    }
}

/// Where `page` stands among `pages`, or 0 where it is not among them.
pub open spec fn nav_index(pages: Seq<PanelPage>, page: PanelPage) -> int {
    match first_index(pages, page) {
        Some(i) => i,
        None => 0,
    }
}

fn nav_position(pages: &Vec<PanelPage>, page: PanelPage) -> (r: usize)
    ensures
        r == nav_index(pages@, page),
        pages@.len() > 0 ==> r < pages@.len(),
{
    let mut i: usize = 0;
    while i < pages.len()
        invariant
            i <= pages@.len(),
            forall|j: int| 0 <= j < i ==> pages@[j] != page,
        decreases pages.len() - i,
    {
        if pages[i] == page {
            proof {
                crate::seqs::lemma_first_index_is(pages@, page, i as int);
            }
            return i;
        }
        i = i + 1;
    }
    proof {
        crate::seqs::lemma_first_index(pages@, page);
    }
    0
}

impl Session {
    /// The selected item of the bottom bar.
    pub fn bottom_nav_index(&self) -> (r: usize)
        ensures
            r == nav_index(compact_pages(self.mode), self.active_page),
            r < compact_pages(self.mode).len(),
    {
        let pages = compact_nav_pages(self.mode);
        nav_position(&pages, self.active_page)
    }

    /// The selected tab of the side panel.
    pub fn side_tab(&self) -> (r: PanelPage)
        ensures
            r == medium_pages(self.mode)[nav_index(
                medium_pages(self.mode),
                side_page(self.active_page),
            )],
            medium_pages(self.mode).contains(r),
    {
        let pages = medium_nav_pages(self.mode);
        let at = nav_position(&pages, effective_side_page(self.active_page));
        assert(medium_pages(self.mode)[at as int] == pages@[at as int]);
        pages[at]
    }
}

/// A tool and what it is called.
#[derive(Clone, Copy, Debug, PartialEq, Eq)]
pub struct ToolButton {
    pub tool: ToolId,
    pub label: &'static str,
    pub selected: bool,
}

/// What a tool is called on its button.
pub open spec fn tool_name(tool: ToolId) -> &'static str {
    match tool {
        ToolId::Select => "Select",
        ToolId::Transform => "Transform / pivot",
        ToolId::Pen => "Pen",
        ToolId::PathEdit => "Edit path",
        ToolId::Rect => "Rectangle",
        ToolId::Ellipse => "Ellipse",
        ToolId::Star => "Star",
        ToolId::Text => "Text",
        ToolId::Fill => "Fill",
        ToolId::Gradient => "Gradient",
    }
}

/// What a tool is called on its button.
pub fn tool_label(tool: ToolId) -> (r: &'static str)
    ensures
        r == tool_name(tool),
{
    match tool {
        ToolId::Select => "Select",
        ToolId::Transform => "Transform / pivot",
        ToolId::Pen => "Pen",
        ToolId::PathEdit => "Edit path",
        ToolId::Rect => "Rectangle",
        ToolId::Ellipse => "Ellipse",
        ToolId::Star => "Star",
        ToolId::Text => "Text",
        ToolId::Fill => "Fill",
        ToolId::Gradient => "Gradient",
    }
}

/// The tools in the order of the rail, or of the compact palette, which ends with
/// the fill tool.
pub open spec fn tool_order(compact: bool) -> Seq<ToolId> {
    seq![
        ToolId::Select,
        ToolId::Transform,
        ToolId::Pen,
        ToolId::PathEdit,
        ToolId::Rect,
        ToolId::Ellipse,
        ToolId::Star,
        ToolId::Text,
        if compact {
            ToolId::Gradient
        } else {
            ToolId::Fill
        },
        if compact {
            ToolId::Fill
        } else {
            ToolId::Gradient
        },
    ]
}

/// The tool buttons, with the active tool selected.
pub fn tool_buttons(active: ToolId, compact: bool) -> (r: Vec<ToolButton>)
    ensures
        r@.len() == tool_order(compact).len(),
        forall|i: int|
            0 <= i < r@.len() ==> (#[trigger] r@[i]) == (ToolButton {
                tool: tool_order(compact)[i],
                label: tool_name(tool_order(compact)[i]),
                selected: tool_order(compact)[i] == active,
            }),
{
    let mut order: Vec<ToolId> = Vec::new();
    order.push(ToolId::Select);
    order.push(ToolId::Transform);
    order.push(ToolId::Pen);
    order.push(ToolId::PathEdit);
    order.push(ToolId::Rect);
    order.push(ToolId::Ellipse);
    order.push(ToolId::Star);
    order.push(ToolId::Text);
    if compact {
        order.push(ToolId::Gradient);
        order.push(ToolId::Fill);
    } else {
        order.push(ToolId::Fill);
        order.push(ToolId::Gradient);
    }
    assert(order@ =~= tool_order(compact));
    let mut out: Vec<ToolButton> = Vec::new();
    let mut i: usize = 0;
    while i < order.len()
        invariant
            i <= order@.len(),
            order@ == tool_order(compact),
            out@.len() == i,
            forall|j: int|
                0 <= j < i ==> (#[trigger] out@[j]) == (ToolButton {
                    tool: tool_order(compact)[j],
                    label: tool_name(tool_order(compact)[j]),
                    selected: tool_order(compact)[j] == active,
                }),
        decreases order.len() - i,
    {
        let tool = order[i];
        out.push(ToolButton { tool, label: tool_label(tool), selected: tool == active });
        i = i + 1;
    }
    out
}

/// What the file menu offers.
#[derive(Clone, Copy, Debug, PartialEq, Eq, Structural)]
pub enum FileItem {
    New,
    Open,
    Save,
    SaveAs,
    Undo,
    Redo,
    ImportLottie,
    ImportSvg,
    ImportFont,
    ExportLottie,
    ExportPng,
    ExportSvg,
}

/// The file menu, in order; nothing stands for a divider.
pub open spec fn file_items() -> Seq<Option<FileItem>> {
    seq![
        Some(FileItem::New),
        Some(FileItem::Open),
        Some(FileItem::Save),
        Some(FileItem::SaveAs),
        None,
        Some(FileItem::Undo),
        Some(FileItem::Redo),
        None,
        Some(FileItem::ImportLottie),
        Some(FileItem::ImportSvg),
        Some(FileItem::ImportFont),
        None,
        Some(FileItem::ExportLottie),
        Some(FileItem::ExportPng),
        Some(FileItem::ExportSvg),
    ]
}

/// The file menu, in order; nothing stands for a divider.
pub fn file_menu() -> (r: Vec<Option<FileItem>>)
    ensures
        r@ == file_items(),
{
    let mut out: Vec<Option<FileItem>> = Vec::new();
    out.push(Some(FileItem::New));
    out.push(Some(FileItem::Open));
    out.push(Some(FileItem::Save));
    out.push(Some(FileItem::SaveAs));
    out.push(None);
    out.push(Some(FileItem::Undo));
    out.push(Some(FileItem::Redo));
    out.push(None);
    out.push(Some(FileItem::ImportLottie));
    out.push(Some(FileItem::ImportSvg));
    out.push(Some(FileItem::ImportFont));
    out.push(None);
    out.push(Some(FileItem::ExportLottie));
    out.push(Some(FileItem::ExportPng));
    out.push(Some(FileItem::ExportSvg));
    assert(out@ =~= file_items());
    out
}

/// What an item of the file menu is called.
pub fn file_label(item: FileItem) -> (r: &'static str)
    ensures
        r == (match item {
            FileItem::New => "New",
            FileItem::Open => "Open…",
            FileItem::Save => "Save",
            FileItem::SaveAs => "Save As…",
            FileItem::Undo => "Undo",
            FileItem::Redo => "Redo",
            FileItem::ImportLottie => "Import Lottie…",
            FileItem::ImportSvg => "Import SVG…",
            FileItem::ImportFont => "Import Font…",
            FileItem::ExportLottie => "Export Lottie…",
            FileItem::ExportPng => "Export PNG…",
            FileItem::ExportSvg => "Export SVG…",
        }),
{
    match item {
        FileItem::New => "New",
        FileItem::Open => "Open…",
        FileItem::Save => "Save",
        FileItem::SaveAs => "Save As…",
        FileItem::Undo => "Undo",
        FileItem::Redo => "Redo",
        FileItem::ImportLottie => "Import Lottie…",
        FileItem::ImportSvg => "Import SVG…",
        FileItem::ImportFont => "Import Font…",
        FileItem::ExportLottie => "Export Lottie…",
        FileItem::ExportPng => "Export PNG…",
        FileItem::ExportSvg => "Export SVG…",
    }
}

/// The intent of an item that replaces the project: such an item waits for the
/// unsaved-changes question.
pub fn file_intent(item: FileItem) -> (r: Option<PendingIntent>)
    ensures
        r == (match item {
            FileItem::New => Some(PendingIntent::New),
            FileItem::Open => Some(PendingIntent::Open),
            FileItem::ImportLottie => Some(PendingIntent::ImportLottie),
            FileItem::ImportSvg => Some(PendingIntent::ImportSvg),
            _ => None,
        }),
{
    match item {
        FileItem::New => Some(PendingIntent::New),
        FileItem::Open => Some(PendingIntent::Open),
        FileItem::ImportLottie => Some(PendingIntent::ImportLottie),
        FileItem::ImportSvg => Some(PendingIntent::ImportSvg),
        _ => None,
    }
}

/// A tile of the welcome screen.
#[derive(Clone, Copy, Debug, PartialEq, Eq)]
pub struct LauncherTile {
    pub title: &'static str,
    pub subtitle: &'static str,
    pub intent: PendingIntent,
}

/// The tiles of the welcome screen, in order.
pub open spec fn tiles() -> Seq<LauncherTile> {
    seq![
        LauncherTile {
            title: "New",
            subtitle: "Create a fresh project",
            intent: PendingIntent::New,
        },
        LauncherTile {
            title: "Open",
            subtitle: "Open .ren / .renb",
            intent: PendingIntent::Open,
        },
        LauncherTile {
            title: "Import Lottie",
            subtitle: "Bring in JSON animation",
            intent: PendingIntent::ImportLottie,
        },
        LauncherTile {
            title: "Import SVG",
            subtitle: "Bring in vector artwork",
            intent: PendingIntent::ImportSvg,
        },
    ]
}

/// The tiles of the welcome screen, in order.
pub fn launcher_tiles() -> (r: Vec<LauncherTile>)
    ensures
        r@ == tiles(),
{
    let mut out: Vec<LauncherTile> = Vec::new();
    out.push(
        LauncherTile {
            title: "New",
            subtitle: "Create a fresh project",
            intent: PendingIntent::New,
        },
    );
    out.push(
        LauncherTile {
            title: "Open",
            subtitle: "Open .ren / .renb",
            intent: PendingIntent::Open,
        },
    );
    out.push(
        LauncherTile {
            title: "Import Lottie",
            subtitle: "Bring in JSON animation",
            intent: PendingIntent::ImportLottie,
        },
    );
    out.push(
        LauncherTile {
            title: "Import SVG",
            subtitle: "Bring in vector artwork",
            intent: PendingIntent::ImportSvg,
        },
    );
    assert(out@ =~= tiles());
    out
}

/// What the host's dialogs for opening a file are given: a title and the extensions
/// that can be picked.
pub fn open_dialog(intent: PendingIntent) -> (r: Option<(&'static str, Vec<&'static str>)>)
    ensures
        match intent {
            PendingIntent::New => r is None,
            PendingIntent::Open => r matches Some((t, e)) && t == "Open project" && e@ == seq![
                "ren",
                "renb",
            ],
            PendingIntent::ImportLottie => r matches Some((t, e)) && t == "Import Lottie" && e@
                == seq!["json"],
            PendingIntent::ImportSvg => r matches Some((t, e)) && t == "Import SVG" && e@
                == seq!["svg"],
        },
{
    let mut extensions: Vec<&'static str> = Vec::new();
    match intent {
        PendingIntent::New => None,
        PendingIntent::Open => {
            extensions.push("ren");
            extensions.push("renb");
            assert(extensions@ =~= seq!["ren", "renb"]);
            Some(("Open project", extensions))
        },
        PendingIntent::ImportLottie => {
            extensions.push("json");
            assert(extensions@ =~= seq!["json"]);
            Some(("Import Lottie", extensions))
        },
        PendingIntent::ImportSvg => {
            extensions.push("svg");
            assert(extensions@ =~= seq!["svg"]);
            Some(("Import SVG", extensions))
        },
    }
}

/// The rail and the compact palette offer the same tools, each once.
pub proof fn law_every_layout_offers_every_tool(tool: ToolId, compact: bool)
    ensures
        tool_order(compact).no_duplicates(),
        tool_order(compact).contains(tool),
{
    let order = tool_order(compact);
    let at: int = match tool {
        ToolId::Select => 0,
        ToolId::Transform => 1,
        ToolId::Pen => 2,
        ToolId::PathEdit => 3,
        ToolId::Rect => 4,
        ToolId::Ellipse => 5,
        ToolId::Star => 6,
        ToolId::Text => 7,
        ToolId::Fill => if compact {
            9
        } else {
            8
        },
        ToolId::Gradient => if compact {
            8
        } else {
            9
        },
    };
    assert(order[at] == tool);
}

/// The canvas leads every bottom bar, no page is listed twice, and every tab of the
/// side panel is also reachable from the bottom bar.
pub proof fn law_navigation_covers_the_side_tabs(mode: EditorMode)
    ensures
        compact_pages(mode)[0] == PanelPage::Canvas,
        compact_pages(mode).no_duplicates(),
        medium_pages(mode).no_duplicates(),
        forall|p: PanelPage|
            medium_pages(mode).contains(p) ==> #[trigger] compact_pages(mode).contains(p),
        compact_pages(mode).len() == medium_pages(mode).len() + 1,
{
    assert forall|p: PanelPage| medium_pages(mode).contains(p) implies #[trigger] compact_pages(
        mode,
    ).contains(p) by {
        let i = choose|i: int| 0 <= i < medium_pages(mode).len() && medium_pages(mode)[i] == p;
        let all = compact_pages(mode);
        if mode == EditorMode::Design {
            assert(all[i + 1] == p);
        } else if mode == EditorMode::Animate {
            assert(all[if i == 0 {
                1int
            } else if i == 1 {
                3int
            } else {
                2int
            }] == p);
        } else {
            assert(all[i + 1] == p);
        }
    }
}

} // verus!
