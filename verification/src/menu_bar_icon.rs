//! The status-bar menu icon: a fixed native menu built once per process,
//! whose tagged entries are routed to one of three application actions.
//!
//! The native side (the OS status bar, the menu objects, the delegate that
//! receives clicks) lives with the host; this module decides what the menu
//! holds, which action a click dispatches, and when a native item may be
//! created at all.

use vstd::prelude::*;

verus! {

/// An application-level action that a menu entry can dispatch.
#[derive(Clone, Copy, PartialEq, Eq, Structural, Debug)]
pub enum MenuAction {
    NewThread,
    OpenSettings,
    Quit,
}

/// The action dispatched for a native menu entry's integer tag:
/// the three known tags map to their actions, every other tag to none.
pub open spec fn spec_action_for_tag(tag: i64) -> Option<MenuAction> {
    if tag == 1 {
        Some(MenuAction::NewThread)
    } else if tag == 2 {
        Some(MenuAction::OpenSettings)
    } else if tag == 3 {
        Some(MenuAction::Quit)
    } else {
        None
    }
}

/// Routes a clicked menu entry's tag to the action it stands for.
/// Unrecognized tags dispatch nothing.
pub fn handle_menu_action(tag: i64) -> (action: Option<MenuAction>)
    ensures
        action == spec_action_for_tag(tag),
{
    match tag {
        1 => Some(MenuAction::NewThread),
        2 => Some(MenuAction::OpenSettings),
        3 => Some(MenuAction::Quit),
        _ => None,
    }
}

/// One entry of the status item's dropdown menu, as the host's native
/// menu should show it.
#[derive(Clone, Debug)]
pub enum MenuEntry {
    Separator,
    /// A greyed-out placeholder entry that dispatches nothing.
    Disabled { title: String },
    /// An actionable entry; a click hands its tag to `handle_menu_action`.
    Item { title: String, tag: i64 },
}

/// The status item's fixed menu: a disabled placeholder, then the three
/// actionable entries, each behind a separator.
pub open spec fn standard_menu(entries: Seq<MenuEntry>) -> bool {
    &&& entries.len() == 7
    &&& entries[0] matches MenuEntry::Disabled { title } && title@ == "No recent threads"@
    &&& entries[1] is Separator
    &&& entries[2] matches MenuEntry::Item { title, tag } && title@ == "New Thread"@ && tag == 1
    &&& entries[3] is Separator
    &&& entries[4] matches MenuEntry::Item { title, tag } && title@ == "Open Settings"@ && tag
        == 2
    &&& entries[5] is Separator
    &&& entries[6] matches MenuEntry::Item { title, tag } && title@ == "Quit"@ && tag == 3
}

/// The status item as the library sees it: the menu the native item was
/// built with. The native handles themselves stay with the host.
pub struct MenuBarIcon {
    pub menu: Vec<MenuEntry>,
}

impl MenuBarIcon {
    /// A status item carrying the fixed menu.
    pub fn new() -> (icon: MenuBarIcon)
        ensures
            standard_menu(icon.menu@),
    {
        MenuBarIcon { menu: MenuBarIcon::create_menu() }
    }

    /// Builds the fixed menu, entry by entry, in the order the native
    /// menu shows them.
    pub fn create_menu() -> (entries: Vec<MenuEntry>)
        ensures
            standard_menu(entries@),
    {
        let mut entries: Vec<MenuEntry> = Vec::new();
        entries.push(MenuEntry::Disabled { title: "No recent threads".to_string() });
        entries.push(MenuEntry::Separator);
        entries.push(MenuEntry::Item { title: "New Thread".to_string(), tag: 1 });
        entries.push(MenuEntry::Separator);
        entries.push(MenuEntry::Item { title: "Open Settings".to_string(), tag: 2 });
        entries.push(MenuEntry::Separator);
        entries.push(MenuEntry::Item { title: "Quit".to_string(), tag: 3 });
        entries
    }
}

/// The process-wide holder of the status item: at most one exists, and it
/// is created on the first initialization only.
pub struct MenuBarState {
    pub icon: Option<MenuBarIcon>,
}

impl MenuBarState {
    /// The state a process starts in: no status item yet.
    pub fn new() -> (state: MenuBarState)
        ensures
            state.icon is None,
    {
        MenuBarState { icon: None }
    }
}

/// What one initialization call does: a native item is created exactly
/// when none existed, and an existing one is left untouched.
pub open spec fn initialize_post(pre: MenuBarState, post: MenuBarState, created: bool) -> bool {
    &&& created == (pre.icon is None)
    &&& post.icon is Some
    &&& created ==> (post.icon matches Some(icon) && standard_menu(icon.menu@))
    &&& !created ==> post == pre
}

/// One initialization step of the status item. Returns whether a native
/// status item must now be created: the host performs the native work
/// only when this says so, which keeps the item a per-process singleton.
pub fn initialize_menu_bar_icon(state: &mut MenuBarState) -> (created: bool)
    ensures
        initialize_post(*old(state), *final(state), created),
{
    if state.icon.is_none() {
        state.icon = Some(MenuBarIcon::new());
        true
    } else {
        false
    }
}

/// Initializing twice is initializing once: the second call creates no
/// further native item and leaves the state exactly as the first call
/// left it; starting from a fresh process, precisely one item is created.
pub proof fn lemma_initialize_idempotent(
    s0: MenuBarState,
    s1: MenuBarState,
    s2: MenuBarState,
    first_created: bool,
    second_created: bool,
)
    requires
        initialize_post(s0, s1, first_created),
        initialize_post(s1, s2, second_created),
    ensures
        s2 == s1,
        !second_created,
        first_created == (s0.icon is None),
{
}

/// Each actionable entry of the fixed menu dispatches the action its
/// label announces, and the placeholder dispatches nothing.
pub proof fn lemma_standard_menu_dispatch(entries: Seq<MenuEntry>)
    requires
        standard_menu(entries),
    ensures
        spec_action_for_tag(entries[2]->Item_tag) == Some(MenuAction::NewThread),
        spec_action_for_tag(entries[4]->Item_tag) == Some(MenuAction::OpenSettings),
        spec_action_for_tag(entries[6]->Item_tag) == Some(MenuAction::Quit),
{
}

} // verus!
