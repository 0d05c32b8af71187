//! The sidebar overflow menu.
//!
//! A fixed, ordered sequence of sections, each an ordered sequence of menu
//! entries. Every entry carries a human display label and the qualified
//! name of the command it activates; all but the keyboard-shortcuts entry
//! are bound to an action of the application registry (the shortcuts
//! overlay belongs to the window, outside that registry).

use vstd::prelude::*;
use crate::actions::AppAction;
use crate::actions::action_qualified;

verus! {

/// An entry of the sidebar overflow menu.
#[derive(Debug, Clone, Copy, PartialEq, Eq, Hash, Structural)]
pub enum SidebarMenuItem {
    NewPost,
    OpenProfile,
    Refresh,
    Announcements,
    FollowRequests,
    MutesAndBlocks,
    Drafts,
    ScheduledPosts,
    Preferences,
    KeyboardShortcuts,
    About,
    Quit,
}

/// The registry action a menu entry is bound to, if any: every entry but
/// the keyboard-shortcuts overlay maps to one application action.
pub open spec fn menu_app_action(m: SidebarMenuItem) -> Option<AppAction> {
    match m {
        SidebarMenuItem::NewPost => Some(AppAction::NewPost),
        SidebarMenuItem::OpenProfile => Some(AppAction::OpenProfile),
        SidebarMenuItem::Refresh => Some(AppAction::Refresh),
        SidebarMenuItem::Announcements => Some(AppAction::Announcements),
        SidebarMenuItem::FollowRequests => Some(AppAction::FollowRequests),
        SidebarMenuItem::MutesAndBlocks => Some(AppAction::MutesAndBlocks),
        SidebarMenuItem::Drafts => Some(AppAction::Drafts),
        SidebarMenuItem::ScheduledPosts => Some(AppAction::ScheduledPosts),
        SidebarMenuItem::Preferences => Some(AppAction::Preferences),
        SidebarMenuItem::KeyboardShortcuts => None,
        SidebarMenuItem::About => Some(AppAction::About),
        SidebarMenuItem::Quit => Some(AppAction::Quit),
    }
}

/// The qualified command name a menu entry activates: the qualified name of
/// its registry action, or the window's shortcuts overlay for the one entry
/// outside the registry.
pub open spec fn menu_action_name(m: SidebarMenuItem) -> Seq<char> {
    match menu_app_action(m) {
        Some(a) => action_qualified(a),
        None => "win.show-help.overlay"@,
    }
}

/// The display label of each menu entry.
pub open spec fn menu_label(m: SidebarMenuItem) -> Seq<char> {
    match m {
        SidebarMenuItem::NewPost => "New Post"@,
        SidebarMenuItem::OpenProfile => "Open Profile"@,
        SidebarMenuItem::Refresh => "Refresh"@,
        SidebarMenuItem::Announcements => "Announcements"@,
        SidebarMenuItem::FollowRequests => "Follow Requests"@,
        SidebarMenuItem::MutesAndBlocks => "Mutes And Blocks"@,
        SidebarMenuItem::Drafts => "Drafts"@,
        SidebarMenuItem::ScheduledPosts => "Scheduled Posts"@,
        SidebarMenuItem::Preferences => "Preferences"@,
        SidebarMenuItem::KeyboardShortcuts => "Keyboard Shortcuts"@,
        SidebarMenuItem::About => "About"@,
        SidebarMenuItem::Quit => "Quit"@,
    }
}

/// The fixed section layout of the overflow menu: account commands, then
/// miscellaneous openers, then application-level entries.
pub open spec fn menu_layout() -> Seq<Seq<SidebarMenuItem>> {
    seq![
        seq![SidebarMenuItem::NewPost, SidebarMenuItem::OpenProfile, SidebarMenuItem::Refresh],
        seq![
            SidebarMenuItem::Announcements,
            SidebarMenuItem::FollowRequests,
            SidebarMenuItem::MutesAndBlocks,
            SidebarMenuItem::Drafts,
            SidebarMenuItem::ScheduledPosts,
        ],
        seq![
            SidebarMenuItem::Preferences,
            SidebarMenuItem::KeyboardShortcuts,
            SidebarMenuItem::About,
            SidebarMenuItem::Quit,
        ],
    ]
}

impl SidebarMenuItem {
    /// The registry action this entry is bound to, if any.
    pub fn app_action(&self) -> (r: Option<AppAction>)
        ensures
            r == menu_app_action(*self),
    {
        match self {
            SidebarMenuItem::NewPost => Some(AppAction::NewPost),
            SidebarMenuItem::OpenProfile => Some(AppAction::OpenProfile),
            SidebarMenuItem::Refresh => Some(AppAction::Refresh),
            SidebarMenuItem::Announcements => Some(AppAction::Announcements),
            SidebarMenuItem::FollowRequests => Some(AppAction::FollowRequests),
            SidebarMenuItem::MutesAndBlocks => Some(AppAction::MutesAndBlocks),
            SidebarMenuItem::Drafts => Some(AppAction::Drafts),
            SidebarMenuItem::ScheduledPosts => Some(AppAction::ScheduledPosts),
            SidebarMenuItem::Preferences => Some(AppAction::Preferences),
            SidebarMenuItem::KeyboardShortcuts => None,
            SidebarMenuItem::About => Some(AppAction::About),
            SidebarMenuItem::Quit => Some(AppAction::Quit),
        }
    }

    /// The qualified name of the command this entry activates.
    pub fn action(&self) -> (r: &'static str)
        ensures
            r@ == menu_action_name(*self),
    {
        match self.app_action() {
            Some(a) => a.qualified_ident(),
            None => "win.show-help.overlay",
        }
    }

    /// The display label of this entry.
    pub fn label(&self) -> (r: &'static str)
        ensures
            r@ == menu_label(*self),
    {
        match self {
            SidebarMenuItem::NewPost => "New Post",
            SidebarMenuItem::OpenProfile => "Open Profile",
            SidebarMenuItem::Refresh => "Refresh",
            SidebarMenuItem::Announcements => "Announcements",
            SidebarMenuItem::FollowRequests => "Follow Requests",
            SidebarMenuItem::MutesAndBlocks => "Mutes And Blocks",
            SidebarMenuItem::Drafts => "Drafts",
            SidebarMenuItem::ScheduledPosts => "Scheduled Posts",
            SidebarMenuItem::Preferences => "Preferences",
            SidebarMenuItem::KeyboardShortcuts => "Keyboard Shortcuts",
            SidebarMenuItem::About => "About",
            SidebarMenuItem::Quit => "Quit",
        }
    }
}

/// The sections of the overflow menu, in their fixed order.
pub fn menu_sections() -> (r: Vec<Vec<SidebarMenuItem>>)
    ensures
        r@.len() == menu_layout().len(),
        forall|i: int| 0 <= i < r@.len() ==> r@[i]@ == menu_layout()[i],
{
    let mut account: Vec<SidebarMenuItem> = Vec::new();
    account.push(SidebarMenuItem::NewPost);
    account.push(SidebarMenuItem::OpenProfile);
    account.push(SidebarMenuItem::Refresh);
    let mut misc: Vec<SidebarMenuItem> = Vec::new();
    misc.push(SidebarMenuItem::Announcements);
    misc.push(SidebarMenuItem::FollowRequests);
    misc.push(SidebarMenuItem::MutesAndBlocks);
    misc.push(SidebarMenuItem::Drafts);
    misc.push(SidebarMenuItem::ScheduledPosts);
    let mut app_level: Vec<SidebarMenuItem> = Vec::new();
    app_level.push(SidebarMenuItem::Preferences);
    app_level.push(SidebarMenuItem::KeyboardShortcuts);
    app_level.push(SidebarMenuItem::About);
    app_level.push(SidebarMenuItem::Quit);
    proof {
        assert(account@ =~= menu_layout()[0]);
        assert(misc@ =~= menu_layout()[1]);
        assert(app_level@ =~= menu_layout()[2]);
    }
    let mut sections: Vec<Vec<SidebarMenuItem>> = Vec::new();
    sections.push(account);
    sections.push(misc);
    sections.push(app_level);
    sections
}

/// A rendered entry of the overflow menu: the display label and the
/// qualified name of the command it activates.
#[derive(Debug, Clone)]
pub struct MenuEntry {
    pub label: String,
    pub action: String,
}

/// Mathematical model of a `MenuEntry`.
pub struct MenuEntryV {
    pub label: Seq<char>,
    pub action: Seq<char>,
}

impl View for MenuEntry {
    type V = MenuEntryV;

    open spec fn view(&self) -> MenuEntryV {
        MenuEntryV { label: self.label@, action: self.action@ }
    }
}

/// The rendered form of one menu section: each item becomes the entry with
/// its label and its qualified command name, in order.
pub fn menu_from_items(items: &Vec<SidebarMenuItem>) -> (r: Vec<MenuEntry>)
    ensures
        r@.len() == items@.len(),
        forall|i: int|
            0 <= i < items@.len() ==> r@[i]@.label == menu_label(items@[i]) && r@[i]@.action
                == menu_action_name(items@[i]),
{
    let mut entries: Vec<MenuEntry> = Vec::new();
    let mut i: usize = 0;
    while i < items.len()
        invariant
            i <= items@.len(),
            entries@.len() == i,
            forall|k: int|
                0 <= k < i ==> entries@[k]@.label == menu_label(items@[k]) && entries@[k]@.action
                    == menu_action_name(items@[k]),
        decreases items@.len() - i,
    {
        let item = items[i];
        entries.push(
            MenuEntry { label: item.label().to_owned(), action: item.action().to_owned() },
        );
        i += 1;
    }
    entries
}

} // verus!
