//! The global action registry.
//!
//! A fixed, ordered set of application commands, each bound to a stable
//! short identifier under the one application-scoped group `"app"`. The
//! qualified name of an action is always `group + "." + ident`; idents are
//! pairwise distinct within the registry, and only `Quit` carries a global
//! keyboard accelerator.

use vstd::prelude::*;

verus! {

/// A globally dispatchable application command.
#[derive(Debug, Clone, Copy, PartialEq, Eq, Hash, Structural)]
pub enum AppAction {
    NewPost,
    OpenProfile,
    Refresh,
    Announcements,
    FollowRequests,
    MutesAndBlocks,
    Drafts,
    ScheduledPosts,
    Preferences,
    About,
    Quit,
}

/// The short identifier of each action, unique within the registry.
pub open spec fn action_ident(a: AppAction) -> Seq<char> {
    match a {
        AppAction::NewPost => "compose"@,
        AppAction::OpenProfile => "open-current-account-profile"@,
        AppAction::Refresh => "refresh"@,
        AppAction::Announcements => "open-announcements"@,
        AppAction::FollowRequests => "open-follow-requests"@,
        AppAction::MutesAndBlocks => "open-mutes-blocks"@,
        AppAction::Drafts => "open-draft-posts"@,
        AppAction::ScheduledPosts => "open-scheduled-posts"@,
        AppAction::Preferences => "open-preferences"@,
        AppAction::About => "about"@,
        AppAction::Quit => "quit"@,
    }
}

/// The application-scoped group that all actions belong to.
pub open spec fn action_group() -> Seq<char> {
    "app"@
}

/// The stable qualified name of each action, registered with the host
/// application's dispatch map.
pub open spec fn action_qualified(a: AppAction) -> Seq<char> {
    match a {
        AppAction::NewPost => "app.compose"@,
        AppAction::OpenProfile => "app.open-current-account-profile"@,
        AppAction::Refresh => "app.refresh"@,
        AppAction::Announcements => "app.open-announcements"@,
        AppAction::FollowRequests => "app.open-follow-requests"@,
        AppAction::MutesAndBlocks => "app.open-mutes-blocks"@,
        AppAction::Drafts => "app.open-draft-posts"@,
        AppAction::ScheduledPosts => "app.open-scheduled-posts"@,
        AppAction::Preferences => "app.open-preferences"@,
        AppAction::About => "app.about"@,
        AppAction::Quit => "app.quit"@,
    }
}

/// The optional global keyboard accelerator of each action: only `Quit` is
/// bound, to the platform-standard quit chord.
pub open spec fn action_accelerator(a: AppAction) -> Option<Seq<char>> {
    match a {
        AppAction::Quit => Some("<Ctrl>Q"@),
        _ => None,
    }
}

/// The actions of the registry in their fixed order.
pub open spec fn action_order() -> Seq<AppAction> {
    seq![
        AppAction::NewPost,
        AppAction::OpenProfile,
        AppAction::Refresh,
        AppAction::Announcements,
        AppAction::FollowRequests,
        AppAction::MutesAndBlocks,
        AppAction::Drafts,
        AppAction::ScheduledPosts,
        AppAction::Preferences,
        AppAction::About,
        AppAction::Quit,
    ]
}

impl AppAction {
    /// The short identifier of this action.
    pub fn ident(&self) -> (r: &'static str)
        ensures
            r@ == action_ident(*self),
    {
        match self {
            AppAction::NewPost => "compose",
            AppAction::OpenProfile => "open-current-account-profile",
            AppAction::Refresh => "refresh",
            AppAction::Announcements => "open-announcements",
            AppAction::FollowRequests => "open-follow-requests",
            AppAction::MutesAndBlocks => "open-mutes-blocks",
            AppAction::Drafts => "open-draft-posts",
            AppAction::ScheduledPosts => "open-scheduled-posts",
            AppAction::Preferences => "open-preferences",
            AppAction::About => "about",
            AppAction::Quit => "quit",
        }
    }

    /// The qualified name of this action: its group, a dot, and its ident.
    pub fn qualified_ident(&self) -> (r: &'static str)
        ensures
            r@ == action_qualified(*self),
    {
        match self {
            AppAction::NewPost => "app.compose",
            AppAction::OpenProfile => "app.open-current-account-profile",
            AppAction::Refresh => "app.refresh",
            AppAction::Announcements => "app.open-announcements",
            AppAction::FollowRequests => "app.open-follow-requests",
            AppAction::MutesAndBlocks => "app.open-mutes-blocks",
            AppAction::Drafts => "app.open-draft-posts",
            AppAction::ScheduledPosts => "app.open-scheduled-posts",
            AppAction::Preferences => "app.open-preferences",
            AppAction::About => "app.about",
            AppAction::Quit => "app.quit",
        }
    }

    /// The global keyboard accelerator of this action, if it has one.
    pub fn accelerator(&self) -> (r: Option<&'static str>)
        ensures
            match r {
                Some(chord) => action_accelerator(*self) == Some(chord@),
                None => action_accelerator(*self) is None,
            },
    {
        match self {
            AppAction::Quit => Some("<Ctrl>Q"),
            _ => None,
        }
    }
}

/// The group identifier that all application actions are registered under.
pub fn group_ident() -> (r: &'static str)
    ensures
        r@ == action_group(),
{
    "app"
}

/// The actions of the registry in their fixed order.
pub fn all_actions() -> (r: Vec<AppAction>)
    ensures
        r@ == action_order(),
{
    let mut v: Vec<AppAction> = Vec::new();
    v.push(AppAction::NewPost);
    v.push(AppAction::OpenProfile);
    v.push(AppAction::Refresh);
    v.push(AppAction::Announcements);
    v.push(AppAction::FollowRequests);
    v.push(AppAction::MutesAndBlocks);
    v.push(AppAction::Drafts);
    v.push(AppAction::ScheduledPosts);
    v.push(AppAction::Preferences);
    v.push(AppAction::About);
    v.push(AppAction::Quit);
    proof {
        assert(v@ =~= action_order());
    }
    v
}

/// The qualified name of every action is its group, a dot, and its ident.
pub proof fn lemma_qualified_name(a: AppAction)
    ensures
        action_qualified(a) == action_group() + "."@ + action_ident(a),
{
    reveal_strlit("app");
    reveal_strlit(".");
    reveal_strlit("compose");
    reveal_strlit("open-current-account-profile");
    reveal_strlit("refresh");
    reveal_strlit("open-announcements");
    reveal_strlit("open-follow-requests");
    reveal_strlit("open-mutes-blocks");
    reveal_strlit("open-draft-posts");
    reveal_strlit("open-scheduled-posts");
    reveal_strlit("open-preferences");
    reveal_strlit("about");
    reveal_strlit("quit");
    reveal_strlit("app.compose");
    reveal_strlit("app.open-current-account-profile");
    reveal_strlit("app.refresh");
    reveal_strlit("app.open-announcements");
    reveal_strlit("app.open-follow-requests");
    reveal_strlit("app.open-mutes-blocks");
    reveal_strlit("app.open-draft-posts");
    reveal_strlit("app.open-scheduled-posts");
    reveal_strlit("app.open-preferences");
    reveal_strlit("app.about");
    reveal_strlit("app.quit");
    assert(action_qualified(a) =~= action_group() + "."@ + action_ident(a));
}

/// Action idents are pairwise distinct within the registry.
pub proof fn lemma_action_idents_unique(a: AppAction, b: AppAction)
    requires
        a != b,
    ensures
        action_ident(a) != action_ident(b),
{
    reveal_strlit("compose");
    reveal_strlit("open-current-account-profile");
    reveal_strlit("refresh");
    reveal_strlit("open-announcements");
    reveal_strlit("open-follow-requests");
    reveal_strlit("open-mutes-blocks");
    reveal_strlit("open-draft-posts");
    reveal_strlit("open-scheduled-posts");
    reveal_strlit("open-preferences");
    reveal_strlit("about");
    reveal_strlit("quit");
    if action_ident(a) == action_ident(b) {
        // Any two registry idents differ in their length, their first
        // character, or their sixth character.
        assert(action_ident(a).len() == action_ident(b).len());
        assert(action_ident(a)[0] == action_ident(b)[0]);
        assert(action_ident(a)[5] == action_ident(b)[5]);
        assert(false);
    }
}

/// Qualified names are globally distinct: they follow from distinct idents
/// under the one shared group.
pub proof fn lemma_qualified_names_unique(a: AppAction, b: AppAction)
    requires
        a != b,
    ensures
        action_qualified(a) != action_qualified(b),
{
    lemma_qualified_name(a);
    lemma_qualified_name(b);
    lemma_action_idents_unique(a, b);
    if action_qualified(a) == action_qualified(b) {
        let ga = action_group() + "."@;
        assert(action_ident(a) =~= action_qualified(a).skip(ga.len() as int));
        assert(action_ident(b) =~= action_qualified(b).skip(ga.len() as int));
    }
}

/// A configuration error detected when validating the action registry.
#[derive(Debug, Clone, Copy, PartialEq, Eq, Structural)]
pub enum RegistryError {
    /// Two registry entries (at the carried indices) share one ident.
    DuplicateIdent(usize, usize),
}

fn str_eq(a: &str, b: &str) -> (r: bool)
    ensures
        r == (a@ == b@),
{
    let owned_a = a.to_owned();
    let owned_b = b.to_owned();
    owned_a == owned_b
}

/// Validates a registry at startup: fails fast on the first pair of actions
/// that share a short identifier, and succeeds exactly when all idents are
/// pairwise distinct.
pub fn validate_registry(actions: &Vec<AppAction>) -> (r: Result<(), RegistryError>)
    ensures
        r is Ok <==> (forall|i: int, j: int|
            0 <= i < j < actions@.len() ==> action_ident(actions@[i]) != action_ident(
                actions@[j],
            )),
        r matches Err(RegistryError::DuplicateIdent(i, j)) ==> 0 <= i < j < actions@.len()
            && action_ident(actions@[i as int]) == action_ident(actions@[j as int]),
{
    let n = actions.len();
    let mut i: usize = 0;
    while i < n
        invariant
            i <= n,
            n == actions@.len(),
            forall|p: int, q: int|
                0 <= p < q < actions@.len() && p < i ==> action_ident(actions@[p])
                    != action_ident(actions@[q]),
        decreases n - i,
    {
        let mut j: usize = i + 1;
        while j < n
            invariant
                i < j <= n,
                n == actions@.len(),
                forall|q: int| i < q < j ==> action_ident(actions@[i as int]) != action_ident(
                    actions@[q],
                ),
            decreases n - j,
        {
            if str_eq(actions[i].ident(), actions[j].ident()) {
                return Err(RegistryError::DuplicateIdent(i, j));
            }
            j += 1;
        }
        i += 1;
    }
    Ok(())
}

} // verus!
