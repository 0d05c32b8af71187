//! Navigable sidebar destinations and their static metadata.
//!
//! A `Place` is either one of the fixed built-in destinations
//! (`StaticPlace`) or a user-defined list. Every built-in destination has
//! exactly one icon identifier and one display title, given by a total
//! mapping; a list place borrows the icon of the `Lists` destination and is
//! titled by its own display name.

use vstd::prelude::*;

verus! {

/// Opaque stable identifier of a user-defined list.
#[derive(Debug, Clone, PartialEq, Eq, Hash)]
pub struct ListId(pub String);

impl View for ListId {
    type V = Seq<char>;

    open spec fn view(&self) -> Seq<char> {
        self.0@
    }
}

/// The fixed, closed set of built-in destinations, in display order.
#[derive(Debug, Clone, Copy, PartialEq, Eq, Hash, Structural)]
pub enum StaticPlace {
    Home,
    Notifications,
    Conversations,
    Search,
    Favourites,
    Bookmarks,
    Hashtags,
    Explore,
    Local,
    Federated,
    Lists,
}

/// A navigable sidebar destination: a built-in one, or a user-defined list
/// carrying its identifier and its human-readable display name.
///
/// Equality is structural: two `List` places are equal only if both the
/// identifier and the name match.
#[derive(Debug, Clone, PartialEq, Eq, Hash)]
pub enum Place {
    Static(StaticPlace),
    List(ListId, String),
}

/// Mathematical model of a `Place`: the list identifier and display name
/// are abstracted to character sequences.
pub enum PlaceV {
    Static(StaticPlace),
    List(Seq<char>, Seq<char>),
}

impl View for Place {
    type V = PlaceV;

    open spec fn view(&self) -> PlaceV {
        match self {
            Place::Static(kind) => PlaceV::Static(*kind),
            Place::List(id, name) => PlaceV::List(id@, name@),
        }
    }
}

/// The icon identifier of each built-in destination.
pub open spec fn static_icon(kind: StaticPlace) -> Seq<char> {
    match kind {
        StaticPlace::Home => "user-home-symbolic"@,
        StaticPlace::Notifications => "bell-outline-symbolic"@,
        StaticPlace::Conversations => "mail-unread-symbolic"@,
        StaticPlace::Search => "loupe-large-symbolic"@,
        StaticPlace::Favourites => "star-outline-thick-symbolic"@,
        StaticPlace::Bookmarks => "bookmark-outline-symbolic"@,
        StaticPlace::Hashtags => "hashtag-symbolic"@,
        StaticPlace::Explore => "explore2-symbolic"@,
        StaticPlace::Local => "network-server-symbolic"@,
        StaticPlace::Federated => "globe-symbolic"@,
        StaticPlace::Lists => "list-compact-symbolic"@,
    }
}

/// The display title of each built-in destination.
pub open spec fn static_title(kind: StaticPlace) -> Seq<char> {
    match kind {
        StaticPlace::Home => "Home"@,
        StaticPlace::Notifications => "Notifications"@,
        StaticPlace::Conversations => "Conversations"@,
        StaticPlace::Search => "Search"@,
        StaticPlace::Favourites => "Favourites"@,
        StaticPlace::Bookmarks => "Bookmarks"@,
        StaticPlace::Hashtags => "Hashtags"@,
        StaticPlace::Explore => "Explore"@,
        StaticPlace::Local => "Local"@,
        StaticPlace::Federated => "Federated"@,
        StaticPlace::Lists => "Lists"@,
    }
}

/// The icon of any place: list places all share the `Lists` icon.
pub open spec fn place_icon(place: PlaceV) -> Seq<char> {
    match place {
        PlaceV::Static(kind) => static_icon(kind),
        PlaceV::List(_, _) => static_icon(StaticPlace::Lists),
    }
}

/// The title of any place: a list place is titled by its own display name.
pub open spec fn place_title(place: PlaceV) -> Seq<char> {
    match place {
        PlaceV::Static(kind) => static_title(kind),
        PlaceV::List(_, name) => name,
    }
}

/// The built-in destinations in their fixed display order.
pub open spec fn static_order() -> Seq<StaticPlace> {
    seq![
        StaticPlace::Home,
        StaticPlace::Notifications,
        StaticPlace::Conversations,
        StaticPlace::Search,
        StaticPlace::Favourites,
        StaticPlace::Bookmarks,
        StaticPlace::Hashtags,
        StaticPlace::Explore,
        StaticPlace::Local,
        StaticPlace::Federated,
        StaticPlace::Lists,
    ]
}

impl StaticPlace {
    /// The icon identifier of this destination.
    pub fn icon(&self) -> (r: &'static str)
        ensures
            r@ == static_icon(*self),
    {
        match self {
            StaticPlace::Home => "user-home-symbolic",
            StaticPlace::Notifications => "bell-outline-symbolic",
            StaticPlace::Conversations => "mail-unread-symbolic",
            StaticPlace::Search => "loupe-large-symbolic",
            StaticPlace::Favourites => "star-outline-thick-symbolic",
            StaticPlace::Bookmarks => "bookmark-outline-symbolic",
            StaticPlace::Hashtags => "hashtag-symbolic",
            StaticPlace::Explore => "explore2-symbolic",
            StaticPlace::Local => "network-server-symbolic",
            StaticPlace::Federated => "globe-symbolic",
            StaticPlace::Lists => "list-compact-symbolic",
        }
    }

    /// The display title of this destination.
    pub fn title(&self) -> (r: &'static str)
        ensures
            r@ == static_title(*self),
    {
        match self {
            StaticPlace::Home => "Home",
            StaticPlace::Notifications => "Notifications",
            StaticPlace::Conversations => "Conversations",
            StaticPlace::Search => "Search",
            StaticPlace::Favourites => "Favourites",
            StaticPlace::Bookmarks => "Bookmarks",
            StaticPlace::Hashtags => "Hashtags",
            StaticPlace::Explore => "Explore",
            StaticPlace::Local => "Local",
            StaticPlace::Federated => "Federated",
            StaticPlace::Lists => "Lists",
        }
    }

    /// This destination as a `Place`.
    pub fn wrap(self) -> (p: Place)
        ensures
            p@ == PlaceV::Static(self),
    {
        Place::Static(self)
    }
}

impl Place {
    /// The icon identifier of this place.
    pub fn icon(&self) -> (r: &'static str)
        ensures
            r@ == place_icon(self@),
    {
        match self {
            Place::Static(kind) => kind.icon(),
            Place::List(_, _) => StaticPlace::Lists.icon(),
        }
    }

    /// The display title of this place. The display form of a place equals
    /// its title: the built-in title for a static place, the list's own name
    /// for a list place.
    pub fn title(&self) -> (r: String)
        ensures
            r@ == place_title(self@),
    {
        match self {
            Place::Static(kind) => kind.title().to_owned(),
            Place::List(_, name) => name.clone(),
        }
    }

    /// An equal place: same variant, same payload.
    pub fn duplicate(&self) -> (r: Place)
        ensures
            r@ == self@,
    {
        match self {
            Place::Static(kind) => Place::Static(*kind),
            Place::List(id, name) => Place::List(ListId(id.0.clone()), name.clone()),
        }
    }
}

/// The built-in destinations in their fixed display order.
pub fn static_places() -> (r: Vec<StaticPlace>)
    ensures
        r@ == static_order(),
{
    let mut v: Vec<StaticPlace> = Vec::new();
    v.push(StaticPlace::Home);
    v.push(StaticPlace::Notifications);
    v.push(StaticPlace::Conversations);
    v.push(StaticPlace::Search);
    v.push(StaticPlace::Favourites);
    v.push(StaticPlace::Bookmarks);
    v.push(StaticPlace::Hashtags);
    v.push(StaticPlace::Explore);
    v.push(StaticPlace::Local);
    v.push(StaticPlace::Federated);
    v.push(StaticPlace::Lists);
    proof {
        assert(v@ =~= static_order());
    }
    v
}

/// The static-place metadata mapping is total and yields a non-empty icon
/// identifier and a non-empty display title for every built-in destination.
pub proof fn lemma_static_metadata_nonempty(kind: StaticPlace)
    ensures
        static_icon(kind).len() > 0,
        static_title(kind).len() > 0,
{
    reveal_strlit("user-home-symbolic");
    reveal_strlit("bell-outline-symbolic");
    reveal_strlit("mail-unread-symbolic");
    reveal_strlit("loupe-large-symbolic");
    reveal_strlit("star-outline-thick-symbolic");
    reveal_strlit("bookmark-outline-symbolic");
    reveal_strlit("hashtag-symbolic");
    reveal_strlit("explore2-symbolic");
    reveal_strlit("network-server-symbolic");
    reveal_strlit("globe-symbolic");
    reveal_strlit("list-compact-symbolic");
    reveal_strlit("Home");
    reveal_strlit("Notifications");
    reveal_strlit("Conversations");
    reveal_strlit("Search");
    reveal_strlit("Favourites");
    reveal_strlit("Bookmarks");
    reveal_strlit("Hashtags");
    reveal_strlit("Explore");
    reveal_strlit("Local");
    reveal_strlit("Federated");
    reveal_strlit("Lists");
}

/// Every place has a non-empty icon identifier, whatever its variant.
pub proof fn lemma_place_icon_nonempty(place: PlaceV)
    ensures
        place_icon(place).len() > 0,
{
    match place {
        PlaceV::Static(kind) => lemma_static_metadata_nonempty(kind),
        PlaceV::List(_, _) => lemma_static_metadata_nonempty(StaticPlace::Lists),
    }
}

} // verus!
