//! The sidebar list model and the selection/output router.
//!
//! The model owns the ordered sequence of renderable rows: built-in
//! destinations first, in their fixed order, then the user's dynamic lists
//! in the order they were supplied. It exposes read access, the
//! separator-placement rule, incremental mutation, and the routing of user
//! gestures to typed output events consumed by the parent application.

use vstd::prelude::*;
use crate::actions::AppAction;
use crate::item::Item;
use crate::item::ItemV;
use crate::menu::SidebarMenuItem;
use crate::menu::menu_app_action;
use crate::places::ListId;
use crate::places::Place;
use crate::places::PlaceV;
use crate::places::StaticPlace;
use crate::places::static_order;
use crate::places::static_places;

verus! {

/// The view of a sequence of rows.
pub open spec fn items_view(items: Seq<Item>) -> Seq<ItemV> {
    items.map(|i: int, item: Item| item@)
}

/// Whether a freshly built row for this place carries the grouping flag:
/// exactly the `Explore` destination and every list place open a group.
pub open spec fn separated_place(place: PlaceV) -> bool {
    place == PlaceV::Static(StaticPlace::Explore) || place is List
}

/// The row built for a built-in destination: no badge, grouping flag set
/// exactly for `Explore`.
pub open spec fn static_item(kind: StaticPlace) -> ItemV {
    ItemV {
        place: PlaceV::Static(kind),
        separated: kind == StaticPlace::Explore,
        badge: 0,
    }
}

/// The row built for a dynamic list entry: no badge, grouping flag set.
pub open spec fn list_item(id: Seq<char>, name: Seq<char>) -> ItemV {
    ItemV { place: PlaceV::List(id, name), separated: true, badge: 0 }
}

/// The rows produced for a given sequence of dynamic list entries: one row
/// per built-in destination in the fixed order, then one row per entry.
pub open spec fn built_places(dynamic: Seq<(ListId, String)>) -> Seq<ItemV> {
    static_order().map(|i: int, kind: StaticPlace| static_item(kind)) + dynamic.map(
        |i: int, entry: (ListId, String)| list_item(entry.0@, entry.1@),
    )
}

/// Builds the ordered row sequence of the sidebar: one item per built-in
/// destination in the fixed enumeration order, each with no badge, then one
/// item per dynamic list entry in the caller-supplied order. The grouping
/// flag is decided once, here, from the place kind alone. An empty input is
/// valid and yields only the built-in rows.
pub fn build_places(dynamic_lists: &Vec<(ListId, String)>) -> (r: Vec<Item>)
    ensures
        r@.len() == static_order().len() + dynamic_lists@.len(),
        items_view(r@) == built_places(dynamic_lists@),
        forall|i: int| 0 <= i < static_order().len() ==> r@[i]@ == static_item(static_order()[i]),
        forall|j: int|
            0 <= j < dynamic_lists@.len() ==> r@[static_order().len() + j]@ == list_item(
                dynamic_lists@[j].0@,
                dynamic_lists@[j].1@,
            ),
{
    let statics = static_places();
    let mut items: Vec<Item> = Vec::new();
    let mut i: usize = 0;
    while i < statics.len()
        invariant
            statics@ == static_order(),
            i <= statics@.len(),
            items@.len() == i,
            forall|k: int| 0 <= k < i ==> items@[k]@ == static_item(static_order()[k]),
        decreases statics@.len() - i,
    {
        let kind = statics[i];
        items.push(
            Item {
                place: Place::Static(kind),
                separated: kind == StaticPlace::Explore,
                badge: 0,
            },
        );
        i += 1;
    }
    let mut j: usize = 0;
    while j < dynamic_lists.len()
        invariant
            items@.len() == static_order().len() + j,
            j <= dynamic_lists@.len(),
            forall|k: int| 0 <= k < static_order().len() ==> items@[k]@ == static_item(
                static_order()[k],
            ),
            forall|k: int|
                0 <= k < j ==> items@[static_order().len() + k]@ == list_item(
                    dynamic_lists@[k].0@,
                    dynamic_lists@[k].1@,
                ),
        decreases dynamic_lists@.len() - j,
    {
        let id = ListId(dynamic_lists[j].0.0.clone());
        let name = dynamic_lists[j].1.clone();
        items.push(Item { place: Place::List(id, name), separated: true, badge: 0 });
        j += 1;
    }
    proof {
        assert(items_view(items@) =~= built_places(dynamic_lists@));
    }
    items
}

/// In a freshly built row sequence the grouping flag is decided by the
/// place alone: it is set exactly for the `Explore` destination and for
/// every list place.
pub proof fn lemma_built_separated(dynamic: Seq<(ListId, String)>, i: int)
    requires
        0 <= i < built_places(dynamic).len(),
    ensures
        built_places(dynamic)[i].separated == separated_place(built_places(dynamic)[i].place),
{
}

/// The separator-placement rule: a separator is rendered before row `i`
/// exactly when `i` is a live index greater than zero, row `i` carries the
/// grouping flag, and the immediately preceding row does not. The first row
/// never shows a separator, and consecutive flagged rows do not re-trigger
/// one.
pub open spec fn separator_before_spec(items: Seq<ItemV>, i: int) -> bool {
    0 < i < items.len() && items[i].separated && !items[i - 1].separated
}

/// The first row never shows a separator, whatever the list holds: there
/// is no boundary before it, even when it carries the grouping flag.
pub proof fn lemma_no_separator_before_first(items: Seq<ItemV>)
    ensures
        !separator_before_spec(items, 0),
{
}

/// Before every later live row, a separator appears exactly when the row
/// carries the grouping flag and its immediate predecessor does not; in
/// particular, consecutive flagged rows do not each re-trigger one.
pub proof fn lemma_separator_rule(items: Seq<ItemV>, i: int)
    requires
        0 < i < items.len(),
    ensures
        separator_before_spec(items, i) == (items[i].separated && !items[i - 1].separated),
{
}

/// Whether a separator is rendered before the row at `index`.
pub fn separator_before(items: &Vec<Item>, index: usize) -> (r: bool)
    ensures
        r == separator_before_spec(items_view(items@), index as int),
{
    index > 0 && index < items.len() && items[index].separated && !items[index - 1].separated
}

/// The error reported when a row index does not correspond to a live item.
#[derive(Debug, Clone, Copy, PartialEq, Eq, Structural)]
pub enum SidebarError {
    IndexOutOfRange,
}

impl SidebarError {
    /// A human-readable description of the error.
    pub fn describe(&self) -> (r: &'static str)
        ensures
            r@ == "index out of range"@,
    {
        "index out of range"
    }
}

/// A typed output event handed to the parent application. Each user gesture
/// maps to exactly one such event.
#[derive(Debug, Clone)]
pub enum SidebarOutput {
    /// The user activated a row: navigate to its place.
    PlaceChanged(Place),
    /// The user asked to add an account.
    AddAccount,
    /// The user switched to the account with the carried identifier.
    SwitchAccount(String),
    /// The user activated an overflow-menu entry bound to a registry action.
    MenuItemClicked(AppAction),
}

/// Mathematical model of a `SidebarOutput`.
pub enum SidebarOutputV {
    PlaceChanged(PlaceV),
    AddAccount,
    SwitchAccount(Seq<char>),
    MenuItemClicked(AppAction),
}

impl View for SidebarOutput {
    type V = SidebarOutputV;

    open spec fn view(&self) -> SidebarOutputV {
        match self {
            SidebarOutput::PlaceChanged(place) => SidebarOutputV::PlaceChanged(place@),
            SidebarOutput::AddAccount => SidebarOutputV::AddAccount,
            SidebarOutput::SwitchAccount(id) => SidebarOutputV::SwitchAccount(id@),
            SidebarOutput::MenuItemClicked(action) => SidebarOutputV::MenuItemClicked(*action),
        }
    }
}

/// Mathematical model of the sidebar: the current place and the row
/// sequence.
pub struct SidebarV {
    pub curr_place: PlaceV,
    pub places: Seq<ItemV>,
}

/// The sidebar: the single owning controller of the ordered row sequence.
///
/// All reads and mutations go through its methods, invoked from the one
/// event-dispatch point; rendering layers communicate by calling the
/// gesture methods and consuming the returned output events.
#[derive(Debug)]
pub struct Sidebar {
    curr_place: Place,
    places: Vec<Item>,
}

impl View for Sidebar {
    type V = SidebarV;

    closed spec fn view(&self) -> SidebarV {
        SidebarV { curr_place: self.curr_place@, places: items_view(self.places@) }
    }
}

impl Sidebar {
    /// A sidebar initialized on the given built-in destination, populated
    /// with the built-in rows and the given dynamic lists.
    pub fn new(init: StaticPlace, dynamic_lists: &Vec<(ListId, String)>) -> (r: Sidebar)
        ensures
            r@.curr_place == PlaceV::Static(init),
            r@.places == built_places(dynamic_lists@),
    {
        Sidebar { curr_place: Place::Static(init), places: build_places(dynamic_lists) }
    }

    /// The number of rows.
    pub fn len(&self) -> (r: usize)
        ensures
            r == self@.places.len(),
    {
        self.places.len()
    }

    /// The place the sidebar was initialized on (or last navigated to).
    pub fn current_place(&self) -> (r: &Place)
        ensures
            r@ == self@.curr_place,
    {
        &self.curr_place
    }

    /// Records a change of the current place.
    pub fn set_current_place(&mut self, place: Place)
        ensures
            final(self)@.curr_place == place@,
            final(self)@.places == old(self)@.places,
    {
        self.curr_place = place;
    }

    /// The row at `index`, or a reported error when the index does not
    /// correspond to a live item.
    pub fn get(&self, index: usize) -> (r: Result<&Item, SidebarError>)
        ensures
            index < self@.places.len() <==> (r matches Ok(item) && item@ == self@.places[index as int]),
            index >= self@.places.len() <==> r == Err::<&Item, SidebarError>(
                SidebarError::IndexOutOfRange,
            ),
    {
        if index < self.places.len() {
            Ok(&self.places[index])
        } else {
            Err(SidebarError::IndexOutOfRange)
        }
    }

    /// Whether a separator is rendered before the row at `index`.
    pub fn separator_before(&self, index: usize) -> (r: bool)
        ensures
            r == separator_before_spec(self@.places, index as int),
    {
        separator_before(&self.places, index)
    }

    /// Appends a row at the end; all existing indices are unaffected.
    pub fn append(&mut self, item: Item)
        ensures
            final(self)@.places == old(self)@.places.push(item@),
            final(self)@.curr_place == old(self)@.curr_place,
    {
        self.places.push(item);
        proof {
            assert(final(self)@.places =~= old(self)@.places.push(item@));
        }
    }

    /// Inserts a row at `index`, shifting the rows from `index` on; rows
    /// before `index` are unaffected. Fails when `index` is past the end,
    /// leaving the sidebar unchanged.
    pub fn insert_at(&mut self, index: usize, item: Item) -> (r: Result<(), SidebarError>)
        ensures
            index <= old(self)@.places.len() <==> r is Ok,
            r is Ok ==> final(self)@.places == old(self)@.places.insert(index as int, item@),
            r is Err ==> final(self)@ == old(self)@ && r == Err::<(), SidebarError>(
                SidebarError::IndexOutOfRange,
            ),
            final(self)@.curr_place == old(self)@.curr_place,
    {
        if index <= self.places.len() {
            self.places.insert(index, item);
            proof {
                assert(final(self)@.places =~= old(self)@.places.insert(index as int, item@));
            }
            Ok(())
        } else {
            Err(SidebarError::IndexOutOfRange)
        }
    }

    /// Removes and returns the row at `index`, shifting the rows after it;
    /// rows before `index` are unaffected. Fails when `index` is not a live
    /// index, leaving the sidebar unchanged.
    pub fn remove_at(&mut self, index: usize) -> (r: Result<Item, SidebarError>)
        ensures
            index < old(self)@.places.len() <==> (r matches Ok(item) && item@ == old(
                self,
            )@.places[index as int]),
            r is Ok ==> final(self)@.places == old(self)@.places.remove(index as int),
            r is Err ==> final(self)@ == old(self)@ && r == Err::<Item, SidebarError>(
                SidebarError::IndexOutOfRange,
            ),
            final(self)@.curr_place == old(self)@.curr_place,
    {
        if index < self.places.len() {
            let item = self.places.remove(index);
            proof {
                assert(final(self)@.places =~= old(self)@.places.remove(index as int));
            }
            Ok(item)
        } else {
            Err(SidebarError::IndexOutOfRange)
        }
    }

    /// Moves the row at `from` so that it ends up at index `to`, keeping
    /// the relative order of all other rows. Fails unless both indices are
    /// live, leaving the sidebar unchanged.
    pub fn move_item(&mut self, from: usize, to: usize) -> (r: Result<(), SidebarError>)
        ensures
            (from < old(self)@.places.len() && to < old(self)@.places.len()) <==> r is Ok,
            r is Ok ==> final(self)@.places == old(self)@.places.remove(from as int).insert(
                to as int,
                old(self)@.places[from as int],
            ),
            r is Err ==> final(self)@ == old(self)@ && r == Err::<(), SidebarError>(
                SidebarError::IndexOutOfRange,
            ),
            final(self)@.curr_place == old(self)@.curr_place,
    {
        if from < self.places.len() && to < self.places.len() {
            let item = self.places.remove(from);
            self.places.insert(to, item);
            proof {
                assert(final(self)@.places =~= old(self)@.places.remove(from as int).insert(
                    to as int,
                    old(self)@.places[from as int],
                ));
            }
            Ok(())
        } else {
            Err(SidebarError::IndexOutOfRange)
        }
    }

    /// Sets the badge count of the row at `index` in place, without
    /// reordering; every other row is unaffected. Fails when `index` is not
    /// a live index, leaving the sidebar unchanged.
    pub fn set_badge(&mut self, index: usize, count: u64) -> (r: Result<(), SidebarError>)
        ensures
            index < old(self)@.places.len() <==> r is Ok,
            r is Ok ==> final(self)@.places == old(self)@.places.update(
                index as int,
                ItemV {
                    place: old(self)@.places[index as int].place,
                    separated: old(self)@.places[index as int].separated,
                    badge: count,
                },
            ),
            r is Err ==> final(self)@ == old(self)@ && r == Err::<(), SidebarError>(
                SidebarError::IndexOutOfRange,
            ),
            final(self)@.curr_place == old(self)@.curr_place,
    {
        if index < self.places.len() {
            let old_item = self.places.remove(index);
            let updated = Item {
                place: old_item.place,
                separated: old_item.separated,
                badge: count,
            };
            self.places.insert(index, updated);
            proof {
                assert(final(self)@.places =~= old(self)@.places.update(
                    index as int,
                    ItemV {
                        place: old(self)@.places[index as int].place,
                        separated: old(self)@.places[index as int].separated,
                        badge: count,
                    },
                ));
            }
            Ok(())
        } else {
            Err(SidebarError::IndexOutOfRange)
        }
    }

    /// Rebuilds the whole row sequence from the given dynamic lists, as at
    /// initialization; the current place is kept.
    pub fn rebuild(&mut self, dynamic_lists: &Vec<(ListId, String)>)
        ensures
            final(self)@.places == built_places(dynamic_lists@),
            final(self)@.curr_place == old(self)@.curr_place,
    {
        self.places = build_places(dynamic_lists);
    }

    /// Routes a row activation: emits exactly one `PlaceChanged` event
    /// carrying the place of the activated row, and nothing else. An index
    /// with no corresponding row is a reported integration error, and no
    /// event is emitted for it.
    pub fn on_row_activated(&self, index: usize) -> (r: Result<SidebarOutput, SidebarError>)
        ensures
            index < self@.places.len() <==> (r matches Ok(out) && out@
                == SidebarOutputV::PlaceChanged(self@.places[index as int].place)),
            index >= self@.places.len() <==> r == Err::<SidebarOutput, SidebarError>(
                SidebarError::IndexOutOfRange,
            ),
    {
        if index < self.places.len() {
            Ok(SidebarOutput::PlaceChanged(self.places[index].place.duplicate()))
        } else {
            Err(SidebarError::IndexOutOfRange)
        }
    }
}

/// Routes an overflow-menu activation: an entry bound to a registry action
/// emits exactly one `MenuItemClicked` event carrying that action; the one
/// entry outside the registry (the window's shortcuts overlay) emits no
/// application event.
pub fn on_menu_activated(entry: SidebarMenuItem) -> (r: Option<SidebarOutput>)
    ensures
        match menu_app_action(entry) {
            Some(action) => (r matches Some(out) && out@ == SidebarOutputV::MenuItemClicked(
                action,
            )),
            None => r is None,
        },
{
    match entry.app_action() {
        Some(action) => Some(SidebarOutput::MenuItemClicked(action)),
        None => None,
    }
}

/// Routes an add-account request: exactly one `AddAccount` event.
pub fn on_add_account() -> (r: SidebarOutput)
    ensures
        r@ == SidebarOutputV::AddAccount,
{
    SidebarOutput::AddAccount
}

/// Routes an account-switcher choice: exactly one `SwitchAccount` event
/// carrying the chosen account identifier.
pub fn on_switch_account(account_id: String) -> (r: SidebarOutput)
    ensures
        r@ == SidebarOutputV::SwitchAccount(account_id@),
{
    SidebarOutput::SwitchAccount(account_id)
}

} // verus!
