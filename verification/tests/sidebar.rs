use trombone::item::Item;
use trombone::item::badge_label;
use trombone::item::badge_visible;
use trombone::item::dec_string;
use trombone::places::ListId;
use trombone::places::Place;
use trombone::places::StaticPlace;
use trombone::sidebar::Sidebar;
use trombone::sidebar::SidebarError;
use trombone::sidebar::SidebarOutput;
use trombone::sidebar::build_places;
use trombone::sidebar::separator_before;

fn no_lists() -> Vec<(ListId, String)> {
    Vec::new()
}

fn two_lists() -> Vec<(ListId, String)> {
    vec![
        (ListId("id1".to_string()), "A".to_string()),
        (ListId("id2".to_string()), "B".to_string()),
    ]
}

fn row(separated: bool) -> Item {
    Item { place: Place::Static(StaticPlace::Home), separated, badge: 0 }
}

#[test]
fn build_with_no_lists_yields_the_eleven_statics() {
    let items = build_places(&no_lists());
    assert_eq!(items.len(), 11);
    let expected = [
        StaticPlace::Home,
        StaticPlace::Notifications,
        StaticPlace::Conversations,
        StaticPlace::Search,
        StaticPlace::Favourites,
        StaticPlace::Bookmarks,
        StaticPlace::Hashtags,
        StaticPlace::Explore,
        StaticPlace::Local,
        StaticPlace::Federated,
        StaticPlace::Lists,
    ];
    for (item, kind) in items.iter().zip(expected.iter()) {
        assert_eq!(item.place, Place::Static(*kind));
        assert_eq!(item.badge, 0);
        assert_eq!(item.separated, *kind == StaticPlace::Explore);
    }
}

#[test]
fn build_appends_dynamic_lists_in_order() {
    let items = build_places(&two_lists());
    assert_eq!(items.len(), 13);
    assert_eq!(items[11].place, Place::List(ListId("id1".to_string()), "A".to_string()));
    assert_eq!(items[12].place, Place::List(ListId("id2".to_string()), "B".to_string()));
    assert!(items[11].separated);
    assert!(items[12].separated);
    assert_eq!(items[11].badge, 0);
    assert_eq!(items[12].badge, 0);
}

#[test]
fn no_separator_before_the_first_row() {
    let items = vec![row(true), row(true)];
    assert!(!separator_before(&items, 0));
}

#[test]
fn separator_only_after_a_plain_row() {
    let items = vec![row(false), row(true), row(true), row(false)];
    assert!(!separator_before(&items, 0));
    assert!(separator_before(&items, 1));
    assert!(!separator_before(&items, 2));
    assert!(!separator_before(&items, 3));
}

#[test]
fn built_sidebar_separators_sit_at_explore_and_first_list() {
    let sidebar = Sidebar::new(StaticPlace::Home, &two_lists());
    let shown: Vec<usize> = (0..sidebar.len()).filter(|i| sidebar.separator_before(*i)).collect();
    assert_eq!(shown, vec![7, 11]);
}

#[test]
fn badge_zero_is_hidden() {
    let item = Item { place: Place::Static(StaticPlace::Home), separated: false, badge: 0 };
    assert!(!badge_visible(&item));
}

#[test]
fn badge_one_is_visible_with_label_one() {
    let item = Item { place: Place::Static(StaticPlace::Home), separated: false, badge: 1 };
    assert!(badge_visible(&item));
    assert_eq!(badge_label(&item), "1");
}

#[test]
fn badge_forty_two_has_label_forty_two() {
    let item = Item { place: Place::Static(StaticPlace::Home), separated: false, badge: 42 };
    assert!(badge_visible(&item));
    assert_eq!(badge_label(&item), "42");
}

#[test]
fn decimal_labels_have_no_grouping_or_cap() {
    assert_eq!(dec_string(0), "0");
    assert_eq!(dec_string(10), "10");
    assert_eq!(dec_string(100), "100");
    assert_eq!(dec_string(1203), "1203");
    assert_eq!(dec_string(1_000_000), "1000000");
    assert_eq!(dec_string(u64::MAX), "18446744073709551615");
}

#[test]
fn get_returns_the_row_or_reports_out_of_range() {
    let sidebar = Sidebar::new(StaticPlace::Home, &no_lists());
    let item = sidebar.get(7).unwrap();
    assert_eq!(item.place, Place::Static(StaticPlace::Explore));
    let err = sidebar.get(11).unwrap_err();
    assert_eq!(err, SidebarError::IndexOutOfRange);
    assert_eq!(err.describe(), "index out of range");
}

#[test]
fn row_activation_emits_one_place_changed() {
    let sidebar = Sidebar::new(StaticPlace::Home, &two_lists());
    let event = sidebar.on_row_activated(12).unwrap();
    match event {
        SidebarOutput::PlaceChanged(place) => {
            assert_eq!(place, Place::List(ListId("id2".to_string()), "B".to_string()));
        }
        other => panic!("expected PlaceChanged, got {other:?}"),
    }
}

#[test]
fn row_activation_out_of_range_is_an_error() {
    let sidebar = Sidebar::new(StaticPlace::Home, &no_lists());
    assert_eq!(sidebar.on_row_activated(11).unwrap_err(), SidebarError::IndexOutOfRange);
}

#[test]
fn current_place_starts_at_init() {
    let sidebar = Sidebar::new(StaticPlace::Favourites, &no_lists());
    assert_eq!(*sidebar.current_place(), Place::Static(StaticPlace::Favourites));
}

#[test]
fn set_current_place_keeps_the_rows() {
    let mut sidebar = Sidebar::new(StaticPlace::Home, &no_lists());
    sidebar.set_current_place(Place::Static(StaticPlace::Search));
    assert_eq!(*sidebar.current_place(), Place::Static(StaticPlace::Search));
    assert_eq!(sidebar.len(), 11);
}

#[test]
fn append_and_insert_keep_unaffected_indices() {
    let mut sidebar = Sidebar::new(StaticPlace::Home, &no_lists());
    sidebar.append(Item {
        place: Place::List(ListId("x".to_string()), "X".to_string()),
        separated: true,
        badge: 0,
    });
    assert_eq!(sidebar.len(), 12);
    assert_eq!(
        sidebar.get(11).unwrap().place,
        Place::List(ListId("x".to_string()), "X".to_string())
    );
    sidebar
        .insert_at(
            0,
            Item {
                place: Place::List(ListId("y".to_string()), "Y".to_string()),
                separated: false,
                badge: 0,
            },
        )
        .unwrap();
    assert_eq!(sidebar.len(), 13);
    assert_eq!(sidebar.get(1).unwrap().place, Place::Static(StaticPlace::Home));
    assert_eq!(
        sidebar.insert_at(99, row_item()).unwrap_err(),
        SidebarError::IndexOutOfRange
    );
}

fn row_item() -> Item {
    Item { place: Place::Static(StaticPlace::Home), separated: false, badge: 0 }
}

#[test]
fn remove_and_move_preserve_the_rest() {
    let mut sidebar = Sidebar::new(StaticPlace::Home, &no_lists());
    let removed = sidebar.remove_at(0).unwrap();
    assert_eq!(removed.place, Place::Static(StaticPlace::Home));
    assert_eq!(sidebar.len(), 10);
    assert_eq!(sidebar.get(0).unwrap().place, Place::Static(StaticPlace::Notifications));
    sidebar.move_item(9, 0).unwrap();
    assert_eq!(sidebar.get(0).unwrap().place, Place::Static(StaticPlace::Lists));
    assert_eq!(sidebar.get(1).unwrap().place, Place::Static(StaticPlace::Notifications));
    assert_eq!(sidebar.remove_at(10).unwrap_err(), SidebarError::IndexOutOfRange);
    assert_eq!(sidebar.move_item(0, 10).unwrap_err(), SidebarError::IndexOutOfRange);
}

#[test]
fn set_badge_mutates_in_place_without_reordering() {
    let mut sidebar = Sidebar::new(StaticPlace::Home, &no_lists());
    sidebar.set_badge(1, 5).unwrap();
    let item = sidebar.get(1).unwrap();
    assert_eq!(item.place, Place::Static(StaticPlace::Notifications));
    assert_eq!(item.badge, 5);
    assert_eq!(sidebar.len(), 11);
    assert_eq!(sidebar.get(0).unwrap().place, Place::Static(StaticPlace::Home));
    assert_eq!(sidebar.set_badge(11, 1).unwrap_err(), SidebarError::IndexOutOfRange);
}

#[test]
fn rebuild_replaces_the_rows_and_keeps_the_place() {
    let mut sidebar = Sidebar::new(StaticPlace::Search, &no_lists());
    sidebar.set_badge(0, 9).unwrap();
    sidebar.rebuild(&two_lists());
    assert_eq!(sidebar.len(), 13);
    assert_eq!(sidebar.get(0).unwrap().badge, 0);
    assert_eq!(*sidebar.current_place(), Place::Static(StaticPlace::Search));
}
