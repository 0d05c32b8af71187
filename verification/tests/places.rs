use trombone::places::ListId;
use trombone::places::Place;
use trombone::places::StaticPlace;
use trombone::places::static_places;

fn all_kinds() -> Vec<StaticPlace> {
    static_places()
}

#[test]
fn metadata_is_total_and_nonempty() {
    let kinds = all_kinds();
    assert_eq!(kinds.len(), 11);
    for kind in kinds {
        assert!(!kind.icon().is_empty());
        assert!(!kind.title().is_empty());
    }
}

#[test]
fn static_titles_are_the_display_names() {
    let expected = vec![
        "Home",
        "Notifications",
        "Conversations",
        "Search",
        "Favourites",
        "Bookmarks",
        "Hashtags",
        "Explore",
        "Local",
        "Federated",
        "Lists",
    ];
    let kinds = all_kinds();
    assert_eq!(kinds.len(), expected.len());
    for (kind, want) in kinds.iter().zip(expected.iter()) {
        assert_eq!(kind.title(), *want);
    }
}

#[test]
fn home_icon_is_fixed() {
    assert_eq!(StaticPlace::Home.icon(), "user-home-symbolic");
}

#[test]
fn list_place_uses_the_lists_icon() {
    let place = Place::List(ListId("id-1".to_string()), "My list".to_string());
    assert_eq!(place.icon(), StaticPlace::Lists.icon());
}

#[test]
fn list_place_is_titled_by_its_name() {
    let place = Place::List(ListId("id-1".to_string()), "My list".to_string());
    assert_eq!(place.title(), "My list");
}

#[test]
fn static_place_title_matches_wrapped_place() {
    for kind in all_kinds() {
        let place = kind.wrap();
        assert_eq!(place.title(), kind.title());
        assert_eq!(place.icon(), kind.icon());
    }
}

#[test]
fn place_equality_is_structural() {
    let a = Place::List(ListId("id".to_string()), "A".to_string());
    let b = Place::List(ListId("id".to_string()), "A".to_string());
    let c = Place::List(ListId("id".to_string()), "B".to_string());
    let d = Place::List(ListId("other".to_string()), "A".to_string());
    assert_eq!(a, b);
    assert_ne!(a, c);
    assert_ne!(a, d);
    assert_ne!(Place::Static(StaticPlace::Home), a);
}

#[test]
fn duplicate_is_equal() {
    let a = Place::List(ListId("id".to_string()), "A".to_string());
    assert_eq!(a.duplicate(), a);
    let h = Place::Static(StaticPlace::Home);
    assert_eq!(h.duplicate(), h);
}
