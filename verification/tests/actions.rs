use trombone::actions::AppAction;
use trombone::actions::RegistryError;
use trombone::actions::all_actions;
use trombone::actions::group_ident;
use trombone::actions::validate_registry;
use trombone::dispatch::AppMsg;
use trombone::dispatch::DispatchOutcome;
use trombone::dispatch::dispatch;
use trombone::dispatch::update_outcome;
use trombone::menu::SidebarMenuItem;
use trombone::menu::menu_from_items;
use trombone::menu::menu_sections;
use trombone::sidebar::SidebarOutput;
use trombone::sidebar::on_add_account;
use trombone::sidebar::on_menu_activated;
use trombone::sidebar::on_switch_account;

#[test]
fn qualified_names_are_group_dot_ident() {
    for action in all_actions() {
        let expected = format!("{}.{}", group_ident(), action.ident());
        assert_eq!(action.qualified_ident(), expected);
    }
}

#[test]
fn known_qualified_names_are_stable() {
    assert_eq!(AppAction::NewPost.qualified_ident(), "app.compose");
    assert_eq!(AppAction::Refresh.qualified_ident(), "app.refresh");
    assert_eq!(AppAction::Quit.qualified_ident(), "app.quit");
}

#[test]
fn idents_are_pairwise_unique() {
    let actions = all_actions();
    assert_eq!(actions.len(), 11);
    for (i, a) in actions.iter().enumerate() {
        for (j, b) in actions.iter().enumerate() {
            if i != j {
                assert_ne!(a.ident(), b.ident());
                assert_ne!(a.qualified_ident(), b.qualified_ident());
            }
        }
    }
}

#[test]
fn the_registry_validates_cleanly() {
    assert_eq!(validate_registry(&all_actions()), Ok(()));
}

#[test]
fn a_duplicate_ident_fails_fast() {
    let mut actions = all_actions();
    actions.push(AppAction::Refresh);
    assert_eq!(
        validate_registry(&actions),
        Err(RegistryError::DuplicateIdent(2, 11))
    );
}

#[test]
fn only_quit_has_an_accelerator() {
    for action in all_actions() {
        if action == AppAction::Quit {
            assert_eq!(action.accelerator(), Some("<Ctrl>Q"));
        } else {
            assert_eq!(action.accelerator(), None);
        }
    }
}

#[test]
fn menu_sections_have_the_fixed_layout() {
    let sections = menu_sections();
    assert_eq!(sections.len(), 3);
    assert_eq!(
        sections[0],
        vec![
            SidebarMenuItem::NewPost,
            SidebarMenuItem::OpenProfile,
            SidebarMenuItem::Refresh,
        ]
    );
    assert_eq!(
        sections[1],
        vec![
            SidebarMenuItem::Announcements,
            SidebarMenuItem::FollowRequests,
            SidebarMenuItem::MutesAndBlocks,
            SidebarMenuItem::Drafts,
            SidebarMenuItem::ScheduledPosts,
        ]
    );
    assert_eq!(
        sections[2],
        vec![
            SidebarMenuItem::Preferences,
            SidebarMenuItem::KeyboardShortcuts,
            SidebarMenuItem::About,
            SidebarMenuItem::Quit,
        ]
    );
}

#[test]
fn menu_entries_carry_label_and_qualified_name() {
    let entries = menu_from_items(&vec![
        SidebarMenuItem::NewPost,
        SidebarMenuItem::KeyboardShortcuts,
        SidebarMenuItem::Quit,
    ]);
    assert_eq!(entries.len(), 3);
    assert_eq!(entries[0].label, "New Post");
    assert_eq!(entries[0].action, "app.compose");
    assert_eq!(entries[1].label, "Keyboard Shortcuts");
    assert_eq!(entries[1].action, "win.show-help.overlay");
    assert_eq!(entries[2].label, "Quit");
    assert_eq!(entries[2].action, "app.quit");
}

#[test]
fn menu_activation_emits_one_action_event() {
    match on_menu_activated(SidebarMenuItem::Quit) {
        Some(SidebarOutput::MenuItemClicked(action)) => assert_eq!(action, AppAction::Quit),
        other => panic!("expected MenuItemClicked(Quit), got {other:?}"),
    }
}

#[test]
fn shortcuts_overlay_emits_no_application_event() {
    assert!(on_menu_activated(SidebarMenuItem::KeyboardShortcuts).is_none());
}

#[test]
fn account_gestures_emit_their_events() {
    match on_add_account() {
        SidebarOutput::AddAccount => {}
        other => panic!("expected AddAccount, got {other:?}"),
    }
    match on_switch_account("acct-7".to_string()) {
        SidebarOutput::SwitchAccount(id) => assert_eq!(id, "acct-7"),
        other => panic!("expected SwitchAccount, got {other:?}"),
    }
}

#[test]
fn dispatching_quit_terminates() {
    assert_eq!(dispatch(AppAction::Quit), DispatchOutcome::Terminate);
    assert_eq!(
        update_outcome(&AppMsg::AppAction(AppAction::Quit)),
        DispatchOutcome::Terminate
    );
}

#[test]
fn unwired_messages_are_nonfatal() {
    for action in all_actions() {
        if action != AppAction::Quit {
            assert_eq!(dispatch(action), DispatchOutcome::Unimplemented);
        }
    }
    assert_eq!(
        update_outcome(&AppMsg::Sidebar(on_add_account())),
        DispatchOutcome::Unimplemented
    );
}
