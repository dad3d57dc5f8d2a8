use lishuuro::watchers::{SendTo, Watchers};

#[test]
fn first_subscription_is_reported_once() {
    let mut w = Watchers::new();
    assert!(w.add_watcher(String::from("alice"), 1));
    assert!(!w.add_watcher(String::from("alice"), 2), "a second connection is not a first");
    assert!(w.add_watcher(String::from("bob"), 3));
    assert_eq!(w.player_count(), 2);
}

#[test]
fn duplicate_sink_is_kept_once() {
    let mut w = Watchers::new();
    let _ = w.add_watcher(String::from("alice"), 1);
    let _ = w.add_watcher(String::from("alice"), 1);
    assert_eq!(w.recipients(&SendTo::Everyone), vec![1]);
}

#[test]
fn everyone_reaches_every_sink_in_entry_order() {
    let mut w = Watchers::new();
    let _ = w.add_watcher(String::from("alice"), 1);
    let _ = w.add_watcher(String::from("bob"), 2);
    let _ = w.add_watcher(String::from("alice"), 3);
    assert_eq!(w.recipients(&SendTo::Everyone), vec![1, 3, 2]);
}

#[test]
fn targeted_send_reaches_only_the_named_player() {
    let mut w = Watchers::new();
    let _ = w.add_watcher(String::from("alice"), 1);
    let _ = w.add_watcher(String::from("bob"), 2);
    let _ = w.add_watcher(String::from("alice"), 3);
    let only_alice = w.recipients(&SendTo::Players {
        list: vec![String::from("alice")],
        to_others: false,
    });
    assert_eq!(only_alice, vec![1, 3]);
    let nobody = w.recipients(&SendTo::Players {
        list: vec![String::from("carol")],
        to_others: false,
    });
    assert!(nobody.is_empty());
}

#[test]
fn to_others_reaches_the_rest_as_well() {
    let mut w = Watchers::new();
    let _ = w.add_watcher(String::from("alice"), 1);
    let _ = w.add_watcher(String::from("bob"), 2);
    let _ = w.add_watcher(String::from("alice"), 3);
    // the named player's sinks first, then every unnamed entry's
    let both = w.recipients(&SendTo::Players {
        list: vec![String::from("alice")],
        to_others: true,
    });
    assert_eq!(both, vec![1, 3, 2]);
}

#[test]
fn several_named_players_are_served_in_list_order() {
    let mut w = Watchers::new();
    let _ = w.add_watcher(String::from("alice"), 1);
    let _ = w.add_watcher(String::from("bob"), 2);
    let _ = w.add_watcher(String::from("alice"), 3);
    let picked = w.recipients(&SendTo::Players {
        list: vec![String::from("bob"), String::from("alice")],
        to_others: false,
    });
    assert_eq!(picked, vec![2, 1, 3]);
}

#[test]
fn removed_player_gets_nothing_any_more() {
    let mut w = Watchers::new();
    let _ = w.add_watcher(String::from("alice"), 1);
    let _ = w.add_watcher(String::from("bob"), 2);
    let dropped = w.remove_watcher(&String::from("alice"));
    assert_eq!(dropped, Some(vec![1]));
    assert_eq!(w.recipients(&SendTo::Everyone), vec![2]);
    assert!(w.remove_watcher(&String::from("alice")).is_none());
}
