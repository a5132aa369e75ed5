use ws_relay::ws::event::{Event, EventMap};

#[test]
fn event_new_keeps_path_and_action() {
    let ev = Event::new("echo", 7u32);
    assert_eq!(ev.path, "echo");
    assert_eq!(ev.action, 7);
}

#[test]
fn lookup_finds_the_action_of_the_path() {
    let map = EventMap::build(vec![
        Event::new("echo", 1u32),
        Event::new("benchmark", 2u32),
    ]);
    assert_eq!(map.lookup("echo"), Some(&1));
    assert_eq!(map.lookup("benchmark"), Some(&2));
}

#[test]
fn lookup_of_an_unknown_path_finds_nothing() {
    let map = EventMap::build(vec![Event::new("echo", 1u32)]);
    assert_eq!(map.lookup("nope"), None);
    assert_eq!(map.lookup(""), None);
    let empty: EventMap<u32> = EventMap::build(Vec::new());
    assert_eq!(empty.lookup("echo"), None);
}

#[test]
fn lookup_matches_the_whole_path_only() {
    let map = EventMap::build(vec![Event::new("echo", 1u32), Event::new("a/b", 2u32)]);
    assert_eq!(map.lookup("ech"), None);
    assert_eq!(map.lookup("echoo"), None);
    assert_eq!(map.lookup("Echo"), None);
    assert_eq!(map.lookup(" echo"), None);
    assert_eq!(map.lookup("a"), None);
    assert_eq!(map.lookup("a/"), None);
    assert_eq!(map.lookup("a/b/"), None);
    assert_eq!(map.lookup("*"), None);
    assert_eq!(map.lookup("a/b"), Some(&2));
}

#[test]
fn the_later_event_of_a_path_counts() {
    let map = EventMap::build(vec![
        Event::new("echo", 1u32),
        Event::new("other", 2u32),
        Event::new("echo", 3u32),
    ]);
    assert_eq!(map.lookup("echo"), Some(&3));
    assert_eq!(map.lookup("other"), Some(&2));
}

#[test]
fn lookup_lends_out_closures() {
    let double: Box<dyn Fn(i32) -> i32> = Box::new(|x| x * 2);
    let negate: Box<dyn Fn(i32) -> i32> = Box::new(|x| -x);
    let map = EventMap::build(vec![Event::new("double", double), Event::new("negate", negate)]);
    assert_eq!((map.lookup("double").unwrap())(21), 42);
    assert_eq!((map.lookup("negate").unwrap())(21), -21);
    assert!(map.lookup("triple").is_none());
}
