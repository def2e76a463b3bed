use sniffer::dump::{capture_step, find_interface, CaptureAction, CaptureEvent, PacketStore};
use sniffer::ui::{List, ListItem};

fn frame_with_ethertype(ethertype: u16) -> Vec<u8> {
    let mut frame: Vec<u8> = vec![0xff; 12];
    frame.push((ethertype >> 8) as u8);
    frame.push((ethertype & 0xff) as u8);
    frame
}

#[test]
fn store_assigns_ids_in_capture_order() {
    let mut store = PacketStore::new();
    let frames: Vec<Vec<u8>> = vec![
        frame_with_ethertype(0x88CC),
        vec![1, 2, 3],
        frame_with_ethertype(0x0800),
    ];
    store.append_frames(&frames);
    assert_eq!(store.len(), 3);
    let records = store.new_since(0);
    assert_eq!(records.len(), 3);
    for (i, r) in records.iter().enumerate() {
        assert_eq!(r.get_id(), i);
    }
}

#[test]
fn new_since_returns_empty_with_no_intervening_appends() {
    let mut store = PacketStore::new();
    store.append_frame(&[0u8; 20]);
    store.append_frame(&[1u8; 20]);
    let seen = store.new_since(0).len();
    assert_eq!(seen, 2);
    assert!(store.new_since(seen).is_empty());
}

#[test]
fn new_since_returns_exactly_the_appended_records() {
    let mut store = PacketStore::new();
    store.append_frame(&[0u8; 5]);
    let seen: usize = store.len();
    let frames: Vec<Vec<u8>> = vec![vec![7u8; 30], vec![9u8; 30], vec![11u8; 30]];
    store.append_frames(&frames);
    let fresh = store.new_since(seen);
    assert_eq!(fresh.len(), 3);
    assert_eq!(fresh[0].get_id(), 1);
    assert_eq!(fresh[1].get_id(), 2);
    assert_eq!(fresh[2].get_id(), 3);
}

#[test]
fn capture_step_forwards_frames_unmodified() {
    let frame: Vec<u8> = vec![1, 2, 3, 4];
    match capture_step(CaptureEvent::Frame(frame.clone())) {
        CaptureAction::Forward(f) => assert_eq!(f, frame),
        _ => panic!("a captured frame must be forwarded"),
    }
}

#[test]
fn capture_step_skips_read_errors_and_stops_on_close() {
    assert!(matches!(capture_step(CaptureEvent::ReadError), CaptureAction::Skip));
    assert!(matches!(capture_step(CaptureEvent::QueueClosed), CaptureAction::Stop));
}

#[test]
fn find_interface_returns_first_match() {
    let names: Vec<String> = vec!["lo".to_string(), "eth0".to_string(), "wlan0".to_string()];
    assert_eq!(find_interface(&names, &"wlan0".to_string()), Some(2));
    assert_eq!(find_interface(&names, &"lo".to_string()), Some(0));
    assert_eq!(find_interface(&names, &"eth9".to_string()), None);
}

fn row(text: &str) -> ListItem {
    ListItem { elements: vec![text.to_string()] }
}

#[test]
fn list_selection_moves_and_clamps() {
    let mut list = List::new(4, 3);
    assert_eq!(list.selected(), 0);
    list.select_next();
    assert_eq!(list.selected(), 0);
    for i in 0..5usize {
        list.add_new(row(&format!("row{}", i)));
    }
    list.select_next();
    assert_eq!(list.selected(), 1);
    list.select_prev();
    assert_eq!(list.selected(), 0);
    list.select_prev();
    assert_eq!(list.selected(), 0);
}

#[test]
fn list_window_slides_with_selection() {
    let mut list = List::new(1, 2);
    for i in 0..4usize {
        list.add_new(row(&format!("row{}", i)));
    }
    assert_eq!(list.offset(), 0);
    list.select_next();
    assert_eq!((list.selected(), list.offset()), (1, 0));
    list.select_next();
    assert_eq!((list.selected(), list.offset()), (2, 1));
    list.select_next();
    assert_eq!((list.selected(), list.offset()), (3, 2));
    list.select_next();
    assert_eq!((list.selected(), list.offset()), (3, 2));
    list.select_prev();
    list.select_prev();
    assert_eq!((list.selected(), list.offset()), (1, 1));
}

#[test]
fn list_select_end_and_start_jump() {
    let mut list = List::new(1, 3);
    for i in 0..7usize {
        list.add_new(row(&format!("row{}", i)));
    }
    list.select_end();
    assert_eq!((list.selected(), list.offset()), (6, 4));
    list.select_start();
    assert_eq!((list.selected(), list.offset()), (0, 0));
    let mut short = List::new(1, 10);
    short.add_new(row("only"));
    short.select_end();
    assert_eq!((short.selected(), short.offset()), (0, 0));
}

#[test]
fn list_resize_clamps_selection_into_window() {
    let mut list = List::new(1, 5);
    for i in 0..5usize {
        list.add_new(row(&format!("row{}", i)));
    }
    list.select_end();
    assert_eq!((list.selected(), list.offset()), (4, 0));
    list.resize(2);
    assert_eq!((list.selected(), list.offset()), (1, 0));
    assert_eq!(list.height(), 2);
}

#[test]
fn list_items_are_kept_in_order() {
    let mut list = List::new(1, 3);
    list.add_new(row("a"));
    list.add_new(row("b"));
    assert_eq!(list.item_count(), 2);
    assert_eq!(list.item(0).elements[0], "a");
    assert_eq!(list.item(1).elements[0], "b");
    assert_eq!(list.columns(), 1);
}
