use std::cell::Cell;
use std::rc::Rc;
use systray::{Application, BackendRequest, Dispatch, MenuData, SystrayError, SystrayEvent};

struct Callback(Box<dyn Fn(&mut Application<Callback>)>);
type Tray = Application<Callback>;

fn callback(f: impl Fn(&mut Tray) + 'static) -> Callback {
    Callback(Box::new(f))
}

fn counting(count: &Rc<Cell<u32>>) -> Callback {
    let count = Rc::clone(count);
    callback(move |_| count.set(count.get() + 1))
}

fn fresh() -> Tray {
    match Application::new(Ok(())) {
        Ok(app) => app,
        Err(e) => panic!("setup failed: {}", e.message()),
    }
}

/// Runs the dispatch loop over `messages`, as the owner of the event bridge
/// does, and returns how many messages it took before the loop stopped.
fn run(app: &mut Tray, messages: Vec<Option<SystrayEvent>>) -> usize {
    let mut taken = 0;
    for msg in messages {
        taken += 1;
        match app.wait_for_message(msg) {
            Dispatch::Stop => return taken,
            Dispatch::Ignored => {}
            Dispatch::Invoke(f) => {
                (f.0)(app);
                let event = msg.unwrap();
                if !app.restore_callback(event, f) {
                    return taken;
                }
            }
        }
    }
    taken
}

fn event(menu_id: u64, item_id: u32) -> Option<SystrayEvent> {
    Some(SystrayEvent { menu_id, item_id })
}

#[test]
fn new_controller_has_an_empty_root_menu() {
    let app = fresh();
    assert!(app.is_running());
    assert!(app.has_menu(0));
    assert!(!app.has_menu(1));
    assert_eq!(app.next_index(), 0);
    assert_eq!(app.menu_size(0), Some(0));
    assert_eq!(app.menu_size(1), None);
}

#[test]
fn failed_startup_fails_construction_with_the_same_error() {
    let r: Result<Tray, SystrayError> =
        Application::new(Err(SystrayError::OsError("Error registering window".to_string())));
    match r {
        Ok(_) => panic!("construction must fail"),
        Err(e) => assert_eq!(e, SystrayError::OsError("Error registering window".to_string())),
    }
    let r: Result<Tray, SystrayError> = Application::new(Err(SystrayError::NotImplementedError));
    assert!(matches!(r, Err(SystrayError::NotImplementedError)));
}

#[test]
fn new_menu_data_is_empty() {
    let menu: MenuData<u8> = MenuData::new();
    assert_eq!(menu.size(), 0);
    assert!(!menu.has_callback(0));
}

#[test]
fn menu_data_appends_and_binds() {
    let mut menu: MenuData<u8> = MenuData::new();
    menu.push_item(5, 50);
    menu.push_slot();
    assert_eq!(menu.size(), 2);
    assert!(menu.has_callback(5));
    assert_eq!(menu.take_callback(5), Some(50));
    assert_eq!(menu.take_callback(5), None);
    assert_eq!(menu.size(), 2);
    menu.put_callback(5, 51);
    assert_eq!(menu.size(), 2);
    assert_eq!(menu.take_callback(5), Some(51));
}

#[test]
fn nested_menu_dispatches_to_the_clicked_entry() {
    let print = Rc::new(Cell::new(0));
    let inner = Rc::new(Cell::new(0));
    let mut app = fresh();

    let print_index = app.add_menu_item(0, Ok(()), counting(&print)).unwrap();
    let sub = app.add_menu_group(0, Ok(100)).unwrap();
    assert_eq!(sub, 100);
    let inner_index = app.add_menu_item(100, Ok(()), counting(&inner)).unwrap();
    assert_eq!(print_index, 0);
    assert_eq!(inner_index, 2);

    assert_eq!(run(&mut app, vec![event(0, print_index)]), 1);
    assert_eq!((print.get(), inner.get()), (1, 0));

    assert_eq!(run(&mut app, vec![event(100, inner_index)]), 1);
    assert_eq!((print.get(), inner.get()), (1, 1));

    assert_eq!(run(&mut app, vec![event(999, 1)]), 1);
    assert_eq!((print.get(), inner.get()), (1, 1));
    assert!(app.is_running());

    // The loop goes on after the unknown event, and the callbacks are bound still.
    assert_eq!(run(&mut app, vec![event(999, 1), event(0, print_index), event(0, print_index)]), 3);
    assert_eq!((print.get(), inner.get()), (3, 1));
}

#[test]
fn quitting_callback_ends_the_loop_and_is_not_restored() {
    let other = Rc::new(Cell::new(0));
    let mut app = fresh();
    for _ in 0..3 {
        app.add_menu_item(0, Ok(()), counting(&other)).unwrap();
    }
    let quit_index = app
        .add_menu_item(0, Ok(()), callback(|tray: &mut Tray| {
            assert_eq!(tray.quit(), BackendRequest::Quit);
        }))
        .unwrap();
    assert_eq!(quit_index, 3);

    let taken = run(&mut app, vec![event(0, 3), event(0, 0), event(0, 1)]);
    assert_eq!(taken, 1);
    assert!(!app.is_running());
    assert_eq!(other.get(), 0);
    assert!(!app.has_callback(SystrayEvent { menu_id: 0, item_id: 3 }));
    assert!(app.has_callback(SystrayEvent { menu_id: 0, item_id: 0 }));
}

#[test]
fn quit_stops_every_later_turn() {
    let count = Rc::new(Cell::new(0));
    let mut app = fresh();
    app.add_menu_item(0, Ok(()), counting(&count)).unwrap();
    assert_eq!(app.quit(), BackendRequest::Quit);
    assert!(!app.is_running());
    assert!(matches!(app.wait_for_message(event(0, 0)), Dispatch::Stop));
    assert!(matches!(app.wait_for_message(None), Dispatch::Stop));
    assert!(matches!(app.wait_for_message(event(7, 7)), Dispatch::Stop));
    assert_eq!(count.get(), 0);
    assert!(app.has_callback(SystrayEvent { menu_id: 0, item_id: 0 }));
    assert_eq!(app.menu_size(0), Some(1));
    assert_eq!(app.next_index(), 1);
}

#[test]
fn closed_bridge_stops_the_loop() {
    let count = Rc::new(Cell::new(0));
    let mut app = fresh();
    app.add_menu_item(0, Ok(()), counting(&count)).unwrap();
    let taken = run(&mut app, vec![event(0, 0), None, event(0, 0)]);
    assert_eq!(taken, 2);
    assert_eq!(count.get(), 1);
    assert!(!app.is_running());
}

#[test]
fn unknown_events_change_nothing() {
    let count = Rc::new(Cell::new(0));
    let mut app = fresh();
    app.add_menu_item(0, Ok(()), counting(&count)).unwrap();
    app.add_menu_separator(0, Ok(())).unwrap();
    assert!(matches!(app.wait_for_message(event(1, 0)), Dispatch::Ignored));
    assert!(matches!(app.wait_for_message(event(0, 1)), Dispatch::Ignored));
    assert!(matches!(app.wait_for_message(event(u64::MAX, u32::MAX)), Dispatch::Ignored));
    assert_eq!(count.get(), 0);
    assert!(app.is_running());
    assert_eq!(app.next_index(), 1);
    assert_eq!(app.menu_size(0), Some(2));
    assert!(app.has_callback(SystrayEvent { menu_id: 0, item_id: 0 }));
}

#[test]
fn callback_is_out_of_the_tree_while_it_runs() {
    let mut app: Application<u8> = Application::new(Ok(())).unwrap();
    app.add_menu_item(0, Ok(()), 11).unwrap();
    let e = SystrayEvent { menu_id: 0, item_id: 0 };
    assert!(matches!(app.wait_for_message(Some(e)), Dispatch::Invoke(11)));
    assert!(!app.has_callback(e));
    assert!(matches!(app.wait_for_message(Some(e)), Dispatch::Ignored));
    assert!(app.restore_callback(e, 11));
    assert!(app.has_callback(e));
    assert_eq!(app.menu_size(0), Some(1));
    assert!(matches!(app.wait_for_message(Some(e)), Dispatch::Invoke(11)));
}

#[test]
fn restore_into_an_unknown_submenu_drops_the_callback() {
    let mut app: Application<u8> = Application::new(Ok(())).unwrap();
    let e = SystrayEvent { menu_id: 42, item_id: 0 };
    assert!(app.restore_callback(e, 1));
    assert!(!app.has_menu(42));
    assert!(!app.has_callback(e));
}

#[test]
fn callback_may_extend_the_menu_while_it_runs() {
    let added = Rc::new(Cell::new(0));
    let mut app = fresh();
    let inner = Rc::clone(&added);
    app.add_menu_item(0, Ok(()), callback(move |tray: &mut Tray| {
        let hits = Rc::clone(&inner);
        let index = tray
            .add_menu_item(0, Ok(()), callback(move |_: &mut Tray| hits.set(hits.get() + 1)))
            .unwrap();
        assert_eq!(index, 1);
        tray.add_menu_separator(0, Ok(())).unwrap();
    }))
    .unwrap();
    assert_eq!(run(&mut app, vec![event(0, 0), event(0, 1)]), 2);
    assert_eq!(added.get(), 1);
    assert_eq!(app.menu_size(0), Some(3));
    assert_eq!(app.next_index(), 2);
    assert!(app.has_callback(SystrayEvent { menu_id: 0, item_id: 0 }));
    assert!(app.has_callback(SystrayEvent { menu_id: 0, item_id: 1 }));
}

#[test]
fn unknown_submenu_is_a_silent_no_op() {
    let mut app: Application<u8> = Application::new(Ok(())).unwrap();
    assert_eq!(app.request_menu_item(9, "Lost", None), None);
    assert_eq!(app.request_menu_group(9, "Lost", None), None);
    assert_eq!(app.request_menu_separator(9), None);
    assert_eq!(app.add_menu_item(9, Ok(()), 1), Ok(0));
    assert_eq!(app.add_menu_group(9, Ok(77)), Ok(0));
    assert_eq!(app.add_menu_separator(9, Ok(())), Ok(0));
    assert_eq!(app.add_menu_item(9, Err(SystrayError::UnknownError), 1), Ok(0));
    assert_eq!(app.next_index(), 0);
    assert_eq!(app.menu_size(0), Some(0));
    assert!(!app.has_menu(9));
    assert!(!app.has_menu(77));
}

#[test]
fn platform_failure_records_nothing() {
    let mut app: Application<u8> = Application::new(Ok(())).unwrap();
    let os = SystrayError::OsError("Error inserting menu item: 1401".to_string());
    assert_eq!(app.add_menu_item(0, Err(os.clone()), 1), Err(os.clone()));
    assert_eq!(app.add_menu_group(0, Err(SystrayError::NotImplementedError)),
        Err(SystrayError::NotImplementedError));
    assert_eq!(app.add_menu_separator(0, Err(SystrayError::UnknownError)),
        Err(SystrayError::UnknownError));
    assert_eq!(app.next_index(), 0);
    assert_eq!(app.menu_size(0), Some(0));
    assert!(!app.has_callback(SystrayEvent { menu_id: 0, item_id: 0 }));
}

#[test]
fn issued_indexes_are_unique_across_the_tree() {
    let mut app: Application<u8> = Application::new(Ok(())).unwrap();
    let mut issued = Vec::new();
    issued.push(app.add_menu_item(0, Ok(()), 0).unwrap());
    issued.push(app.next_index());
    assert_eq!(app.add_menu_group(0, Ok(10)), Ok(10));
    app.add_menu_separator(0, Ok(())).unwrap();
    issued.push(app.add_menu_item(10, Ok(()), 0).unwrap());
    issued.push(app.next_index());
    assert_eq!(app.add_menu_group(10, Ok(20)), Ok(20));
    assert!(app.add_menu_item(20, Err(SystrayError::UnknownError), 0).is_err());
    issued.push(app.add_menu_item(20, Ok(()), 0).unwrap());
    issued.push(app.add_menu_item(0, Ok(()), 0).unwrap());
    assert_eq!(issued, vec![0, 1, 2, 3, 4, 5]);
    for index in [0u32, 2, 4, 5] {
        let holders: Vec<u64> = [0u64, 10, 20]
            .into_iter()
            .filter(|m| app.has_callback(SystrayEvent { menu_id: *m, item_id: index }))
            .collect();
        assert_eq!(holders.len(), 1);
    }
    assert_eq!(app.next_index(), 6);
}

#[test]
fn separator_takes_a_position_and_no_index() {
    let mut app: Application<u8> = Application::new(Ok(())).unwrap();
    assert_eq!(app.add_menu_separator(0, Ok(())), Ok(0));
    assert_eq!(app.add_menu_separator(0, Ok(())), Ok(1));
    assert_eq!(app.next_index(), 0);
    assert_eq!(app.menu_size(0), Some(2));
    assert_eq!(app.add_menu_item(0, Ok(()), 1), Ok(0));
    assert_eq!(app.menu_size(0), Some(3));
    assert_eq!(app.add_menu_separator(0, Ok(())), Ok(3));
}

#[test]
fn requests_carry_index_position_and_texts() {
    let mut app: Application<u8> = Application::new(Ok(())).unwrap();
    app.add_menu_separator(0, Ok(())).unwrap();
    app.add_menu_group(0, Ok(100)).unwrap();
    app.add_menu_item(100, Ok(()), 1).unwrap();
    assert_eq!(
        app.request_menu_item(0, "Print", None),
        Some(BackendRequest::AddItem {
            menu_id: 0,
            item_index: 2,
            position: 2,
            label: "Print".to_string(),
            icon: None,
        })
    );
    assert_eq!(
        app.request_menu_item(100, "Inner", Some("inner.ico")),
        Some(BackendRequest::AddItem {
            menu_id: 100,
            item_index: 2,
            position: 1,
            label: "Inner".to_string(),
            icon: Some("inner.ico".to_string()),
        })
    );
    assert_eq!(
        app.request_menu_group(100, "Sub", Some("sub.ico")),
        Some(BackendRequest::AddGroup {
            menu_id: 100,
            item_index: 2,
            position: 1,
            label: "Sub".to_string(),
            icon: Some("sub.ico".to_string()),
        })
    );
    assert_eq!(
        app.request_menu_separator(0),
        Some(BackendRequest::AddSeparator { menu_id: 0, position: 2 })
    );
}

#[test]
fn plain_requests() {
    let mut app: Application<u8> = Application::new(Ok(())).unwrap();
    assert_eq!(
        app.set_tooltip("Whatever"),
        BackendRequest::SetTooltip { text: "Whatever".to_string() }
    );
    assert_eq!(
        app.set_icon_from_file("resources\\rust.ico"),
        BackendRequest::SetIconFromFile { path: "resources\\rust.ico".to_string() }
    );
    assert_eq!(
        app.set_icon_from_resource("icon"),
        BackendRequest::SetIconFromResource { name: "icon".to_string() }
    );
    assert_eq!(
        app.set_icon_from_buffer(&[0, 0, 1, 0], 32, 16),
        BackendRequest::SetIconFromBuffer { bytes: vec![0, 0, 1, 0], width: 32, height: 16 }
    );
    assert_eq!(app.shutdown(), BackendRequest::Shutdown);
    assert_eq!(app.shutdown(), BackendRequest::Shutdown);
    assert!(app.is_running());
    assert_eq!(app.quit(), BackendRequest::Quit);
}

#[test]
fn group_under_an_identifier_in_use_starts_empty() {
    let mut app: Application<u8> = Application::new(Ok(())).unwrap();
    app.add_menu_group(0, Ok(100)).unwrap();
    app.add_menu_item(100, Ok(()), 5).unwrap();
    assert_eq!(app.menu_size(100), Some(1));
    assert_eq!(app.add_menu_group(0, Ok(100)), Ok(100));
    assert_eq!(app.menu_size(100), Some(0));
    assert!(!app.has_callback(SystrayEvent { menu_id: 100, item_id: 1 }));
    assert_eq!(app.menu_size(0), Some(2));
    assert_eq!(app.next_index(), 3);
}

#[test]
fn group_under_its_own_parent_identifier() {
    let mut app: Application<u8> = Application::new(Ok(())).unwrap();
    app.add_menu_item(0, Ok(()), 5).unwrap();
    assert_eq!(app.add_menu_group(0, Ok(0)), Ok(0));
    assert_eq!(app.menu_size(0), Some(1));
    assert!(!app.has_callback(SystrayEvent { menu_id: 0, item_id: 0 }));
    assert_eq!(app.next_index(), 2);
}

#[test]
fn capacity_checks() {
    let mut app: Application<u8> = Application::new(Ok(())).unwrap();
    assert!(app.has_index_left());
    assert!(app.can_add_entry(0));
    assert!(app.can_add_separator(0));
    assert!(app.can_add_entry(12345));
    assert!(app.can_add_separator(12345));
    app.add_menu_item(0, Ok(()), 1).unwrap();
    assert!(app.can_add_entry(0));
}
