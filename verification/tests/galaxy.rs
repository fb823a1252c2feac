use hash_quest::galaxy::{
    autosave_due, autosave_on, delete_request, find_save_slot, galaxy_save_enabled,
    get_galaxy_save_data, info_request, load_request, parse_slot, prefer_galaxy_save,
    route_response, save_list_request, save_list_slots, save_request, save_too_large,
    supports_request, take_response, DeletedRes, GalaxyResponse, GalaxyResponseQueue,
    GalaxySaveList, GalaxySaveSlot, InfoRes, ResponseKind, SaveData, SavedRes,
    GALAXY_LABEL_BASE,
};

fn slot(n: u64, label: Option<&str>, content: Option<&str>) -> GalaxySaveSlot {
    GalaxySaveSlot { slot: n, label: label.map(|s| s.to_string()), content: content.map(|s| s.to_string()) }
}

fn saved(n: u32) -> GalaxyResponse {
    GalaxyResponse::Saved(SavedRes { error: false, message: None, slot: n, echo: None })
}

fn deleted(n: u32) -> GalaxyResponse {
    GalaxyResponse::Deleted(DeletedRes { error: false, message: None, slot: n, echo: None })
}

#[test]
fn save_slot_prefers_autosave_label() {
    let list = vec![slot(0, Some("Mine"), None), slot(4, Some(GALAXY_LABEL_BASE), Some("x"))];
    assert_eq!(find_save_slot(&list), Some(4));
}

#[test]
fn save_slot_is_lowest_free() {
    let list = vec![slot(0, Some("a"), None), slot(1, None, None), slot(3, None, None)];
    assert_eq!(find_save_slot(&list), Some(2));
    assert_eq!(find_save_slot(&vec![]), Some(0));
    let full: Vec<GalaxySaveSlot> = (0..=10).map(|n| slot(n, None, None)).collect();
    assert_eq!(find_save_slot(&full), None);
}

#[test]
fn save_data_comes_from_last_autosave() {
    let list = vec![
        slot(1, Some(GALAXY_LABEL_BASE), Some("old")),
        slot(2, Some("other"), Some("no")),
        slot(3, Some(GALAXY_LABEL_BASE), Some("new")),
    ];
    assert_eq!(get_galaxy_save_data(&list), Some("new".to_string()));
    let list = vec![slot(1, Some(GALAXY_LABEL_BASE), Some("old")), slot(3, Some(GALAXY_LABEL_BASE), None)];
    assert_eq!(get_galaxy_save_data(&list), None);
    assert_eq!(get_galaxy_save_data(&vec![]), None);
}

#[test]
fn list_keys_parse_as_slots() {
    assert_eq!(parse_slot("7"), Some(7));
    assert_eq!(parse_slot("+7"), Some(7));
    assert_eq!(parse_slot("4294967295"), Some(u32::MAX));
    assert_eq!(parse_slot("4294967296"), None);
    assert_eq!(parse_slot("x"), None);
    assert_eq!(parse_slot(""), None);
    let entries = vec![
        ("2".to_string(), SaveData { label: "a".to_string(), content: "A".to_string(), echo: None }),
        ("bad".to_string(), SaveData { label: "b".to_string(), content: "B".to_string(), echo: None }),
        ("5".to_string(), SaveData { label: "c".to_string(), content: "C".to_string(), echo: None }),
    ];
    let l: GalaxySaveList = save_list_slots(false, &entries).unwrap();
    let got: Vec<(u64, Option<String>)> = l.list.iter().map(|s| (s.slot, s.label.clone())).collect();
    assert_eq!(got, vec![(2, Some("a".to_string())), (5, Some("c".to_string()))]);
    assert!(save_list_slots(true, &entries).is_none());
}

#[test]
fn responses_queue_and_take() {
    let mut q = GalaxyResponseQueue::new();
    let info = InfoRes {
        galaxy: true,
        api_version: 2,
        theme_preference: "dark".to_string(),
        logged_in: true,
        echo: None,
    };
    let host = route_response(&mut q, GalaxyResponse::Info(info));
    assert!(host.is_some());
    assert!(q.queue.is_empty());
    assert!(route_response(&mut q, saved(1)).is_none());
    route_response(&mut q, deleted(2));
    route_response(&mut q, saved(3));
    let mut queue = q.queue;
    match take_response(&mut queue, ResponseKind::Saved) {
        Some(GalaxyResponse::Saved(s)) => assert_eq!(s.slot, 1),
        _ => panic!("expected a saved answer"),
    }
    assert_eq!(queue.len(), 2);
    assert!(take_response(&mut queue, ResponseKind::SaveList).is_none());
    match take_response(&mut queue, ResponseKind::Saved) {
        Some(GalaxyResponse::Saved(s)) => assert_eq!(s.slot, 3),
        _ => panic!("expected a saved answer"),
    }
    assert!(matches!(queue[0], GalaxyResponse::Deleted(_)));
}

#[test]
fn save_size_and_autosave_decisions() {
    assert!(!save_too_large(&"a".repeat(256_000)));
    assert!(save_too_large(&"a".repeat(256_001)));
    assert!(galaxy_save_enabled(Some(false), true, true));
    assert!(!galaxy_save_enabled(None, true, true));
    assert!(!galaxy_save_enabled(Some(true), true, false));
    assert!(autosave_on(true, true, true, true));
    assert!(!autosave_on(true, true, true, false));
    assert!(autosave_due(true, true, true, true, 100, 50, 30, false));
    assert!(!autosave_due(true, true, true, true, 80, 50, 30, false));
    assert!(autosave_due(true, true, true, true, 80, 50, 30, true));
    assert!(!autosave_due(false, true, true, true, 100, 50, 30, true));
    assert!(prefer_galaxy_save(10, Some(5)));
    assert!(!prefer_galaxy_save(5, Some(5)));
    assert!(prefer_galaxy_save(1, None));
}

#[test]
fn requests_carry_actions() {
    let r = save_request(3, "DATA".to_string());
    assert_eq!((r.action.as_str(), r.slot), ("save", 3));
    assert_eq!(r.label.as_deref(), Some(GALAXY_LABEL_BASE));
    assert_eq!(r.data.as_deref(), Some("DATA"));
    assert_eq!(load_request(2).action, "load");
    assert_eq!(delete_request(2).action, "delete");
    assert_eq!(save_list_request().action, "save_list");
    let s = supports_request();
    assert!(s.action == "supports" && s.saving && !s.eval);
    assert_eq!(info_request().echo.as_deref(), Some("sheet"));
}
