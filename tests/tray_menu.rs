use backend_supervisor::tray::{create_tray_menu, tray_command, MenuEntry, TrayCommand};

#[test]
fn test_create_tray_menu() {
    let menu = create_tray_menu();
    assert_eq!(menu.len(), 7);
}

#[test]
fn test_system_tray_creation() {
    let tray = create_tray_menu();
    assert!(!tray.is_empty(), "시스템 트레이 생성 실패");
}

#[test]
fn test_menu_item_ids() {
    let expected_ids = vec!["show", "hide", "backend_status", "restart_backend", "quit"];

    for id in expected_ids {
        assert!(!id.is_empty());
        assert!(id.is_ascii());
        assert!(!id.contains(' '));
        assert!(id.chars().all(|c| c.is_alphanumeric() || c == '_'));
        assert!(tray_command(id).is_some());
    }
}

#[test]
fn test_event_id_matching() {
    let valid_event_ids = vec!["show", "hide", "backend_status", "restart_backend", "quit"];

    for event_id in valid_event_ids {
        let result = match tray_command(event_id) {
            Some(TrayCommand::Show) => "show 이벤트",
            Some(TrayCommand::Hide) => "hide 이벤트",
            Some(TrayCommand::BackendStatus) => "backend_status 이벤트",
            Some(TrayCommand::RestartBackend) => "restart_backend 이벤트",
            Some(TrayCommand::Quit) => "quit 이벤트",
            None => "알 수 없는 이벤트",
        };

        assert_ne!(result, "알 수 없는 이벤트");
        assert_eq!(result, format!("{} 이벤트", event_id));
    }
}

#[test]
fn test_invalid_event_id_handling() {
    let invalid_event_ids = vec!["invalid", "unknown", "", "show_window", "quit_app"];

    for event_id in invalid_event_ids {
        let result = match tray_command(event_id) {
            Some(TrayCommand::Show) => "show 이벤트",
            Some(TrayCommand::Hide) => "hide 이벤트",
            Some(TrayCommand::BackendStatus) => "backend_status 이벤트",
            Some(TrayCommand::RestartBackend) => "restart_backend 이벤트",
            Some(TrayCommand::Quit) => "quit 이벤트",
            None => "알 수 없는 이벤트",
        };

        assert_eq!(result, "알 수 없는 이벤트");
    }
}

fn menu_order() -> Vec<String> {
    create_tray_menu()
        .into_iter()
        .map(|e| match e {
            MenuEntry::Item { id, .. } => id,
            MenuEntry::Separator => "separator".to_string(),
        })
        .collect()
}

fn menu_items() -> Vec<(String, String)> {
    create_tray_menu()
        .into_iter()
        .filter_map(|e| match e {
            MenuEntry::Item { id, label } => Some((id, label)),
            MenuEntry::Separator => None,
        })
        .collect()
}

#[test]
fn test_menu_item_order() {
    let expected_order = menu_order();

    assert_eq!(expected_order[0], "show");
    assert_eq!(expected_order[1], "hide");
    assert_eq!(expected_order[2], "separator");
    assert_eq!(expected_order.last().unwrap(), "quit");

    let backend_start = expected_order.iter().position(|x| x == "backend_status").unwrap();
    let backend_end = expected_order.iter().position(|x| x == "restart_backend").unwrap();
    assert_eq!(backend_end, backend_start + 1);
}

// The menu's accessibility test is not carried here: it asserts every
// label is at most 20 bytes, yet "WatchHamster 숨기기" (22 bytes) and
// "백엔드 상태 확인" (23 bytes) are labels in its own fixture, so it fails
// as written. The remaining checks of that test are kept below.
#[test]
fn menu_labels_follow_ids() {
    let menu_items = menu_items();
    assert_eq!(
        menu_items,
        vec![
            ("show".to_string(), "WatchHamster 열기".to_string()),
            ("hide".to_string(), "WatchHamster 숨기기".to_string()),
            ("backend_status".to_string(), "백엔드 상태 확인".to_string()),
            ("restart_backend".to_string(), "백엔드 재시작".to_string()),
            ("quit".to_string(), "종료".to_string()),
        ]
    );
    for (id, _) in menu_items {
        assert!(!id.starts_with('_'));
        assert!(!id.ends_with('_'));
    }
}

#[test]
fn test_menu_i18n_readiness() {
    let menu_keys: Vec<String> = menu_items().into_iter().map(|(id, _)| id).collect();
    assert_eq!(menu_keys.len(), 5);

    for key in menu_keys {
        assert!(key.chars().all(|c| c.is_ascii_lowercase() || c == '_'));

        assert!(key.len() >= 3);
        assert!(key.len() <= 20);

        let meaningful_words = vec!["show", "hide", "status", "restart", "quit", "backend"];
        assert!(meaningful_words.iter().any(|&word| key.contains(word)));
    }
}
