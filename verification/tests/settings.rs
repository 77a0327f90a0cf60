use ferrosonic::settings::{setting_rows, settings_help, SettingsPage};

fn page(selected_field: usize, cava_available: bool) -> SettingsPage {
    SettingsPage {
        theme_name: "Default".to_string(),
        cava_available,
        cava_enabled: true,
        cava_size: 40,
        notifications_enabled: false,
        scrobble_enabled: true,
        save_queue_enabled: false,
        selected_field,
    }
}

#[test]
fn settings_rows_with_cava() {
    let rows = setting_rows(&page(2, true));
    let got: Vec<(&str, &str)> = rows.iter().map(|(l, v)| (l.as_str(), v.as_str())).collect();
    assert_eq!(
        got,
        vec![
            ("Theme", "    Default"),
            ("Cava Visualizer", "    On"),
            ("Cava Size", "  ◀ 40% ▶"),
            ("Notifications", "    Off"),
            ("Scrobble", "    On"),
            ("Save Queue", "    Off"),
        ]
    );
}

#[test]
fn settings_rows_without_cava() {
    let rows = setting_rows(&page(0, false));
    assert_eq!(rows[0].1, "  ◀ Default ▶");
    assert_eq!(rows[1].1, "    Off (cava not found)");
    assert_eq!(rows[2].1, "    N/A (cava not found)");
}

#[test]
fn settings_help_lines() {
    assert_eq!(settings_help(0, false), "← → or Enter to change theme (auto-saves)");
    assert_eq!(settings_help(1, true), "← → or Enter to toggle cava visualizer (auto-saves)");
    assert_eq!(settings_help(1, false), "cava is not installed on this system");
    assert_eq!(settings_help(2, true), "← → to adjust cava size (10%-80%, auto-saves)");
    assert_eq!(settings_help(2, false), "cava is not installed on this system");
    assert_eq!(settings_help(3, true), "← → or Enter to toggle desktop notifications");
    assert_eq!(settings_help(4, true), "← → or Enter to toggle scrobbling played tracks to the server");
    assert_eq!(
        settings_help(5, true),
        "← → or Enter to toggle saving queue on exit and restoring on launch"
    );
    assert_eq!(settings_help(6, true), "");
}
