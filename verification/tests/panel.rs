//! Tests of the Docker panel: loading the persisted width record,
//! resizing, the active flag, and the rendered content. These run against
//! the real `serde_json` behind the persistence wrappers.

use docker_ui::panel::DockerPanel;
use docker_ui::panel_settings::{DockPosition, DockerPanelSettings};

fn settings() -> DockerPanelSettings {
    DockerPanelSettings { button: true, dock: DockPosition::Left, default_width: 240 }
}

#[test]
fn load_without_record_yields_defaults() {
    let panel = DockerPanel::load(None);
    assert_eq!(panel.width, None);
    assert!(!panel.active);
    assert_eq!(panel.pending_serialization, None);
    assert_eq!(panel.size(&settings()), 240);
}

#[test]
fn load_with_stored_width_reports_it() {
    let panel = DockerPanel::load(Some("{\"width\":180}".to_string()));
    assert_eq!(panel.width, Some(180));
    assert_eq!(panel.size(&settings()), 180);
    assert!(!panel.active);
}

#[test]
fn load_rounds_fractional_widths_to_nearest() {
    let panel = DockerPanel::load(Some("{\"width\":180.0}".to_string()));
    assert_eq!(panel.size(&settings()), 180);
    let panel = DockerPanel::load(Some("{\"width\":179.6}".to_string()));
    assert_eq!(panel.size(&settings()), 180);
    let panel = DockerPanel::load(Some("{\"width\":180.4}".to_string()));
    assert_eq!(panel.size(&settings()), 180);
}

#[test]
fn load_with_malformed_record_falls_back_to_defaults() {
    for record in ["not json", "", "[1,2]", "{\"width\":\"wide\"}", "42"] {
        let panel = DockerPanel::load(Some(record.to_string()));
        assert_eq!(panel.width, None, "record {record:?} should be swallowed");
        assert_eq!(panel.size(&settings()), 240);
    }
}

#[test]
fn load_with_absent_width_falls_back_to_defaults() {
    let panel = DockerPanel::load(Some("{}".to_string()));
    assert_eq!(panel.width, None);
    let panel = DockerPanel::load(Some("{\"width\":null}".to_string()));
    assert_eq!(panel.width, None);
}

#[test]
fn load_with_out_of_range_width_falls_back_to_defaults() {
    let panel = DockerPanel::load(Some("{\"width\":-5}".to_string()));
    assert_eq!(panel.width, None);
    let panel = DockerPanel::load(Some("{\"width\":1e300}".to_string()));
    assert_eq!(panel.width, None);
}

#[test]
fn set_size_queues_the_new_width() {
    let mut panel = DockerPanel::new();
    panel.set_size(Some(300));
    assert_eq!(panel.width, Some(300));
    let record = panel.take_pending_serialization().expect("a write must be queued");
    let reloaded = DockerPanel::load(Some(record));
    assert_eq!(reloaded.width, Some(300));
    assert_eq!(panel.take_pending_serialization(), None);
}

#[test]
fn set_size_twice_persists_only_the_final_width() {
    let mut panel = DockerPanel::new();
    panel.set_size(Some(100));
    panel.set_size(Some(200));
    let record = panel.take_pending_serialization().expect("a write must be queued");
    let value: serde_json::Value = serde_json::from_str(&record).unwrap();
    assert_eq!(value["width"], serde_json::Value::from(200u32));
    let reloaded = DockerPanel::load(Some(record));
    assert_eq!(reloaded.width, Some(200));
}

#[test]
fn set_size_to_none_clears_the_stored_width() {
    let mut panel = DockerPanel::new();
    panel.set_size(Some(100));
    panel.set_size(None);
    let record = panel.take_pending_serialization().expect("a write must be queued");
    let reloaded = DockerPanel::load(Some(record));
    assert_eq!(reloaded.width, None);
    assert_eq!(reloaded.size(&settings()), 240);
}

#[test]
fn set_active_notifies_only_when_becoming_active() {
    let mut panel = DockerPanel::new();
    assert!(panel.set_active(true));
    assert!(panel.active);
    assert!(!panel.set_active(false));
    assert!(!panel.active);
}

#[test]
fn render_shows_the_static_labels() {
    let content = DockerPanel::new().render();
    assert_eq!(content.header, "Docker");
    assert_eq!(content.body, "Cannot find running Docker instance.");
}

#[test]
fn names_and_icon_strings() {
    assert_eq!(DockerPanel::persistent_name(), "DockerPanel");
    assert_eq!(DockerPanel::dev_container_panel_key(), "DockerPanel");
    let panel = DockerPanel::new();
    assert_eq!(panel.icon_tooltip(), Some("Dev Containers Panel"));
    assert_eq!(panel.icon_label(), None);
}
