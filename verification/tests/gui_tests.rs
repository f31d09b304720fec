use jumpstart::config::{Config, load_default_config, get_default_config_content};
use jumpstart::gui::{JumpstartGui, Theme};

#[test]
fn test_theme_default_is_dark() {
    assert_eq!(Theme::default(), Theme::Dark);
}

#[test]
fn test_new_loads_default_configuration() {
    let gui = JumpstartGui::new();
    assert_eq!(gui.config_path, "config.yml");
    assert!(gui.selected_config.is_none());
    let config = gui.config.expect("default configuration loaded");
    assert_eq!(config.applications.len(), 4);
    assert!(!gui.is_running);
    assert_eq!(
        gui.status_message,
        "Loaded default configuration. You can edit it or load another file."
    );
    assert_eq!(gui.editor_content, get_default_config_content());
    assert_eq!(gui.theme, Theme::Dark);
}

#[test]
fn test_with_initial_config_success() {
    let loaded = Config { applications: vec![] };
    let gui = JumpstartGui::with_initial_config("my.yml".to_string(), Ok(loaded));
    assert_eq!(gui.config_path, "my.yml");
    assert_eq!(gui.selected_config.as_deref(), Some("my.yml"));
    assert_eq!(gui.config.unwrap().applications.len(), 0);
    assert_eq!(gui.status_message, "✅ Loaded configuration from my.yml");
}

#[test]
fn test_with_initial_config_failure_keeps_default() {
    let gui = JumpstartGui::with_initial_config(
        "missing.yml".to_string(),
        Err("no such file".to_string()),
    );
    assert_eq!(gui.config_path, "missing.yml");
    assert!(gui.selected_config.is_none());
    assert_eq!(gui.config.unwrap().applications.len(), 4);
    assert_eq!(
        gui.status_message,
        "⚠️ Failed to load config 'missing.yml': no such file. Using default configuration."
    );
}

#[test]
fn test_apply_file_selection() {
    let mut gui = JumpstartGui::new();
    let loaded = Config { applications: vec![] };
    gui.apply_file_selection("picked.yml".to_string(), Ok(loaded));
    assert_eq!(gui.config_path, "picked.yml");
    assert_eq!(gui.selected_config.as_deref(), Some("picked.yml"));
    assert!(gui.config.is_some());
    assert_eq!(gui.status_message, "✅ Loaded configuration from picked.yml");

    gui.apply_file_selection("bad.yml".to_string(), Err("parse error".to_string()));
    assert_eq!(gui.config_path, "bad.yml");
    assert!(gui.config.is_none());
    assert_eq!(gui.status_message, "❌ Failed to load config: parse error");
}

#[test]
fn test_apply_save_result_new_file() {
    let mut gui = JumpstartGui::new();
    assert!(gui.selected_config.is_none());
    let reload = load_default_config();
    gui.apply_save_result("new.yml".to_string(), Ok(()), Some(reload));
    assert_eq!(gui.selected_config.as_deref(), Some("new.yml"));
    assert_eq!(gui.config_path, "new.yml");
    assert_eq!(gui.status_message, "✅ Saved new configuration to new.yml");
}

#[test]
fn test_apply_save_result_existing_file_reload_failure() {
    let mut gui = JumpstartGui::new();
    gui.apply_file_selection("cur.yml".to_string(), Ok(Config { applications: vec![] }));
    gui.apply_save_result(
        "cur.yml".to_string(),
        Ok(()),
        Some(Err("bad yaml".to_string())),
    );
    assert_eq!(gui.selected_config.as_deref(), Some("cur.yml"));
    assert_eq!(gui.status_message, "⚠️ Saved but failed to reload: bad yaml");
}

#[test]
fn test_apply_save_result_write_failure() {
    let mut gui = JumpstartGui::new();
    gui.apply_save_result("out.yml".to_string(), Err("disk full".to_string()), None);
    assert_eq!(gui.status_message, "❌ Failed to save config: disk full");
    assert!(gui.selected_config.is_none());
}

#[test]
fn test_load_default_config_content_into_editor() {
    let mut gui = JumpstartGui::new();
    gui.editor_content = "something else".to_string();
    gui.load_default_config_content();
    assert_eq!(gui.editor_content, get_default_config_content());
    assert_eq!(gui.status_message, "Loaded default configuration template");
}

#[test]
fn test_update_status_clears_stale_run() {
    let mut gui = JumpstartGui::new();
    gui.is_running = true;
    gui.operation_in_progress = false;
    gui.status_message = "🚀 Starting applications...".to_string();
    gui.update_status();
    assert!(!gui.is_running);
    assert_eq!(
        gui.status_message,
        "✅ Application launching completed. Check logs for details."
    );

    // A run still marked as in progress is left alone.
    gui.is_running = true;
    gui.operation_in_progress = true;
    gui.status_message = "🚀 Starting applications...".to_string();
    gui.update_status();
    assert!(gui.is_running);
    assert_eq!(gui.status_message, "🚀 Starting applications...");
}

#[test]
fn test_begin_launch_requires_configuration() {
    let mut gui = JumpstartGui::new();
    gui.config = None;
    assert!(!gui.begin_launch());
    assert_eq!(
        gui.status_message,
        "❌ No configuration loaded. Please select a config file first."
    );
    assert!(!gui.is_running);
}

#[test]
fn test_begin_launch_refuses_concurrent_runs() {
    let mut gui = JumpstartGui::new();
    gui.is_running = true;
    assert!(!gui.begin_launch());
    assert_eq!(gui.status_message, "⏳ Applications are already being launched.");
}

#[test]
fn test_begin_and_finish_launch() {
    let mut gui = JumpstartGui::new();
    assert!(gui.begin_launch());
    assert!(gui.is_running);
    assert_eq!(gui.status_message, "🚀 Starting applications...");

    gui.finish_launch(Ok(()));
    assert!(!gui.is_running);
    assert_eq!(gui.status_message, "✅ Applications launched successfully!");

    assert!(gui.begin_launch());
    gui.finish_launch(Err("boom".to_string()));
    assert!(!gui.is_running);
    assert_eq!(gui.status_message, "❌ Error launching applications: boom");
}
