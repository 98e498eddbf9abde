use compressr::format::OutputFormat;
use compressr::main_view::MainView;
use compressr::settings::Settings;
use compressr::state::State;

#[test]
fn settings_default_values() {
    let s = Settings::default();
    assert!(s.auto_update);
    assert_eq!(s.update_server, "https://codedead.com/Software/compressr/version.json");
    assert_eq!(s.theme, "Oxocarbon");
    assert!(!s.delete_files_after_compression);
}

#[test]
fn settings_new_keeps_its_arguments() {
    let s = Settings::new(false, String::from("https://example.invalid/v.json"), String::from("Dark"), true);
    assert!(!s.auto_update);
    assert_eq!(s.update_server, "https://example.invalid/v.json");
    assert_eq!(s.theme, "Dark");
    assert!(s.delete_files_after_compression);
}

#[test]
fn state_default_values() {
    let s = State::default();
    assert_eq!(s.input_path, "");
    assert_eq!(s.output_path, "");
    assert_eq!(s.scale, 100);
    assert_eq!(s.height, None);
    assert_eq!(s.width, None);
    assert_eq!(s.quality, 100);
    assert_eq!(s.format, OutputFormat::Jpeg);
    assert!(!s.is_compressing);
    assert!(!s.compression_succeeded);
    assert_eq!(s.status, "");
}

#[test]
fn main_view_default_wraps_the_initial_state() {
    let v = MainView::default();
    assert_eq!(v.state.scale, 100);
    assert_eq!(v.state.format, OutputFormat::Jpeg);
    assert!(!v.state.is_compressing);
}
