use biometrics_studio::windows::{
    edit_url, image_path_changed_event, EditAction, MainAction, SettingsAction, ShellWindows,
    SplashAction, WindowLabel,
};

fn fresh() -> ShellWindows {
    ShellWindows {
        main_present: true,
        splash_present: true,
        settings_present: false,
        edit_present: false,
    }
}

#[test]
fn edit_url_without_path_has_no_image_path_parameter() {
    assert_eq!(edit_url(None), "index.html?window=edit");
}

#[test]
fn edit_url_with_path_appends_encoded_parameter() {
    assert_eq!(
        edit_url(Some("C:\\pics\\a b.png")),
        "index.html?window=edit&imagePath=C:/pics/a%20b.png"
    );
}

#[test]
fn settings_requested_twice_yields_one_window() {
    let mut r = fresh();
    let first = r.open_settings();
    assert!(matches!(first, SettingsAction::CreateSettings(_)));
    assert!(r.settings_present);
    let second = r.open_settings();
    assert!(matches!(second, SettingsAction::FocusSettings));
    assert!(r.settings_present);
    assert_eq!(r, ShellWindows { settings_present: true, ..fresh() });
}

#[test]
fn settings_window_configuration() {
    let mut r = fresh();
    match r.open_settings() {
        SettingsAction::CreateSettings(c) => {
            assert_eq!(c.label, WindowLabel::Settings);
            assert_eq!(c.title, "Settings");
            assert_eq!(c.url, "index.html?window=settings");
            assert_eq!((c.width, c.height), (600, 450));
            assert_eq!((c.min_width, c.min_height), (400, 300));
            assert!(c.resizable);
            assert!(!c.decorations);
            assert!(c.transparent);
            assert!(c.centered);
        }
        SettingsAction::FocusSettings => panic!("expected a creation"),
    }
}

#[test]
fn edit_window_created_with_encoded_path_in_url() {
    let mut r = fresh();
    match r.open_edit(Some("a&b.png".to_string())) {
        EditAction::CreateEdit(c) => {
            assert_eq!(c.label, WindowLabel::Edit);
            assert_eq!(c.title, "Edit Image");
            assert_eq!(c.url, "index.html?window=edit&imagePath=a%26b.png");
            assert_eq!((c.width, c.height), (800, 600));
            assert_eq!((c.min_width, c.min_height), (400, 300));
            assert!(c.resizable);
            assert!(!c.decorations);
            assert!(c.transparent);
            assert!(c.centered);
        }
        EditAction::FocusEdit(_) => panic!("expected a creation"),
    }
    assert!(r.edit_present);
}

#[test]
fn edit_window_created_without_path() {
    let mut r = fresh();
    match r.open_edit(None) {
        EditAction::CreateEdit(c) => {
            assert_eq!(c.url, "index.html?window=edit");
        }
        EditAction::FocusEdit(_) => panic!("expected a creation"),
    }
}

#[test]
fn existing_edit_window_is_focused_and_told_the_path() {
    let mut r = ShellWindows { edit_present: true, ..fresh() };
    match r.open_edit(Some("pic.png".to_string())) {
        EditAction::FocusEdit(p) => assert_eq!(p.as_deref(), Some("pic.png")),
        EditAction::CreateEdit(_) => panic!("expected a focus"),
    }
    assert!(r.edit_present);
}

#[test]
fn existing_edit_window_is_focused_without_payload_when_no_path() {
    let mut r = ShellWindows { edit_present: true, ..fresh() };
    match r.open_edit(None) {
        EditAction::FocusEdit(p) => assert_eq!(p, None),
        EditAction::CreateEdit(_) => panic!("expected a focus"),
    }
}

#[test]
fn hidden_main_window_is_shown() {
    let r = fresh();
    assert_eq!(r.reveal_main(Some(false)), MainAction::ShowMain);
}

#[test]
fn visible_main_window_is_left_alone() {
    let r = fresh();
    assert_eq!(r.reveal_main(Some(true)), MainAction::Leave);
}

#[test]
fn failed_visibility_query_leaves_main_alone() {
    let r = fresh();
    assert_eq!(r.reveal_main(None), MainAction::Leave);
}

#[test]
fn present_splash_window_is_closed() {
    let mut r = fresh();
    assert_eq!(r.close_splash(), SplashAction::CloseSplash);
    assert!(!r.splash_present);
}

#[test]
fn absent_splash_window_is_a_no_op() {
    let mut r = ShellWindows { splash_present: false, ..fresh() };
    assert_eq!(r.close_splash(), SplashAction::Leave);
    assert!(!r.splash_present);
}

#[test]
fn window_labels() {
    assert_eq!(WindowLabel::Main.text(), "main");
    assert_eq!(WindowLabel::Splashscreen.text(), "splashscreen");
    assert_eq!(WindowLabel::Settings.text(), "settings");
    assert_eq!(WindowLabel::Edit.text(), "edit");
}

#[test]
fn image_path_event_name() {
    assert_eq!(image_path_changed_event(), "image-path-changed");
}
