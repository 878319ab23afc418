use wrac_gain_plugin::editor::{EditorPage, ProjectState};
use wrac_gain_plugin::parameters::{db_number_text, ParameterKind, PARAM_BYPASS_ID, PARAM_GAIN_ID};

#[test]
fn editor_page_names() {
    assert_eq!(EditorPage::Controls.as_str(), "controls");
    assert_eq!(EditorPage::About.as_str(), "about");
}

#[test]
fn editor_page_from_name() {
    assert_eq!(EditorPage::from_str("controls"), Some(EditorPage::Controls));
    assert_eq!(EditorPage::from_str("about"), Some(EditorPage::About));
    assert_eq!(EditorPage::from_str("About"), None);
    assert_eq!(EditorPage::from_str(""), None);
    assert_eq!(EditorPage::from_str("controls "), None);
}

#[test]
fn editor_page_round_trip() {
    for page in [EditorPage::Controls, EditorPage::About] {
        assert_eq!(EditorPage::from_str(page.as_str()), Some(page));
    }
}

#[test]
fn editor_defaults_to_controls() {
    assert_eq!(EditorPage::default(), EditorPage::Controls);
    assert_eq!(ProjectState::default().editor_page, EditorPage::Controls);
}

#[test]
fn parameter_ids_route_to_parameters() {
    assert_eq!(ParameterKind::from_id(PARAM_GAIN_ID), Some(ParameterKind::Gain));
    assert_eq!(ParameterKind::from_id(PARAM_BYPASS_ID), Some(ParameterKind::Bypass));
    assert_eq!(ParameterKind::from_id(0), None);
    assert_eq!(ParameterKind::from_id(99), None);
    for kind in [ParameterKind::Gain, ParameterKind::Bypass] {
        assert_eq!(ParameterKind::from_id(kind.id()), Some(kind));
    }
}

#[test]
fn db_number_text_strips_unit_and_whitespace() {
    assert_eq!(db_number_text("3 dB"), "3");
    assert_eq!(db_number_text("  -6.0dB  "), "-6.0");
    assert_eq!(db_number_text("0.0"), "0.0");
    assert_eq!(db_number_text("-inf dB"), "-inf");
    assert_eq!(db_number_text("dB"), "");
    assert_eq!(db_number_text("3 db"), "3 db");
    assert_eq!(db_number_text("3 dB dB"), "3 dB");
}

#[test]
fn db_number_text_parses_like_the_host_text() {
    let number: f64 = db_number_text(" 6.0 dB").parse().unwrap();
    assert_eq!(number, 6.0);
}
