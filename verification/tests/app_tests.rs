use prediction_tracker::app::App;
use prediction_tracker::app::ScreenMode;
use prediction_tracker::input::KeyPress;

#[test]
fn test_default_seeds_two_predictions() {
    let app = App::default();
    assert!(!app.exit);
    assert_eq!(app.mode, ScreenMode::PredictionList);
    assert_eq!(app.focused_prediction_id, Some(0));
    assert_eq!(app.predictions.len(), 2);
    assert_eq!(app.predictions[0].title, "Culinary prediction");
    assert_eq!(app.predictions[0].get_certainty(), "0.4");
    assert_eq!(app.predictions[1].title, "Economic prediction");
    assert_eq!(app.predictions[1].get_certainty(), "0.1");
}

#[test]
fn test_quit_key_transitions_to_exiting() {
    let mut app = App::default();
    app.handle_key_event(KeyPress::Char('q'));
    assert!(app.exit);
}

#[test]
fn test_other_keys_leave_state_and_data_unchanged() {
    let mut app = App::default();
    app.handle_key_event(KeyPress::Char('x'));
    assert!(!app.exit);
    app.handle_key_event(KeyPress::Other);
    assert!(!app.exit);
    assert_eq!(app.mode, ScreenMode::PredictionList);
    assert_eq!(app.focused_prediction_id, Some(0));
    assert_eq!(app.predictions.len(), 2);
    assert_eq!(app.predictions[0].title, "Culinary prediction");
}

#[test]
fn test_exiting_state_is_sticky() {
    let mut app = App::default();
    app.handle_key_event(KeyPress::Char('q'));
    app.handle_key_event(KeyPress::Char('x'));
    assert!(app.exit);
}

#[test]
fn test_state_invariant_check() {
    let app = App::default();
    assert!(app.is_well_formed());

    let mut twin = App::default();
    let copy = twin.predictions[0].clone();
    twin.predictions.push(copy);
    // two entries now share identifier 0
    assert!(!twin.is_well_formed());
}

#[test]
fn test_focus_lookup_resolves_against_collection() {
    let mut app = App::default();
    let p = app.focused_prediction().unwrap();
    assert_eq!(p.id, 0);
    assert_eq!(p.title, "Culinary prediction");

    app.focused_prediction_id = Some(42);
    assert!(app.focused_prediction().is_none());

    app.focused_prediction_id = None;
    assert!(app.focused_prediction().is_none());
}
