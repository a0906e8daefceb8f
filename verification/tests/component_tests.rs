use prediction_tracker::app::App;
use prediction_tracker::app::ScreenMode;
use prediction_tracker::components::Component;
use prediction_tracker::components::column::Column;
use prediction_tracker::components::graph::Graph;
use prediction_tracker::components::prediction_details::PredictionDetails;
use prediction_tracker::components::prediction_list::Action;
use prediction_tracker::components::prediction_list::PredictionList;
use prediction_tracker::date::SimpleDate;
use prediction_tracker::geometry::Region;
use prediction_tracker::prediction::Prediction;
use prediction_tracker::render::PanelRender;
use prediction_tracker::render::Styling;

fn sample_date() -> SimpleDate {
    SimpleDate { year: 2024, month: 5, day: 9 }
}

fn seeded_app(focused: Option<u64>) -> App {
    let p0 = Prediction::new(
        0,
        "Culinary prediction",
        "The cheese will be good",
        40,
        sample_date(),
        None,
    )
    .unwrap();
    let p1 = Prediction::new(
        1,
        "Economic prediction",
        "I will win the lotto",
        10,
        sample_date(),
        None,
    )
    .unwrap();
    App {
        exit: false,
        mode: ScreenMode::PredictionList,
        predictions: vec![p0, p1],
        focused_prediction_id: focused,
    }
}

fn list_area() -> Region {
    Region { x: 0, y: 0, width: 49, height: 40 }
}

fn focused_row_count(panel: &PanelRender) -> usize {
    panel
        .rows
        .iter()
        .filter(|row| row.spans.iter().any(|s| s.style == Styling::Focused))
        .count()
}

#[test]
fn test_list_exactly_one_focused_row() {
    let app = seeded_app(Some(0));
    let list = PredictionList::new(None);
    let panel = list.draw(list_area(), &app).unwrap();
    assert_eq!(focused_row_count(&panel), 1);
    assert_eq!(panel.rows[1].spans[0].text, "1- Culinary prediction");
    assert_eq!(panel.rows[1].spans[0].style, Styling::Focused);
    assert_eq!(panel.rows[2].spans[0].text, "2- Economic prediction");
    assert_eq!(panel.rows[2].spans[0].style, Styling::Secondary);
}

#[test]
fn test_list_no_focused_row_when_id_matches_nothing() {
    let app = seeded_app(Some(99));
    let list = PredictionList::new(None);
    let panel = list.draw(list_area(), &app).unwrap();
    assert_eq!(focused_row_count(&panel), 0);
}

#[test]
fn test_list_no_focused_row_without_focus() {
    let app = seeded_app(None);
    let list = PredictionList::new(None);
    let panel = list.draw(list_area(), &app).unwrap();
    assert_eq!(focused_row_count(&panel), 0);
}

#[test]
fn test_list_header_and_empty_collection() {
    let mut app = seeded_app(None);
    app.predictions = vec![];
    let list = PredictionList::new(None);
    let panel = list.draw(list_area(), &app).unwrap();
    assert!(panel.bordered);
    assert_eq!(panel.rows[0].spans[0].text, "Prediction list");
    assert!(panel.rows[0].centered);
    // only the header and the key-hint footer remain
    assert_eq!(panel.rows.len(), 2);
}

#[test]
fn test_list_rows_below_height_not_drawn() {
    let app = seeded_app(Some(0));
    let list = PredictionList::new(None);
    let area = Region { x: 0, y: 0, width: 49, height: 2 };
    let panel = list.draw(area, &app).unwrap();
    // header, first entry, footer; the second entry does not fit
    assert_eq!(panel.rows.len(), 3);
    assert_eq!(panel.rows[1].spans[0].text, "1- Culinary prediction");
}

#[test]
fn test_list_zero_height_draws_nothing() {
    let app = seeded_app(Some(0));
    let list = PredictionList::new(None);
    let panel = list.draw(Region { x: 0, y: 0, width: 30, height: 0 }, &app).unwrap();
    assert!(panel.rows.is_empty());
}

#[test]
fn test_list_narrow_width_keeps_rows_empty_width() {
    let app = seeded_app(Some(0));
    let list = PredictionList::new(None);
    let panel = list.draw(Region { x: 0, y: 0, width: 3, height: 10 }, &app).unwrap();
    assert_eq!(panel.rows[1].region.width, 0);
    assert_eq!(panel.rows[1].spans[0].text, "1- Culinary prediction");
}

#[test]
fn test_details_clipped_at_small_height() {
    let app = seeded_app(Some(0));
    let details = PredictionDetails::new(None);
    let panel = details.draw(Region { x: 0, y: 0, width: 40, height: 4 }, &app).unwrap();
    let texts: Vec<&str> = panel.rows.iter().map(|r| r.spans[0].text.as_str()).collect();
    assert_eq!(texts, vec!["Prediction details", "Title:", "Culinary prediction"]);
}

#[test]
fn test_details_placeholder_when_focus_resolves_to_nothing() {
    let app = seeded_app(Some(99));
    let details = PredictionDetails::new(None);
    let area = Region { x: 51, y: 20, width: 49, height: 20 };
    let panel = details.draw(area, &app).unwrap();
    assert_eq!(panel.rows[0].spans[0].text, "Prediction details");
    for k in 0..5 {
        let value_row = &panel.rows[2 + 2 * k];
        assert_eq!(value_row.spans[0].text, "None");
    }
}

#[test]
fn test_details_labels_and_values_when_focused() {
    let app = seeded_app(Some(0));
    let details = PredictionDetails::new(None);
    let area = Region { x: 51, y: 20, width: 49, height: 20 };
    let panel = details.draw(area, &app).unwrap();
    let texts: Vec<&str> = panel.rows.iter().map(|r| r.spans[0].text.as_str()).collect();
    assert_eq!(
        texts,
        vec![
            "Prediction details",
            "Title:",
            "Culinary prediction",
            "Description:",
            "The cheese will be good",
            "Certainty:",
            "0.4",
            "Created:",
            "05/09/2024",
            "Due:",
            "None",
        ]
    );
    assert_eq!(panel.rows[1].spans[0].style, Styling::Label);
    assert_eq!(panel.rows[2].spans[0].style, Styling::Plain);
}

#[test]
fn test_details_due_field_renders_date_when_present() {
    let mut app = seeded_app(Some(5));
    let due = SimpleDate { year: 2025, month: 6, day: 1 };
    app.predictions =
        vec![Prediction::new(5, "t", "d", 10, sample_date(), Some(due)).unwrap()];
    let details = PredictionDetails::new(None);
    let area = Region { x: 0, y: 0, width: 40, height: 20 };
    let panel = details.draw(area, &app).unwrap();
    assert_eq!(panel.rows[10].spans[0].text, "06/01/2025");
}

#[test]
fn test_details_resolve_focus_live_not_cached() {
    // the panel was seeded with one prediction but renders the one the
    // shared state focuses now
    let seeded = Prediction::new(9, "Stale", "stale", 10, sample_date(), None).unwrap();
    let details = PredictionDetails::new(Some(&seeded));
    let app = seeded_app(Some(1));
    let area = Region { x: 0, y: 0, width: 49, height: 20 };
    let panel = details.draw(area, &app).unwrap();
    assert_eq!(panel.rows[2].spans[0].text, "Economic prediction");
}

#[test]
fn test_graph_placeholder_box() {
    let app = seeded_app(Some(0));
    let graph = Graph::new();
    let area = Region { x: 51, y: 0, width: 49, height: 20 };
    let panel = graph.draw(area, &app).unwrap();
    assert!(panel.bordered);
    assert_eq!(panel.rows.len(), 1);
    assert_eq!(panel.rows[0].spans[0].text, "Graph area");
    assert!(panel.rows[0].centered);
}

#[test]
fn test_column_draws_nothing() {
    let app = seeded_app(None);
    let mut column = Column::new();
    let area = Region { x: 0, y: 0, width: 10, height: 10 };
    let panel = column.draw(area, &app).unwrap();
    assert!(!panel.bordered);
    assert!(panel.rows.is_empty());
    assert!(column.init().is_ok());
    column.handle_key_events(prediction_tracker::input::KeyPress::Char('q'));
}

#[test]
fn test_frame_idempotent_for_unchanged_inputs() {
    let app = seeded_app(Some(0));
    let list = PredictionList::new(None);
    let graph = Graph::new();
    let details = PredictionDetails::new(None);
    let area = Region { x: 0, y: 0, width: 100, height: 40 };
    let f1 = app.compose_frame(&list, &graph, &details, area);
    let f2 = app.compose_frame(&list, &graph, &details, area);
    assert_eq!(f1, f2);
}

#[test]
fn test_end_to_end_dashboard_frame() {
    let app = seeded_app(Some(0));
    let list = PredictionList::new(None);
    let graph = Graph::new();
    let details = PredictionDetails::new(None);
    let area = Region { x: 0, y: 0, width: 100, height: 40 };
    let frame = app.compose_frame(&list, &graph, &details, area);

    assert_eq!(frame.list.rows[1].spans[0].text, "1- Culinary prediction");
    assert_eq!(frame.list.rows[1].spans[0].style, Styling::Focused);
    assert_eq!(frame.list.rows[2].spans[0].text, "2- Economic prediction");
    assert_eq!(frame.list.rows[2].spans[0].style, Styling::Secondary);

    assert_eq!(frame.details.rows[2].spans[0].text, "Culinary prediction");
    assert_eq!(frame.details.rows[6].spans[0].text, "0.4");

    assert_eq!(frame.graph.rows[0].spans[0].text, "Graph area");
}

#[test]
fn test_prediction_summary_row() {
    let app = seeded_app(None);
    let p = Prediction::new(4, "t", "The cheese will be good", 40, sample_date(), None).unwrap();
    let area = Region { x: 0, y: 0, width: 60, height: 3 };
    let panel = p.draw(area, &app).unwrap();
    assert!(!panel.bordered);
    assert_eq!(panel.rows.len(), 1);
    let texts: Vec<&str> = panel.rows[0].spans.iter().map(|s| s.text.as_str()).collect();
    assert_eq!(
        texts,
        vec![
            "- ",
            "The cheese will be good",
            " - Certainty: ",
            "0.4",
            " - Created: ",
            "05/09/2024",
            " - Due: ",
            "None",
        ]
    );
    assert_eq!(panel.rows[0].spans[2].style, Styling::Label);
    assert_eq!(panel.rows[0].spans[3].style, Styling::Plain);
}

#[test]
fn test_list_component_state_updates() {
    let p = Prediction::new(2, "t", "d", 10, sample_date(), None).unwrap();
    let mut list = PredictionList::new(Some(vec![p]));
    assert!(list.init().is_ok());
    list.update(Action::Noop);
    let q = Prediction::new(3, "u", "e", 20, sample_date(), None).unwrap();
    list.update(Action::SetPredictions(vec![q]));
}
