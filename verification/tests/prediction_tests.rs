use prediction_tracker::date::SimpleDate;
use prediction_tracker::date::current_date_or;
use prediction_tracker::date::date_from_parts;
use prediction_tracker::date::format_date;
use prediction_tracker::numtext::certainty_text;
use prediction_tracker::numtext::u32_dec_string;
use prediction_tracker::prediction::Prediction;

fn sample_date() -> SimpleDate {
    SimpleDate { year: 2024, month: 5, day: 9 }
}

#[test]
fn test_invalid_certainty_values() {
    let negative_certainty_prediction = Prediction::new(0, "", "", -30, sample_date(), None);
    assert!(negative_certainty_prediction.is_err());

    let greater_than_one_certainty_prediction =
        Prediction::new(0, "", "", 130, sample_date(), None);
    assert!(greater_than_one_certainty_prediction.is_err());

    let valid_certainty_predection = Prediction::new(0, "", "", 40, sample_date(), None);
    assert!(valid_certainty_predection.is_ok());
}

#[test]
fn test_certainty_boundaries_inclusive() {
    assert!(Prediction::new(0, "", "", 0, sample_date(), None).is_ok());
    assert!(Prediction::new(0, "", "", 100, sample_date(), None).is_ok());
    assert!(Prediction::new(0, "", "", -1, sample_date(), None).is_err());
    assert!(Prediction::new(0, "", "", 101, sample_date(), None).is_err());
}

#[test]
fn test_rejection_message_names_the_value() {
    let err = Prediction::new(0, "t", "d", -30, sample_date(), None).unwrap_err();
    assert_eq!(
        err.message(),
        "Certainty values must be between 0 and 1 inclusive - received -0.3"
    );
    let err = Prediction::new(0, "t", "d", 130, sample_date(), None).unwrap_err();
    assert_eq!(
        err.message(),
        "Certainty values must be between 0 and 1 inclusive - received 1.3"
    );
}

#[test]
fn test_constructed_fields() {
    let p = Prediction::new(7, "A claim", "Something holds", 40, sample_date(), None).unwrap();
    assert_eq!(p.id, 7);
    assert_eq!(p.title, "A claim");
    assert_eq!(p.get_description(), "Something holds");
    assert_eq!(p.get_certainty(), "0.4");
    assert_eq!(p.get_formatted_created_date(), "05/09/2024");
    assert_eq!(p.get_formatted_due_date(), "None");
}

#[test]
fn test_due_date_formats_when_present() {
    let due = SimpleDate { year: 2025, month: 6, day: 1 };
    let p = Prediction::new(1, "t", "d", 10, sample_date(), Some(due)).unwrap();
    assert_eq!(p.get_formatted_due_date(), "06/01/2025");
}

#[test]
fn test_certainty_text_values() {
    assert_eq!(certainty_text(0), "0");
    assert_eq!(certainty_text(5), "0.05");
    assert_eq!(certainty_text(10), "0.1");
    assert_eq!(certainty_text(40), "0.4");
    assert_eq!(certainty_text(45), "0.45");
    assert_eq!(certainty_text(100), "1");
    assert_eq!(certainty_text(-30), "-0.3");
    assert_eq!(certainty_text(130), "1.3");
}

#[test]
fn test_format_date_zero_pads() {
    assert_eq!(format_date(&SimpleDate { year: 2024, month: 5, day: 9 }), "05/09/2024");
    assert_eq!(format_date(&SimpleDate { year: 1999, month: 12, day: 31 }), "12/31/1999");
    assert_eq!(format_date(&SimpleDate { year: 33, month: 1, day: 1 }), "01/01/0033");
}

#[test]
fn test_u32_dec_string() {
    assert_eq!(u32_dec_string(0), "0");
    assert_eq!(u32_dec_string(10), "10");
    assert_eq!(u32_dec_string(12345), "12345");
}

#[test]
fn test_current_date_is_renderable() {
    let fallback = SimpleDate { year: 1970, month: 1, day: 1 };
    let d = current_date_or(fallback);
    assert!(d.year <= 9999);
    assert!((1..=12).contains(&d.month));
    assert!((1..=31).contains(&d.day));
    assert_eq!(format_date(&d).len(), 10);
}

#[test]
fn test_date_from_parts_takes_a_four_digit_year_as_is() {
    let fallback = SimpleDate { year: 1970, month: 1, day: 1 };
    assert_eq!(
        date_from_parts(Some((2024, 5, 9)), fallback),
        SimpleDate { year: 2024, month: 5, day: 9 }
    );
    assert_eq!(
        date_from_parts(Some((0, 12, 31)), fallback),
        SimpleDate { year: 0, month: 12, day: 31 }
    );
}

#[test]
fn test_date_from_parts_falls_back() {
    let fallback = SimpleDate { year: 1970, month: 1, day: 1 };
    assert_eq!(date_from_parts(None, fallback), fallback);
    assert_eq!(date_from_parts(Some((-5, 3, 3)), fallback), fallback);
    assert_eq!(date_from_parts(Some((10000, 3, 3)), fallback), fallback);
}

#[test]
fn test_constructed_prediction_is_well_formed() {
    let p = Prediction::new(1, "t", "d", 100, sample_date(), None).unwrap();
    assert!(p.is_well_formed());
    assert_eq!(p.get_id(), 1);
    assert_eq!(p.get_title(), "t");
}

#[test]
fn test_clone_keeps_fields() {
    let p = Prediction::new(3, "t", "d", 55, sample_date(), None).unwrap();
    let q = p.clone();
    assert_eq!(q.id, 3);
    assert_eq!(q.title, "t");
    assert_eq!(q.get_certainty(), "0.55");
}
