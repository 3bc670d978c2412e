use cursory::custom_rect::CustomRect;
use cursory::domain::Field;
use cursory::geometry::ScreenRect;

#[test]
fn fields_show_the_numbers_they_were_given() {
    let c = CustomRect::new(-5, 10, 800, 600);
    assert_eq!(c.get(Field::Left), "-5");
    assert_eq!(c.get(Field::Top), "10");
    assert_eq!(c.get(Field::Width), "800");
    assert_eq!(c.get(Field::Height), "600");
    assert_eq!(c.get(Field::Padding), "");
    assert_eq!(c.parse(), Ok(ScreenRect::new(-5, 10, 795, 610)));
}

#[test]
fn strict_reading_reports_the_first_bad_field() {
    let mut c = CustomRect::new(0, 0, 10, 10);
    c.set(Field::Top, "x".to_string());
    c.set(Field::Width, "y".to_string());
    assert_eq!(c.parse(), Err("top not a number".to_string()));
    c.set(Field::Top, " 7 ".to_string());
    assert_eq!(c.parse(), Err("width not a number".to_string()));
    c.set(Field::Width, "0".to_string());
    assert_eq!(c.parse(), Err("width/height must be positive".to_string()));
    c.set(Field::Width, "5".to_string());
    c.set(Field::Height, "-1".to_string());
    assert_eq!(c.parse(), Err("width/height must be positive".to_string()));
    c.set(Field::Height, "3".to_string());
    assert_eq!(c.parse(), Ok(ScreenRect::new(0, 7, 5, 10)));
    c.set(Field::Left, "".to_string());
    assert_eq!(c.parse(), Err("left not a number".to_string()));
    c.set(Field::Left, "1".to_string());
    c.set(Field::Height, "h".to_string());
    assert_eq!(c.parse(), Err("height not a number".to_string()));
}

#[test]
fn padding_is_not_a_rectangle_field() {
    let mut c = CustomRect::new(1, 2, 3, 4);
    c.set(Field::Padding, "99".to_string());
    assert_eq!(c.get(Field::Left), "1");
    assert_eq!(c.value_or(Field::Padding, 7), 7);
}

#[test]
fn lenient_reading_falls_back_while_editing() {
    let mut c = CustomRect::new(1, 2, 3, 4);
    c.set(Field::Left, "-".to_string());
    assert_eq!(c.value_or(Field::Left, 100), 100);
    assert_eq!(c.value_or(Field::Top, 100), 2);
}

#[test]
fn overflowing_rectangles_are_detected() {
    let mut c = CustomRect::new(2_000_000_000, 0, 10, 10);
    assert!(c.fits());
    c.set(Field::Width, "2000000000".to_string());
    assert!(!c.fits());
}
