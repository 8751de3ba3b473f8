use typefast::util::{calculate_char_speed, calculate_word_speed, get_current_datetime};

#[test]
fn test_calculate_word_speed() {
    assert_eq!(calculate_word_speed(120, 60), 120);
    assert_eq!(calculate_word_speed(0, 60), 0);
    assert_eq!(calculate_word_speed(120, 0), 0);
    assert_eq!(calculate_word_speed(60, 120), 30);
}

#[test]
fn test_calculate_char_speed() {
    assert_eq!(calculate_char_speed(600, 60), 600);
    assert_eq!(calculate_char_speed(0, 60), 0);
    assert_eq!(calculate_char_speed(600, 0), 0);
    assert_eq!(calculate_char_speed(300, 120), 150);
}

#[test]
fn test_calculate_speed_rounds_half_away_from_zero() {
    // 1 word in 120 seconds is 0.5 per minute, which rounds away to 1.
    assert_eq!(calculate_word_speed(1, 120), 1);
    assert_eq!(calculate_char_speed(1, 120), 1);
    // 29 characters in 120 seconds is 14.5 per minute, rounding to 15.
    assert_eq!(calculate_char_speed(29, 120), 15);
}

#[test]
fn test_get_current_datetime() {
    let datetime = get_current_datetime();
    assert!(datetime.len() > 0);
}
