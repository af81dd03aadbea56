use poke_fighting_rust::args::{default_fighter_type, default_size, validate_size};
use poke_fighting_rust::FighterType;

#[test]
fn size_within_range_is_accepted() {
    assert_eq!(validate_size("512"), Ok(512));
    assert_eq!(validate_size("32"), Ok(32));
    assert_eq!(validate_size("8192"), Ok(8192));
    assert_eq!(validate_size("+64"), Ok(64));
}

#[test]
fn size_out_of_range_is_rejected() {
    let message = "image size should be between 32 and 8192".to_string();
    assert_eq!(validate_size("31"), Err(message.clone()));
    assert_eq!(validate_size("8193"), Err(message));
}

#[test]
fn size_that_is_no_number_is_rejected() {
    let message = "Size is not a number".to_string();
    assert_eq!(validate_size("abc"), Err(message.clone()));
    assert_eq!(validate_size(""), Err(message.clone()));
    assert_eq!(validate_size("-40"), Err(message.clone()));
    assert_eq!(validate_size(" 64"), Err(message));
}

#[test]
fn defaults() {
    assert_eq!(default_size(), 512);
    assert_eq!(default_fighter_type(), FighterType::StreetFighter);
}
