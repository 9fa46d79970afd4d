use ts_validator::utils::{format_location_message, usize_to_decimal};

#[test]
fn test_format_location_message() {
    // The start of `x` in "let x = 1;" sits on line 1, display column 4.
    let message = "Test message";
    let actual = format_location_message("test.js", 1, 4, message);
    assert_eq!(actual, "[test.js:1:4] Test message");
}

// Keeps the exact wording of the path assertion used when parsed modules are
// checked against the files they came from.
#[test]
fn test_direct_error_string() {
    let message = "Parsed module path should match the created .ts file";
    println!("Test is using message: {}", message);
    assert_eq!(message, "Parsed module path should match the created .ts file");
}

#[test]
fn decimal_rendering_is_exact() {
    assert_eq!(usize_to_decimal(0), "0");
    assert_eq!(usize_to_decimal(7), "7");
    assert_eq!(usize_to_decimal(10), "10");
    assert_eq!(usize_to_decimal(409), "409");
    assert_eq!(usize_to_decimal(123456789), "123456789");
}

#[test]
fn location_format_with_wide_numbers() {
    let actual = format_location_message("src/app.ts", 120, 4567, "m");
    assert_eq!(actual, "[src/app.ts:120:4567] m");
}
