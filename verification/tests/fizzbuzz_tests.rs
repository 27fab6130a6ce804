use fizzbuzz::classifier::{fizz_buzz, handle, is_divisible_by, FizzBuzzResult};
use fizzbuzz::decimal::decimal_string;
use fizzbuzz::sequencer::{fizz_buzz_line, fizz_buzz_lines};

#[test]
fn test_is_divisible_by() {
    assert!(is_divisible_by(30, 15));
    assert!(is_divisible_by(30, 5));
    assert!(is_divisible_by(30, 3));

    assert!(!is_divisible_by(97, 15));
    assert!(!is_divisible_by(97, 5));
    assert!(!is_divisible_by(97, 3));
}

#[test]
fn test_handle() {
    let label = String::default();
    assert_eq!(
        handle(45, 15, label.clone()),
        FizzBuzzResult::Handled(label.clone())
    );
    assert_eq!(handle(66, 17, label), FizzBuzzResult::Unhandled(66));
}

#[test]
fn test_fizz_buzz() {
    assert_eq!(fizz_buzz(3), (3, "Fizz".to_string()));
    assert_eq!(fizz_buzz(5), (5, "Buzz".to_string()));
    assert_eq!(fizz_buzz(15), (15, "FizzBuzz".to_string()));
    assert_eq!(fizz_buzz(22), (22, "22".to_string()));
}

#[test]
fn test_fizz_buzz_deterministic() {
    for x in [0u32, 1, 3, 5, 15, 22, 99, 100, u32::MAX] {
        assert_eq!(fizz_buzz(x), fizz_buzz(x));
    }
}

#[test]
fn test_if_unhandled_do() {
    let handled = FizzBuzzResult::Handled("Fizz".to_string());
    let kept = handled
        .clone()
        .if_unhandled_do(|x| FizzBuzzResult::Unhandled(x));
    assert_eq!(kept, handled);

    let applied = FizzBuzzResult::Unhandled(4)
        .if_unhandled_do(|x| FizzBuzzResult::Handled(x.to_string()));
    assert_eq!(applied, FizzBuzzResult::Handled("4".to_string()));
}

#[test]
fn test_last_step() {
    assert_eq!(FizzBuzzResult::Unhandled(17).last_step(), "17".to_string());
    assert_eq!(
        FizzBuzzResult::Handled("Buzz".to_string()).last_step(),
        "Buzz".to_string()
    );
}

#[test]
fn test_decimal_string() {
    assert_eq!(decimal_string(0), "0".to_string());
    assert_eq!(decimal_string(7), "7".to_string());
    assert_eq!(decimal_string(10), "10".to_string());
    assert_eq!(decimal_string(99), "99".to_string());
    assert_eq!(decimal_string(1000), "1000".to_string());
    assert_eq!(decimal_string(u32::MAX), "4294967295".to_string());
}

#[test]
fn test_fizz_buzz_line() {
    assert_eq!(fizz_buzz_line(30), "30: FizzBuzz".to_string());
    assert_eq!(fizz_buzz_line(25), "25: Buzz".to_string());
    assert_eq!(fizz_buzz_line(33), "33: Fizz".to_string());
    assert_eq!(fizz_buzz_line(97), "97: 97".to_string());
}

#[test]
fn test_full_run() {
    let lines = fizz_buzz_lines();
    assert_eq!(lines.len(), 99);
    assert_eq!(lines[2], "3: Fizz".to_string());
    assert_eq!(lines[4], "5: Buzz".to_string());
    assert_eq!(lines[14], "15: FizzBuzz".to_string());
    assert_eq!(lines[21], "22: 22".to_string());
    assert_eq!(lines[98], "99: Fizz".to_string());
}

#[test]
fn test_boundary() {
    assert_eq!(fizz_buzz(1), (1, "1".to_string()));
    let lines = fizz_buzz_lines();
    assert_eq!(lines[0], "1: 1".to_string());
    for (i, line) in lines.iter().enumerate() {
        let expected_prefix = format!("{}: ", i + 1);
        assert!(line.starts_with(&expected_prefix));
    }
    assert!(!lines.iter().any(|l| l.starts_with("0:")));
    assert!(!lines.iter().any(|l| l.starts_with("100:")));
}
