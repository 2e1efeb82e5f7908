use lala::sample::fibonacci;

#[test]
fn test_fibonacci() {
    assert_eq!(fibonacci(0), 0);
    assert_eq!(fibonacci(1), 1);
    assert_eq!(fibonacci(5), 5);
}

#[test]
fn test_fibonacci_larger_values() {
    assert_eq!(fibonacci(10), 55);
    assert_eq!(fibonacci(20), 6765);
}
