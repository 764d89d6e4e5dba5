use worker_pool::shapes::{divide, Guess, Rectangle};

#[test]
fn it_works() {
    let result = 2 + 2;
    assert_eq!(result, 4);
}

#[test]
fn different() {
    let result = 2 + 2;
    assert_ne!(result, 5);
}

#[test]
fn larger_can_hold_smaller() {
    let larger = Rectangle {
        width: 8,
        height: 7,
    };
    let smaller = Rectangle {
        width: 5,
        height: 1,
    };

    assert!(larger.can_hold(&smaller));
}

#[test]
fn smaller_cannot_hold_larger() {
    let larger = Rectangle {
        width: 8,
        height: 7,
    };
    let smaller = Rectangle {
        width: 5,
        height: 1,
    };

    assert!(!smaller.can_hold(&larger));
}

#[test]
fn test_divide() {
    assert_eq!(divide(10, 2), Ok(5));
    assert_eq!(divide(10, 0), Err("Division by zero"));
}

#[test]
fn divide_rounds_toward_zero() {
    assert_eq!(divide(-7, 2), Ok(-3));
    assert_eq!(divide(7, -2), Ok(-3));
    assert_eq!(divide(-7, -2), Ok(3));
    assert_eq!(divide(i32::MIN, 1), Ok(i32::MIN));
}

#[test]
fn equal_sides_do_not_hold() {
    let a = Rectangle::square(4);
    assert!(!a.can_hold(&Rectangle::square(4)));
    assert!(!a.can_hold(&Rectangle { width: 3, height: 4 }));
}

#[test]
fn area_of_rectangle_and_square() {
    assert_eq!(Rectangle { width: 30, height: 50 }.area(), 1500);
    let sq = Rectangle::square(3);
    assert_eq!(sq, Rectangle { width: 3, height: 3 });
    assert_eq!(sq.area(), 9);
}

#[test]
fn guess_keeps_its_value() {
    assert_eq!(Guess::new(1).value(), 1);
    assert_eq!(Guess::new(100).value(), 100);
}
