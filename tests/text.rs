use worker_pool::advanced::{outline, split_at_mut};
use worker_pool::basics::Pair;
use worker_pool::text::{employee_and_department, words};

#[test]
fn words_split_like_std() {
    for s in ["", "   ", "hello world wonderful world", "\ta  b\r\nc\u{3000}d ", "x"] {
        let expected: Vec<&str> = s.split_whitespace().collect();
        assert_eq!(expected, words(s), "text {:?}", s);
    }
}

#[test]
fn employee_commands() {
    assert_eq!(
        employee_and_department("Add Sally to Engineering"),
        Some((String::from("Sally"), String::from("Engineering")))
    );
    assert_eq!(
        employee_and_department("  Add Amir  to Sales and more"),
        Some((String::from("Amir"), String::from("Sales")))
    );
    assert_eq!(employee_and_department("Add Sally to"), None);
    assert_eq!(employee_and_department(""), None);
}

#[test]
fn split_at_mut_writes_through() {
    let mut values = [1, 2, 3, 4, 5];
    {
        let (left, right) = split_at_mut(&mut values, 2);
        assert_eq!(left, &mut [1, 2]);
        assert_eq!(right, &mut [3, 4, 5]);
        left[0] = 10;
        right[0] = 30;
    }
    assert_eq!(values, [10, 2, 30, 4, 5]);
    let (l, r) = split_at_mut(&mut values, 5);
    assert_eq!(l.len(), 5);
    assert!(r.is_empty());
}

#[test]
fn outline_boxes_the_text() {
    assert_eq!(
        outline("(1, 2)"),
        vec!["**********", "*        *", "* (1, 2) *", "*        *", "**********"]
    );
    assert_eq!(outline(""), vec!["****", "*  *", "*  *", "*  *", "****"]);
}

#[test]
fn pair_holds_both() {
    let p = Pair::new(10, 20);
    assert_eq!((p.x, p.y), (10, 20));
}
