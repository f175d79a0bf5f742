use comprehensive_rust::pairs::{dup2, duplicate};

#[test]
fn duplicate_gives_two_clones() {
    assert_eq!(duplicate(7), (7, 7));
    assert_eq!(duplicate(String::from("twin")), (String::from("twin"), String::from("twin")));
    assert_eq!(duplicate(vec![1, 2]), (vec![1, 2], vec![1, 2]));
}

#[test]
fn dup2_gives_two_clones() {
    assert_eq!(dup2('x'), ('x', 'x'));
    assert_eq!(dup2(Some(vec!["a"])), (Some(vec!["a"]), Some(vec!["a"])));
}
