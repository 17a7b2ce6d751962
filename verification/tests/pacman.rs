use boottime::pacman::{latest_install_date, seconds_since};

#[test]
fn empty_database_has_no_latest_date() {
    assert_eq!(latest_install_date(&vec![]), None);
}

#[test]
fn all_dateless_packages_give_none() {
    assert_eq!(latest_install_date(&vec![None, None, None]), None);
}

#[test]
fn latest_date_is_the_maximum() {
    let dates = vec![None, Some(5), Some(3), None, Some(9), Some(7)];
    assert_eq!(latest_install_date(&dates), Some(9));
}

#[test]
fn single_date_wins() {
    assert_eq!(latest_install_date(&vec![None, Some(-4), None]), Some(-4));
}

#[test]
fn negative_dates_are_ordered_correctly() {
    assert_eq!(latest_install_date(&vec![Some(-10), Some(-3), Some(-7)]), Some(-3));
}

#[test]
fn age_of_a_past_moment() {
    assert_eq!(seconds_since(10, 3), Some(7));
    assert_eq!(seconds_since(10, 10), Some(0));
}

#[test]
fn future_moment_has_no_age() {
    assert_eq!(seconds_since(3, 10), None);
}
