use paged::pagination::Pagination;

#[test]
fn first_of_nonempty() {
    let p = Pagination::new(vec![7i64, 3, 9], 1);
    assert_eq!(p.first(), 7);
}

#[test]
fn first_of_empty_is_default() {
    let p: Pagination<i64> = Pagination::new(vec![], 0);
    assert_eq!(p.first(), 0);
}

#[test]
fn first_opt_distinguishes_empty() {
    let p = Pagination::new(vec![7i64, 3, 9], 1);
    assert_eq!(p.first_opt(), Some(7));
    let q: Pagination<i64> = Pagination::new(vec![], 0);
    assert_eq!(q.first_opt(), None);
}

#[test]
fn clone_keeps_items_and_page() {
    let p = Pagination::new(vec![7i64, 3, 9], 4);
    let c = p.clone();
    assert_eq!(c.page(), p.page());
    assert_eq!(c.len(), p.len());
    for i in 0..p.len() {
        assert_eq!(c.get(i), p.get(i));
    }
    // the clone owns its items: dropping it leaves the original intact
    drop(c);
    assert_eq!(p.first(), 7);
    assert_eq!(p.page(), 4);
}

#[test]
fn get_past_the_end_is_none() {
    let p = Pagination::new(vec![7i64], 0);
    assert_eq!(p.get(0), Some(7));
    assert_eq!(p.get(1), None);
}
