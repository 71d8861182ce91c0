use test_generator::batch::create_batch;

#[test]
/// Test general case
fn batches_cover_all_items_without_overlap() {
    let v: Vec<_> = (0..10).collect();
    let total = 3;

    let s0 = create_batch(&v, total, 0); // 4 items
    let s1 = create_batch(&v, total, 1); // 3 items
    let s2 = create_batch(&v, total, 2); // 3 items

    assert_eq!(s0, vec![0, 1, 2, 3]);
    assert_eq!(s1, vec![4, 5, 6]);
    assert_eq!(s2, vec![7, 8, 9]);

    let v: Vec<_> = (0..11).collect();
    let total = 3;

    let s0 = create_batch(&v, total, 0); // 4 items
    let s1 = create_batch(&v, total, 1); // 3 items
    let s2 = create_batch(&v, total, 2); // 3 items

    assert_eq!(s0, vec![0, 1, 2, 3]);
    assert_eq!(s1, vec![4, 5, 6, 7]);
    assert_eq!(s2, vec![8, 9, 10]);
}

#[test]
/// Test that having more batches than items works correctly - extra batches are empty
fn more_batches_than_items_is_ok() {
    let v: Vec<_> = (0..3).collect();
    let total = 5;

    let got: Vec<Vec<_>> = (0..total).map(|i| create_batch(&v, total, i)).collect();
    assert_eq!(got, vec![vec![0], vec![1], vec![2], vec![], vec![]]);
}

#[test]
/// Test that we can provide an empty input list and get an empty list back
fn empty_input() {
    let v: Vec<i32> = vec![];
    assert!(create_batch(&v, 4, 0).is_empty());
}

#[test]
/// Test that providing total=0 returns the full list
fn zero_total() {
    let v: Vec<_> = (0..10).collect();
    assert_eq!(create_batch(&v, 0, 0), v);
}

#[test]
fn concatenated_batches_give_back_the_list() {
    let v: Vec<u32> = (0..23).collect();
    let total = 4;
    let mut all = Vec::new();
    for i in 0..total {
        let b = create_batch(&v, total, i);
        assert!(b.len() == 5 || b.len() == 6);
        all.extend(b);
    }
    assert_eq!(all, v);
}
