use chunk_merge::run::Run;

#[test]
fn vector_comes_back_in_order() {
    for n in 0..20u32 {
        let items: Vec<u32> = (0..n).collect();
        let run = Run::from_vec(items.clone());
        assert_eq!(run.is_empty(), n == 0);
        assert_eq!(run.into_vec(), items);
    }
}

#[test]
fn join_puts_one_after_the_other() {
    let run = Run::from_vec(vec![1, 2, 3]).join(Run::one(4)).join(Run::Empty);
    assert_eq!(run.into_vec(), vec![1, 2, 3, 4]);
}

#[test]
fn joined_empty_runs_are_empty() {
    let run: Run<u8> = Run::Empty.join(Run::Empty.join(Run::Empty));
    assert!(run.is_empty());
    assert_eq!(run.into_vec(), Vec::<u8>::new());
}
