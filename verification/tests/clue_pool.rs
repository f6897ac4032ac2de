use yeats::bowl::CluePool;

#[test]
fn test_clue_pool() {
    let clues = [
        ("player", "test clue"),
        ("player", "a different clue"),
        ("a different player", "even another clue"),
    ]
    .to_vec();
    let (clue, pool) = CluePool::new(clues).draw(|c| c.0 == "player");
    assert_eq!(clue, Some(("a different player", "even another clue")));
    assert_eq!(
        pool.to_vec(),
        [("player", "test clue"), ("player", "a different clue")].to_vec()
    );
}

#[test]
fn test_clue_pool_no_good_options() {
    let clues = [("player", "test clue"), ("player", "a different clue")].to_vec();
    let (clue, pool) = CluePool::new(clues).draw(|c| c.0 == "player");
    assert_eq!(clue, Some(("player", "a different clue")));
    assert_eq!(pool.to_vec(), [("player", "test clue")].to_vec());
}

#[test]
fn clue_pool_empty_draws_nothing() {
    let clues: Vec<(&str, &str)> = Vec::new();
    let (clue, pool) = CluePool::new(clues).draw(|_c| false);
    assert_eq!(clue, None);
    assert!(pool.to_vec().is_empty());
}

#[test]
fn clue_pool_accepts_first_acceptable() {
    let clues = [("a", "one"), ("b", "two"), ("c", "three")].to_vec();
    let (clue, pool) = CluePool::new(clues).draw(|c| c.0 == "a");
    assert_eq!(clue, Some(("b", "two")));
    assert_eq!(pool.to_vec(), [("c", "three"), ("a", "one")].to_vec());
}
