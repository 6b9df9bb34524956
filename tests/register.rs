use blockfree::Blockfree;

#[test]
fn read_immediately() {
    let blockfree = Blockfree::new(1);
    let replica = blockfree.replica();
    assert_eq!(replica.read(), Some(1));
}

#[test]
fn read_after_set() {
    let mut blockfree = Blockfree::new(1);
    let replica = blockfree.replica();
    blockfree.write(2);
    assert_eq!(replica.read(), Some(2));
}

#[test]
fn read_is_repeatable_without_writes() {
    let blockfree = Blockfree::new(7u64);
    let replica = blockfree.replica();
    for _ in 0..100 {
        assert_eq!(replica.read(), Some(7));
    }
}

#[test]
fn read_sees_last_of_many_writes() {
    let mut blockfree = Blockfree::new(0u32);
    let replica = blockfree.replica();
    for i in 1..=50u32 {
        blockfree.write(i);
        assert_eq!(replica.read(), Some(i));
    }
    assert_eq!(replica.read(), Some(50));
}

#[test]
fn reader_made_after_write_sees_new_value() {
    let mut blockfree = Blockfree::new((1i32, -1i32));
    blockfree.write((2, -2));
    let replica = blockfree.replica();
    assert_eq!(replica.read(), Some((2, -2)));
}

#[test]
fn readers_agree_and_outlive_each_other() {
    let mut blockfree = Blockfree::new(3u8);
    let first = blockfree.replica();
    let second = first.clone();
    assert_eq!(first.read(), Some(3));
    assert_eq!(second.read(), Some(3));
    drop(first);
    assert_eq!(second.read(), Some(3));
    blockfree.write(4);
    assert_eq!(second.read(), Some(4));
}

#[test]
fn reader_outlives_owner() {
    let blockfree = Blockfree::new(9i64);
    let replica = blockfree.replica();
    drop(blockfree);
    assert_eq!(replica.read(), Some(9));
}

#[test]
fn string_slices_written_in_sequence() {
    let mut blockfree = Blockfree::new("hello");
    let replica = blockfree.replica();
    blockfree.write("world");
    assert_eq!(replica.read(), Some("world"));
}
