use tortuga::{SlotIndex, SwitchBoard};

#[test]
fn basic() {
    let mut board = SwitchBoard::new();

    let slot1 = board.reserve();
    let slot2 = board.reserve();
    let slot3 = board.reserve();

    board.set(slot1, Some(42));
    board.set(slot2, Some(0));

    board.remove(slot2);

    assert_eq!(*board.get(slot1), Some(42));
    assert_eq!(*board.get(slot2), None);
    assert_eq!(*board.get(slot3), None);
}

#[test]
fn removed_slot_is_handed_out_again() {
    let mut board = SwitchBoard::new();

    let first = board.add('a');
    let second = board.add('b');
    let third = board.add('c');

    board.remove(second);
    let again = board.add('d');

    assert_eq!(again, second);
    assert_eq!(*board.get(first), Some('a'));
    assert_eq!(*board.get(again), Some('d'));
    assert_eq!(*board.get(third), Some('c'));
    assert_eq!(*board.value_at(1), 'd');
}

#[test]
fn removing_the_last_slot_shrinks_the_board() {
    let mut board = SwitchBoard::new();

    let first = board.add(1u8);
    let second = board.add(2u8);

    board.remove(second);
    let next = board.add(3u8);

    assert_eq!(next, second);
    assert_eq!(*board.get(first), Some(1));
    assert_eq!(*board.get(next), Some(3));
}

#[test]
fn slots_count_from_one() {
    assert_eq!(SlotIndex::default().get(), 1);
    assert_eq!(SlotIndex::new(7).get(), 7);

    let mut board: SwitchBoard<u8> = SwitchBoard::with_capacity(4);

    assert_eq!(board.reserve().get(), 1);
    assert_eq!(board.reserve().get(), 2);
}

#[test]
#[should_panic]
fn remove_last() {
    let mut board: SwitchBoard<()> = SwitchBoard::new();
    let slot1 = board.reserve();

    board.remove(slot1);

    let _ = board.get(slot1);
}

#[test]
#[should_panic]
fn index_usize_empty() {
    let mut board: SwitchBoard<()> = SwitchBoard::new();

    board.reserve();
    let _ = board.value_at(0);
}

#[test]
#[should_panic]
fn index_usize_too_large() {
    let board: SwitchBoard<()> = SwitchBoard::new();

    let _ = board.value_at(0);
}
