use blectl::gatt::{locate, read_target, write_target, CharacteristicInfo, ServiceInfo};

const S1: u128 = 0x0000_180f_0000_1000_8000_0080_5f9b_34fb;
const C1: u128 = 0x0000_2a19_0000_1000_8000_0080_5f9b_34fb;
const C2: u128 = 0x0000_2a1a_0000_1000_8000_0080_5f9b_34fb;

fn ch(uuid: u128, readable: bool) -> CharacteristicInfo {
    CharacteristicInfo { uuid, readable }
}

fn svc(uuid: u128, characteristics: Vec<CharacteristicInfo>) -> ServiceInfo {
    ServiceInfo { uuid, characteristics }
}

/// Values stored on the simulated device, by service and characteristic.
fn fetch(values: &[Vec<Vec<u8>>], at: Option<(usize, usize)>) -> Option<Vec<u8>> {
    at.map(|(i, j)| values[i][j].clone())
}

#[test]
fn read_returns_stored_value() {
    let tree = vec![svc(S1, vec![ch(C1, true)])];
    let values = vec![vec![vec![0x01u8, 0x02]]];
    assert_eq!(read_target(&tree, C1), Some((0, 0)));
    assert_eq!(fetch(&values, read_target(&tree, C1)), Some(vec![0x01, 0x02]));
}

#[test]
fn read_of_absent_uuid_returns_nothing() {
    let tree = vec![svc(S1, vec![ch(C1, true)])];
    assert_eq!(read_target(&tree, C2), None);
    assert_eq!(write_target(&tree, C2), None);
    assert_eq!(locate(&tree, C2), None);
}

#[test]
fn unreadable_characteristic_is_not_read() {
    let tree = vec![svc(S1, vec![ch(C2, true), ch(C1, false)])];
    assert_eq!(locate(&tree, C1), Some((0, 1)));
    assert_eq!(read_target(&tree, C1), None);
    assert_eq!(write_target(&tree, C1), Some((0, 1)));
}

#[test]
fn first_match_wins_across_services() {
    let tree = vec![
        svc(S1, vec![ch(C2, true)]),
        svc(S1, vec![]),
        svc(C2, vec![ch(S1, true), ch(C1, false)]),
        svc(C1, vec![ch(C1, true)]),
    ];
    assert_eq!(locate(&tree, C1), Some((2, 1)));
    assert_eq!(read_target(&tree, C1), None);
    assert_eq!(write_target(&tree, C1), Some((2, 1)));
    assert_eq!(read_target(&tree, C2), Some((0, 0)));
}

#[test]
fn empty_tree_has_no_match() {
    let tree: Vec<ServiceInfo> = vec![];
    assert_eq!(locate(&tree, C1), None);
    let tree = vec![svc(S1, vec![])];
    assert_eq!(read_target(&tree, S1), None);
}
