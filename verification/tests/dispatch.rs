use chaudloader::dispatch::ObserverCall;
use chaudloader::dispatch::on_game_load;
use chaudloader::dispatch::state_field_addr;

#[test]
fn p8_observers_called_once_in_order_with_same_arguments() {
    let plan = on_game_load(7, 0x8020_0040, 3);
    assert_eq!(plan.forward_version, 7);
    assert_eq!(
        plan.calls,
        vec![
            ObserverCall { observer: 0, version: 7, state: 0x8020_0040 },
            ObserverCall { observer: 1, version: 7, state: 0x8020_0040 },
            ObserverCall { observer: 2, version: 7, state: 0x8020_0040 },
        ]
    );
}

#[test]
fn s6_two_loads_with_rewritten_state_pointer() {
    let p1: u64 = 0x8020_0040;
    let p2: u64 = 0x8077_0000;
    let first = on_game_load(1, p1, 2);
    let second = on_game_load(2, p2, 2);
    let mut log: Vec<(usize, u32, u64)> = Vec::new();
    for c in first.calls.iter().chain(second.calls.iter()) {
        log.push((c.observer, c.version, c.state));
    }
    assert_eq!(log, vec![(0, 1, p1), (1, 1, p1), (0, 2, p2), (1, 2, p2)]);
}

#[test]
fn no_observers_no_calls() {
    let plan = on_game_load(3, 0x1234, 0);
    assert_eq!(plan.forward_version, 3);
    assert!(plan.calls.is_empty());
}

#[test]
fn state_field_is_read_at_fixed_offset() {
    assert_eq!(state_field_addr(0x8000_0000), 0x8000_0000 + 0x3f8);
    assert_eq!(state_field_addr(u64::MAX), 0x3f7);
}
