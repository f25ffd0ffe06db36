use axnet::port::{EphemeralPorts, PORT_END, PORT_START};
use std::collections::HashSet;

#[test]
fn ephemeral_ports_distinct_then_wrap() {
    let mut ports = EphemeralPorts::new();
    let mut seen = HashSet::new();
    for _ in 0..16384u32 {
        let p = ports.get_ephemeral_port();
        assert!(p >= PORT_START && p <= PORT_END);
        assert!(seen.insert(p));
    }
    assert_eq!(seen.len(), 16384);
    assert_eq!(ports.get_ephemeral_port(), 0xc000);
}

#[test]
fn ephemeral_ports_start_at_first() {
    let mut ports = EphemeralPorts::new();
    assert_eq!(ports.get_ephemeral_port(), 0xc000);
    assert_eq!(ports.get_ephemeral_port(), 0xc001);
}
