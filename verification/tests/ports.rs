use intel8080::ports::{rising_edges, triggers, Controls, PORT0, SAMPLES};

#[test]
fn idle_controls() {
    let controls = Controls::new();
    assert_eq!(controls.port1(), 0b0000_1000);
    assert_eq!(controls.port2(), 0b0000_0000);
    assert_eq!(PORT0, 0x8F);
    assert_eq!(SAMPLES, 10);
}

#[test]
fn port_one_layout() {
    let mut controls = Controls::new();
    controls.coin = true;
    assert_eq!(controls.port1(), 0b0000_1001);
    controls = Controls::new();
    controls.p2_start = true;
    assert_eq!(controls.port1(), 0b0000_1010);
    controls = Controls::new();
    controls.p1_start = true;
    assert_eq!(controls.port1(), 0b0000_1100);
    controls = Controls::new();
    controls.p1_fire = true;
    assert_eq!(controls.port1(), 0b0001_1000);
    controls = Controls::new();
    controls.p1_left = true;
    assert_eq!(controls.port1(), 0b0010_1000);
    controls = Controls::new();
    controls.p1_right = true;
    assert_eq!(controls.port1(), 0b0100_1000);
    assert_eq!(controls.port2(), 0);
}

#[test]
fn port_two_layout() {
    let mut controls = Controls::new();
    controls.p2_fire = true;
    assert_eq!(controls.port2(), 0b0001_0000);
    controls = Controls::new();
    controls.p2_left = true;
    assert_eq!(controls.port2(), 0b0010_0000);
    controls = Controls::new();
    controls.p2_right = true;
    assert_eq!(controls.port2(), 0b0100_0000);
    assert_eq!(controls.port1(), 0b0000_1000);
}

#[test]
fn all_controls_held() {
    let controls = Controls {
        coin: true,
        p1_start: true,
        p2_start: true,
        p1_fire: true,
        p1_left: true,
        p1_right: true,
        p2_fire: true,
        p2_left: true,
        p2_right: true,
    };
    assert_eq!(controls.port1(), 0b0111_1111);
    assert_eq!(controls.port2(), 0b0111_0000);
}

#[test]
fn sounds_start_on_rising_bits() {
    assert_eq!(rising_edges(0b0000_0000, 0b0000_0001), 0b0000_0001);
    assert_eq!(rising_edges(0b0000_0001, 0b0000_0001), 0b0000_0000);
    assert_eq!(rising_edges(0b0000_0001, 0b0000_0000), 0b0000_0000);
    assert_eq!(rising_edges(0b0000_0101, 0b0001_1110), 0b0001_1010);
}

#[test]
fn sounds_ignore_the_high_bits() {
    assert_eq!(rising_edges(0b0000_0000, 0b1110_0000), 0b0000_0000);
    assert_eq!(rising_edges(0b0000_0000, 0b1111_1111), 0b0001_1111);
}

#[test]
fn trigger_bits() {
    assert_eq!(triggers(0b0000_0001, 0), true);
    assert_eq!(triggers(0b0000_0001, 1), false);
    assert_eq!(triggers(0b10_0000_0000, 9), true);
    assert_eq!(triggers(0xFFFF, 15), true);
    assert_eq!(triggers(0xFFFF, 16), false);
    assert_eq!(triggers(0xFFFF, 1000), false);
}
