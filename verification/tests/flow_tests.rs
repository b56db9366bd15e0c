use fluid_simulation::FlowFlags;

#[test]
fn flow_flags_bit_layout() {
    assert_eq!(FlowFlags::x_forw().bits(), 0x01);
    assert_eq!(FlowFlags::y_forw().bits(), 0x02);
    assert_eq!(FlowFlags::z_forw().bits(), 0x04);
    assert_eq!(FlowFlags::x_back().bits(), 0x08);
    assert_eq!(FlowFlags::y_back().bits(), 0x10);
    assert_eq!(FlowFlags::z_back().bits(), 0x20);
}

#[test]
fn flow_flags_empty_and_default() {
    assert_eq!(FlowFlags::empty().bits(), 0x00);
    assert_eq!(FlowFlags::default().bits(), 0x00);
    assert_eq!(FlowFlags::all().bits(), 0x3f);
}

#[test]
fn flow_flags_contains() {
    let blocked = FlowFlags::x_forw().union(FlowFlags::z_back());
    assert!(blocked.contains(FlowFlags::x_forw()));
    assert!(blocked.contains(FlowFlags::z_back()));
    assert!(!blocked.contains(FlowFlags::y_forw()));
    assert!(blocked.contains(FlowFlags::empty()));
    assert!(FlowFlags::all().contains(blocked));
}

#[test]
fn flow_flags_union_remove_round_trip() {
    let blocked = FlowFlags::y_back().union(FlowFlags::x_forw());
    assert_eq!(blocked.bits(), 0x11);
    let cleared = blocked.remove(FlowFlags::y_back());
    assert_eq!(cleared.bits(), 0x01);
    assert!(!cleared.contains(FlowFlags::y_back()));
}

#[test]
fn flow_flags_from_bits_truncate_masks() {
    assert_eq!(FlowFlags::from_bits_truncate(0xff).bits(), 0x3f);
    assert_eq!(FlowFlags::from_bits_truncate(0x08).bits(), 0x08);
    assert_eq!(FlowFlags::from_bits_truncate(0x48).bits(), 0x08);
}
