use rax::arm::aarch64::gic::{Gic, GicConfig, InterruptState, RoutingMode};

#[test]
fn test_interrupt_state() {
    let mut state = InterruptState::Inactive;
    assert!(!state.is_pending());
    assert!(!state.is_active());

    state.set_pending();
    assert!(state.is_pending());
    assert!(!state.is_active());

    state.set_active();
    assert!(!state.is_pending());
    assert!(state.is_active());

    state.set_pending();
    assert!(state.is_pending());
    assert!(state.is_active());
    assert_eq!(state, InterruptState::ActivePending);
}

#[test]
fn test_gic_creation() {
    let gic = Gic::new(GicConfig::default());
    assert!(!gic.pending_interrupt(0));
}

#[test]
fn test_sgi() {
    let mut gic = Gic::new(GicConfig::default());

    // Enable group 1 and set priority mask
    if let Some(cpu) = gic.cpu_mut(0) {
        cpu.enable_grp1 = true;
        cpu.priority_mask = 0xFF;
        cpu.private_interrupts[0].enabled = true;
        cpu.private_interrupts[0].priority = 0x80;
    }

    // Send SGI
    gic.send_sgi(0, 1, false);

    // Should have pending interrupt
    assert!(gic.pending_interrupt(0));

    // Acknowledge
    let intid = gic.acknowledge(0);
    assert_eq!(intid, 0);

    // End of interrupt
    gic.end_of_interrupt(0, intid);
    assert!(!gic.pending_interrupt(0));
}

#[test]
fn test_spi() {
    let mut gic = Gic::new(GicConfig::default());

    // Configure SPI 32
    gic.set_enabled(32, true);
    gic.set_priority(32, 0x80);
    gic.set_routing(32, RoutingMode::Affinity(0));

    // Enable CPU interface
    if let Some(cpu) = gic.cpu_mut(0) {
        cpu.enable_grp1 = true;
        cpu.priority_mask = 0xFF;
    }

    // Set pending
    gic.set_pending(32);
    assert!(gic.pending_interrupt(0));

    // Acknowledge and EOI
    let intid = gic.acknowledge(0);
    assert_eq!(intid, 32);

    gic.end_of_interrupt(0, intid);
    // Level-sensitive - still pending
    assert!(gic.pending_interrupt(0));

    // Clear pending
    gic.clear_pending(32);
    assert!(!gic.pending_interrupt(0));
}

#[test]
fn test_dist_registers() {
    let gic = Gic::new(GicConfig::default());

    // GICD_TYPER
    let typer = gic.read_dist(0x0004);
    assert!((typer & 0x1F) > 0); // IT_Lines

    // GICD_IIDR
    let iidr = gic.read_dist(0x0008);
    assert_eq!(iidr & 0xFFF, 0x43B); // ARM implementer
}
