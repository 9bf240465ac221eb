use rax::backend::hvf::convert::{
    segment_from_vmcs, segment_to_access_rights, EptViolationQualification, IoDirection,
    IoExitQualification,
};
use rax::cpu::Segment;

#[test]
fn io_qualification_fields() {
    // OUT DX, AL to port 0x3F8: size 1, out.
    let q = IoExitQualification::from_qualification(0x03F8_0000);
    assert_eq!(q.size, 1);
    assert_eq!(q.direction, IoDirection::Out);
    assert!(!q.string && !q.rep);
    assert_eq!(q.port, 0x3F8);
    // REP INSW from port 0x1F0: size 2, in, string, rep.
    let q = IoExitQualification::from_qualification(0x01F0_0000 | 0x20 | 0x10 | 0x8 | 0x1);
    assert_eq!(q.size, 2);
    assert_eq!(q.direction, IoDirection::In);
    assert!(q.string && q.rep);
    assert_eq!(q.port, 0x1F0);
    // Dword access; a reserved size encoding reads as one byte.
    assert_eq!(IoExitQualification::from_qualification(0x3).size, 4);
    assert_eq!(IoExitQualification::from_qualification(0x2).size, 1);
    // Bits above the port are ignored.
    assert_eq!(IoExitQualification::from_qualification(0xFFFF_0000_0000_0000).port, 0);
}

#[test]
fn ept_qualification_fields() {
    let q = EptViolationQualification::from_qualification(0x182);
    assert!(!q.read && q.write && !q.fetch);
    assert!(!q.readable && !q.writable && !q.executable);
    assert!(q.guest_linear_valid && q.guest_physical_valid);
    let q = EptViolationQualification::from_qualification(0x3D);
    assert!(q.read && !q.write && q.fetch && q.readable && q.writable && q.executable);
    assert!(!q.guest_linear_valid && !q.guest_physical_valid);
}

#[test]
fn segment_access_rights_round_trip() {
    let cs = Segment {
        base: 0x1000,
        limit: 0xFFFF_FFFF,
        selector: 0x08,
        type_: 0xB,
        present: true,
        dpl: 3,
        db: false,
        s: true,
        l: true,
        g: true,
        avl: false,
        unusable: false,
    };
    let ar = segment_to_access_rights(&cs);
    assert_eq!(ar, 0xB | 0x10 | 0x60 | 0x80 | 0x2000 | 0x8000);
    assert_eq!(segment_from_vmcs(0x08, 0x1000, 0xFFFF_FFFF, ar), cs);
    let unusable = segment_from_vmcs(0, 0, 0, 0x1_0000);
    assert!(unusable.unusable && !unusable.present);
    assert_eq!(segment_to_access_rights(&unusable), 0x1_0000);
}

#[test]
fn segment_access_rights_fields_are_ored_as_given() {
    let seg = Segment {
        base: 0,
        limit: 0,
        selector: 0,
        type_: 0x1B,
        present: false,
        dpl: 5,
        db: false,
        s: false,
        l: false,
        g: false,
        avl: false,
        unusable: false,
    };
    // Type and DPL are not cut to their field widths.
    assert_eq!(segment_to_access_rights(&seg), 0x1B | (5 << 5));
}
