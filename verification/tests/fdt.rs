use rax::arch::fdt::FdtBuilder;

#[test]
fn minimal_tree_layout() {
    let mut fdt = FdtBuilder::new();
    fdt.begin_node("");
    fdt.prop_str("compatible", "test");
    fdt.prop_u32("#address-cells", 2);
    fdt.begin_node("memory@0");
    fdt.prop_str("device_type", "memory");
    fdt.end_node();
    fdt.end_node();
    let blob = fdt.finish();

    // Header sanity.
    let magic = u32::from_be_bytes(blob[0..4].try_into().unwrap());
    let total = u32::from_be_bytes(blob[4..8].try_into().unwrap());
    let struct_off = u32::from_be_bytes(blob[8..12].try_into().unwrap()) as usize;
    let strings_off = u32::from_be_bytes(blob[12..16].try_into().unwrap()) as usize;
    let version = u32::from_be_bytes(blob[20..24].try_into().unwrap());
    assert_eq!(magic, 0xD00D_FEED);
    assert_eq!(total as usize, blob.len());
    assert_eq!(version, 17);
    assert!(struct_off < strings_off && strings_off < blob.len());

    // Structure starts with BEGIN_NODE of the root.
    let first = u32::from_be_bytes(blob[struct_off..struct_off + 4].try_into().unwrap());
    assert_eq!(first, 0x1);
    // Last token is FDT_END.
    let end = u32::from_be_bytes(blob[strings_off - 4..strings_off].try_into().unwrap());
    assert_eq!(end, 0x9);
    // Strings table contains deduplicated property names.
    let strings = &blob[strings_off..];
    assert!(strings.windows(11).any(|w| w == b"compatible\0"));
}

#[test]
fn alignment_of_props() {
    let mut fdt = FdtBuilder::new();
    fdt.begin_node("");
    fdt.prop_str("bootargs", "abc"); // 4 bytes incl NUL -> aligned
    fdt.prop_str("stdout-path", "abcd"); // 5 bytes -> padded to 8
    fdt.end_node();
    let blob = fdt.finish();
    assert_eq!(blob.len() % 4, 0);
}

#[test]
fn repeated_property_names_are_stored_once() {
    let mut fdt = FdtBuilder::new();
    fdt.begin_node("");
    fdt.prop_u32("reg", 1);
    fdt.begin_node("child");
    fdt.prop_u32("reg", 2);
    fdt.end_node();
    fdt.end_node();
    let blob = fdt.finish();
    let strings_off = u32::from_be_bytes(blob[12..16].try_into().unwrap()) as usize;
    let size_strings = u32::from_be_bytes(blob[32..36].try_into().unwrap()) as usize;
    // "reg\0" once: exactly four bytes.
    assert_eq!(size_strings, 4);
    assert_eq!(&blob[strings_off..strings_off + 4], b"reg\0");
}

#[test]
fn u64_property_is_two_big_endian_cells() {
    let mut fdt = FdtBuilder::new();
    fdt.begin_node("");
    fdt.prop_u64("x", 0x0102_0304_0506_0708);
    fdt.end_node();
    let blob = fdt.finish();
    // header(40) + rsvmap(16) + BEGIN_NODE(4) + "\0" padded (4) + PROP(4) + len(4) + nameoff(4)
    let data_off = 56 + 4 + 4 + 12;
    assert_eq!(&blob[data_off - 8..data_off - 4], &[0, 0, 0, 8]);
    assert_eq!(&blob[data_off..data_off + 8], &[1, 2, 3, 4, 5, 6, 7, 8]);
}
