use ehyve::capability::constrain;
use ehyve::segment::{decode_selector, encode_selector, gdt_limit, PrivilegeLevel};
use ehyve::{AccessRights, Error};

#[test]
fn selector_of_kernel_code_and_data() {
    assert_eq!(encode_selector(1, 0), Ok(0x08));
    assert_eq!(encode_selector(2, 0), Ok(0x10));
}

#[test]
fn selector_holds_index_and_privilege() {
    assert_eq!(encode_selector(5, 3), Ok(0x2b));
    assert_eq!(encode_selector(0, 0), Ok(0));
    assert_eq!(encode_selector(0x1fff, 3), Ok(0xfffb));
}

#[test]
fn selector_matches_the_x86_crate() {
    let made = x86::segmentation::SegmentSelector::new(7, x86::Ring::Ring2);
    assert_eq!(encode_selector(7, 2), Ok(made.bits()));
    assert_eq!(decode_selector(made.bits()), (made.index(), 2));
}

#[test]
fn selector_refuses_an_index_out_of_range() {
    assert_eq!(encode_selector(0x2000, 0), Err(Error::InvalidArgument));
    assert_eq!(encode_selector(0xffff, 3), Err(Error::InvalidArgument));
}

#[test]
fn selector_refuses_a_privilege_out_of_range() {
    assert_eq!(encode_selector(1, 4), Err(Error::InvalidArgument));
    assert_eq!(encode_selector(1, 255), Err(Error::InvalidArgument));
}

#[test]
fn selector_round_trip_over_the_whole_range() {
    let mut index: u16 = 0;
    while index <= 0x1fff {
        let mut privilege: u8 = 0;
        while privilege <= 3 {
            let encoded = encode_selector(index, privilege).unwrap();
            assert_eq!(decode_selector(encoded), (index, privilege));
            privilege += 1;
        }
        index += 1;
    }
}

#[test]
fn privilege_level_by_number() {
    assert_eq!(PrivilegeLevel::new(0), Ok(PrivilegeLevel::Ring0));
    assert_eq!(PrivilegeLevel::new(3), Ok(PrivilegeLevel::Ring3));
    assert_eq!(PrivilegeLevel::new(4), Err(Error::InvalidArgument));
    assert_eq!(PrivilegeLevel::Ring2.number(), 2);
}

fn rights(kind: u8, segment: bool, dpl: u8, present: bool, long: bool, db: bool, granularity: bool) -> AccessRights {
    AccessRights { kind, segment, dpl, present, available: false, long, db, granularity }
}

#[test]
fn access_rights_of_the_flat_code_segment() {
    let code = rights(0xb, true, 0, true, true, false, true);
    assert_eq!(code.encode(), Ok(0xa09b));
    assert_eq!(AccessRights::decode(0xa09b), code);
}

#[test]
fn access_rights_of_the_flat_data_segment() {
    let data = rights(0x3, true, 0, true, false, true, true);
    assert_eq!(data.encode(), Ok(0xc093));
    assert_eq!(AccessRights::decode(0xc093), data);
}

#[test]
fn access_rights_of_the_inert_system_segments() {
    let task = rights(0xb, false, 0, true, false, false, false);
    assert_eq!(task.encode(), Ok(0x8b));
    let ldt = rights(0x2, false, 0, true, false, false, false);
    assert_eq!(ldt.encode(), Ok(0x82));
    assert_eq!(AccessRights::decode(0x82), ldt);
}

#[test]
fn access_rights_each_field_has_its_bits() {
    let none = AccessRights {
        kind: 0,
        segment: false,
        dpl: 0,
        present: false,
        available: false,
        long: false,
        db: false,
        granularity: false,
    };
    assert_eq!(none.encode(), Ok(0));
    assert_eq!(AccessRights { kind: 0xf, ..none }.encode(), Ok(0x000f));
    assert_eq!(AccessRights { segment: true, ..none }.encode(), Ok(0x0010));
    assert_eq!(AccessRights { dpl: 3, ..none }.encode(), Ok(0x0060));
    assert_eq!(AccessRights { present: true, ..none }.encode(), Ok(0x0080));
    assert_eq!(AccessRights { available: true, ..none }.encode(), Ok(0x1000));
    assert_eq!(AccessRights { long: true, ..none }.encode(), Ok(0x2000));
    assert_eq!(AccessRights { db: true, ..none }.encode(), Ok(0x4000));
    assert_eq!(AccessRights { granularity: true, ..none }.encode(), Ok(0x8000));
}

#[test]
fn access_rights_refuse_fields_out_of_range() {
    let wide_kind = rights(0x10, true, 0, true, false, false, false);
    assert_eq!(wide_kind.encode(), Err(Error::InvalidArgument));
    let wide_dpl = rights(0x3, true, 4, true, false, false, false);
    assert_eq!(wide_dpl.encode(), Err(Error::InvalidArgument));
}

#[test]
fn access_rights_round_trip_over_all_valid_values() {
    for kind in 0u8..16 {
        for dpl in 0u8..4 {
            for flags in 0u8..64 {
                let value = AccessRights {
                    kind,
                    segment: flags & 1 != 0,
                    dpl,
                    present: flags & 2 != 0,
                    available: flags & 4 != 0,
                    long: flags & 8 != 0,
                    db: flags & 16 != 0,
                    granularity: flags & 32 != 0,
                };
                let encoded = value.encode().unwrap();
                assert_eq!(AccessRights::decode(encoded), value);
            }
        }
    }
}

#[test]
fn access_rights_decode_passes_over_other_bits() {
    assert_eq!(AccessRights::decode(0xffff_0f00), AccessRights::decode(0));
    assert_eq!(AccessRights::decode(0x1_a09b), AccessRights::decode(0xa09b));
}

#[test]
fn gdt_limit_is_the_last_byte_of_the_table() {
    assert_eq!(gdt_limit(3), Ok(23));
    assert_eq!(gdt_limit(1), Ok(7));
    assert_eq!(gdt_limit(8192), Ok(0xffff));
}

#[test]
fn gdt_limit_refuses_an_empty_or_oversized_table() {
    assert_eq!(gdt_limit(0), Err(Error::InvalidArgument));
    assert_eq!(gdt_limit(8193), Err(Error::InvalidArgument));
    assert_eq!(gdt_limit(u64::MAX), Err(Error::InvalidArgument));
}

#[test]
fn constrain_sets_and_clears_what_the_mask_demands() {
    // High half: bits 0 and 4 must be one. Low half: all but bits 1 and 8
    // may be left clear, so bits 1 and 8 must be zero.
    let cap: u64 = (0x0000_0011u64 << 32) | 0xffff_fefd;
    assert_eq!(constrain(0x0000_0102, cap), 0x0000_0011);
    assert_eq!(constrain(0xffff_ffff, cap), 0xffff_fefd);
    assert_eq!(constrain(0, cap), 0x11);
}

#[test]
fn constrain_keeps_what_the_mask_leaves_free() {
    let cap: u64 = 0x0000_0000_ffff_ffff;
    assert_eq!(constrain(0x1234_5678, cap), 0x1234_5678);
    assert_eq!(constrain(0xabcd_0000_1234_5678, cap), 0xabcd_0000_1234_5678);
}

#[test]
fn constrain_respects_the_mask_for_many_patterns() {
    let caps: [u64; 4] = [0x0000_0016_ffff_fff6, 0x0401_e172_ffff_ffff, 0x0000_0000_0000_0000, 0x8000_0001_8fff_0001];
    let wanted: [u64; 5] = [0, 0xffff_ffff, 0x5555_5555, 0xaaaa_aaaa, 0x0123_4567];
    for cap in caps {
        let one = cap >> 32;
        let zero = !cap & 0xffff_ffff;
        for desired in wanted {
            let effective = constrain(desired, cap);
            assert_eq!(effective & zero, 0);
            if one & zero == 0 {
                assert_eq!(effective & one, one);
            }
        }
    }
}

#[test]
fn constrain_under_a_contradictory_mask_clears_the_bit() {
    // Bit 0 is demanded as one by the high half and as zero by the low half.
    let cap: u64 = 0x0000_0001_0000_0000;
    assert_eq!(constrain(1, cap), 0);
}
