use can_id::{ExtendedId, Id, IdReg, StandardId};
use std::cmp::Ordering;

fn std_reg(raw: u16) -> IdReg {
    IdReg::new_standard(StandardId::new(raw).unwrap())
}

fn ext_reg(raw: u32) -> IdReg {
    IdReg::new_extended(ExtendedId::new(raw).unwrap())
}

#[test]
fn new_keeps_words() {
    let r = IdReg::new(0x0030_0000, 0x1234_0000);
    assert_eq!(r.to_id_reg(), 0x1234_0000);
    assert!(r.is_extended());
    assert!(r.rtr());
}

#[test]
fn standard_encoding_layout() {
    let r = std_reg(0x7FF);
    assert_eq!(r.to_id_reg(), 0x7FF << 18);
    assert!(r.is_standard());
    assert!(!r.is_extended());
    assert!(!r.rtr());
    assert_eq!(r, IdReg::new(0, 0x1FFC_0000));
}

#[test]
fn extended_encoding_layout() {
    let r = ext_reg(0x0C_0005);
    assert_eq!(r.to_id_reg(), 0x0C_0005);
    assert!(r.is_extended());
    assert!(!r.is_standard());
    assert!(!r.rtr());
    assert_eq!(r, IdReg::new(0x0020_0000, 0x0C_0005));
    assert_eq!(ext_reg(0x1FFF_FFFF).to_id_reg(), 0x1FFF_FFFF);
}

#[test]
fn with_rtr_sets_and_clears() {
    let r = std_reg(5);
    let remote = r.with_rtr(true);
    assert!(remote.rtr());
    assert!(!r.rtr());
    assert_eq!(remote, IdReg::new(0x0010_0000, 5 << 18));
    let data = remote.with_rtr(false);
    assert!(!data.rtr());
    assert_eq!(data, r);
    let e = ext_reg(9).with_rtr(true);
    assert!(e.is_extended());
    assert!(e.rtr());
}

#[test]
fn standard_round_trip() {
    for raw in [0u16, 1, 5, 0x400, 0x7FE, 0x7FF] {
        let s = StandardId::new(raw).unwrap();
        assert_eq!(IdReg::new_standard(s).to_id(), Id::Standard(s));
        assert_eq!(IdReg::new_standard(s).with_rtr(true).to_id(), Id::Standard(s));
    }
}

#[test]
fn extended_round_trip() {
    for raw in [0u32, 1, 0x800, 0x4000, 0x0C_0005, 0x1FFC_0000, 0x1FFF_FFFF] {
        let e = ExtendedId::new(raw).unwrap();
        assert_eq!(IdReg::new_extended(e).to_id(), Id::Extended(e));
        assert_eq!(IdReg::new_extended(e).with_rtr(true).to_id(), Id::Extended(e));
    }
}

#[test]
fn extended_encoding_is_one_to_one() {
    assert_ne!(ext_reg(0), ext_reg(0x4000));
    assert_ne!(ext_reg(1), ext_reg(1 << 18));
    assert_ne!(ext_reg(5), std_reg(5));
}

#[test]
fn lower_standard_id_is_greater() {
    assert!(std_reg(0) > std_reg(1));
    assert!(std_reg(0x7FE) > std_reg(0x7FF));
    assert!(std_reg(0x7FF) < std_reg(0));
    assert_eq!(std_reg(3).cmp(&std_reg(4)), Ordering::Greater);
}

#[test]
fn scenario_id_five_beats_id_ten() {
    let five = IdReg::new_standard(StandardId::new(5).unwrap());
    let ten = IdReg::new_standard(StandardId::new(10).unwrap());
    assert!(five > ten);
    assert_eq!(five.cmp(&ten), Ordering::Greater);
    assert_eq!(ten.partial_cmp(&five), Some(Ordering::Less));
}

#[test]
fn data_frame_beats_remote_frame() {
    let s = std_reg(0x123);
    assert!(s.with_rtr(false) > s.with_rtr(true));
    assert_eq!(s.with_rtr(true).cmp(&s.with_rtr(false)), Ordering::Less);
    let e = ext_reg(0x55);
    assert!(e.with_rtr(false) > e.with_rtr(true));
}

#[test]
fn lower_id_beats_data_frame_flag() {
    assert!(std_reg(1).with_rtr(true) > std_reg(2).with_rtr(false));
    assert!(ext_reg(1).with_rtr(true) > ext_reg(2).with_rtr(false));
}

#[test]
fn standard_beats_extended_with_same_base() {
    let e = ExtendedId::new(0x0C_0005).unwrap();
    let s = e.standard_id();
    assert_eq!(s.as_raw(), 3);
    for s_rtr in [false, true] {
        for e_rtr in [false, true] {
            let a = IdReg::new_standard(s).with_rtr(s_rtr);
            let b = IdReg::new_extended(e).with_rtr(e_rtr);
            assert!(a > b);
            assert!(b < a);
            assert_eq!(a.cmp(&b), Ordering::Greater);
            assert_eq!(b.cmp(&a), Ordering::Less);
        }
    }
}

#[test]
fn cross_type_compares_base_ids() {
    // Base identifier of 0x4_0005 is 1.
    let e = ext_reg(0x4_0005);
    assert!(std_reg(0) > e);
    assert!(std_reg(1) > e);
    assert!(std_reg(2) < e);
    assert!(std_reg(3) < e);
    assert_eq!(std_reg(3).cmp(&e), Ordering::Less);
    // Base identifier of 1 is 0.
    assert!(std_reg(0) > ext_reg(1));
    assert!(std_reg(1) < ext_reg(1));
}

#[test]
fn standard_max_beats_extended_with_base_max() {
    let s = std_reg(0x7FF);
    let e = ext_reg(0x1FFC_0000);
    assert_eq!(s.cmp(&e), Ordering::Greater);
    assert_eq!(e.cmp(&s), Ordering::Less);
    assert!(s.with_rtr(true) > e.with_rtr(false));
}

#[test]
fn lower_extended_id_is_greater() {
    assert!(ext_reg(0x2000) > ext_reg(0x4000));
    assert!(ext_reg(0) > ext_reg(0x1FFF_FFFF));
    assert_eq!(ext_reg(0x1FFF_FFFE).cmp(&ext_reg(0x1FFF_FFFF)), Ordering::Greater);
}

#[test]
fn order_is_reflexive() {
    for r in [std_reg(0), std_reg(0x7FF).with_rtr(true), ext_reg(0), ext_reg(0x1FFF_FFFF)] {
        assert_eq!(r.cmp(&r), Ordering::Equal);
        assert!(r <= r && r >= r);
    }
}

#[test]
fn order_is_antisymmetric_and_total() {
    let regs = [
        std_reg(0),
        std_reg(0).with_rtr(true),
        std_reg(3),
        ext_reg(0),
        ext_reg(1),
        ext_reg(1).with_rtr(true),
        ext_reg(0x0C_0005),
    ];
    for a in regs.iter() {
        for b in regs.iter() {
            let ab = a.cmp(b);
            assert_eq!(ab, b.cmp(a).reverse());
            assert_eq!(ab == Ordering::Equal, a == b);
            let n = [a < b, a == b, a > b].iter().filter(|x| **x).count();
            assert_eq!(n, 1);
        }
    }
}

#[test]
fn order_is_transitive() {
    let regs = [
        std_reg(0),
        std_reg(1).with_rtr(true),
        std_reg(3),
        ext_reg(0),
        ext_reg(1),
        ext_reg(1).with_rtr(true),
        ext_reg(0x0C_0005),
        ext_reg(0x1FFF_FFFF),
    ];
    for a in regs.iter() {
        for b in regs.iter() {
            for c in regs.iter() {
                if a <= b && b <= c {
                    assert!(a <= c);
                }
            }
        }
    }
}
