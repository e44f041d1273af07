use cleanfloat::ieee::{Binary32, Binary64};
use cleanfloat::nanpack::{Decoded, NanPack, PayloadOverflow};

#[test]
fn f64() {
    let f: Binary64 = NanPack::set_payload(0).unwrap();
    assert!(f64::from_bits(f.0).is_nan());
    let f_bits: u64 = f.0;
    let n_bits: u64 = f64::NAN.to_bits();
    assert_eq!(f_bits - 1, n_bits);
    assert_eq!(f.get_payload(), Some(0));
}

#[test]
fn various() {
    for i in 0..100 {
        let i = i * 4931;
        let f: Binary64 = NanPack::set_payload(i).unwrap();
        assert!(f64::from_bits(f.0).is_nan());
        assert_eq!(f.get_payload(), Some(i));
    }
}

#[test]
fn f32() {
    let f: Binary32 = NanPack::set_payload(0).unwrap();
    assert!(f32::from_bits(f.0).is_nan());
    let f_bits: u32 = f.0;
    let n_bits: u32 = f32::NAN.to_bits();
    assert_eq!(f_bits - 1, n_bits);
    assert_eq!(f.get_payload(), Some(0));
}

#[test]
#[should_panic]
fn overflow_f32() {
    let _: Binary32 = NanPack::set_payload(0x20_0000 as usize).unwrap();
}

#[test]
#[should_panic]
fn overflow_f64() {
    let _: Binary64 = NanPack::set_payload(usize::MAX).unwrap();
}

#[test]
fn overflow_is_an_error_f32() {
    let r: Result<Binary32, PayloadOverflow> = NanPack::set_payload(0x20_0000usize);
    assert_eq!(r, Err(PayloadOverflow));
}

#[test]
fn boundary_f32() {
    let last: Result<Binary32, PayloadOverflow> = NanPack::set_payload(0x1F_FFFEusize);
    assert_eq!(last, Ok(Binary32(0x7fdf_ffff)));
    assert_eq!(last.unwrap().get_payload(), Some(0x1F_FFFE));
    let beyond: Result<Binary32, PayloadOverflow> = NanPack::set_payload(0x1F_FFFFusize);
    assert_eq!(beyond, Err(PayloadOverflow));
}

#[test]
fn boundary_f64() {
    let last: Result<Binary64, PayloadOverflow> = NanPack::set_payload(0x7_FFFF_FFFF_FFFEusize);
    assert_eq!(last, Ok(Binary64(0x7fff_ffff_ffff_ffff)));
    assert_eq!(last.unwrap().get_payload(), Some(0x7_FFFF_FFFF_FFFE));
    let beyond: Result<Binary64, PayloadOverflow> = NanPack::set_payload(0x7_FFFF_FFFF_FFFFusize);
    assert_eq!(beyond, Err(PayloadOverflow));
    let far: Result<Binary64, PayloadOverflow> = NanPack::set_payload(usize::MAX);
    assert_eq!(far, Err(PayloadOverflow));
}

#[test]
fn exact_bits() {
    let f: Binary64 = NanPack::set_payload(5).unwrap();
    assert_eq!(f, Binary64(0x7ff8_0000_0000_0006));
    let g: Binary32 = NanPack::set_payload(5).unwrap();
    assert_eq!(g, Binary32(0x7fc0_0006));
}

#[test]
fn round_trip_near_the_boundary() {
    for i in 0x1F_FF00usize..0x1F_FFFF {
        let f: Binary32 = NanPack::set_payload(i).unwrap();
        assert!(f.is_payloaded());
        assert_eq!(f.decode(), Decoded::Payload(i));
    }
}

#[test]
fn decode_tells_three_kinds_apart() {
    assert_eq!(Binary64(1.5f64.to_bits()).decode(), Decoded::NotNaN);
    assert_eq!(Binary64(f64::INFINITY.to_bits()).decode(), Decoded::NotNaN);
    assert_eq!(Binary64(f64::NAN.to_bits()).decode(), Decoded::EmptyNaN);
    assert_eq!(Binary64(0x7ff8_0000_0000_002a).decode(), Decoded::Payload(41));
    assert_eq!(Binary32(1.5f32.to_bits()).decode(), Decoded::NotNaN);
    assert_eq!(Binary32(f32::NAN.to_bits()).decode(), Decoded::EmptyNaN);
    assert_eq!(Binary32(0x7fc0_002a).decode(), Decoded::Payload(41));
}

#[test]
fn empty_nan_carries_nothing() {
    let nan = Binary64(f64::NAN.to_bits());
    assert!(!nan.is_payloaded());
    assert_eq!(nan.get_payload(), None);
    let negative = Binary64((-f64::NAN).to_bits());
    assert!(!negative.is_payloaded());
    assert_eq!(negative.decode(), Decoded::EmptyNaN);
    assert_eq!(<Binary64 as NanPack<usize>>::empty(), Binary64(0x7ff8_0000_0000_0000));
    assert_eq!(<Binary32 as NanPack<usize>>::empty(), Binary32(0x7fc0_0000));
    assert_eq!(<Binary32 as NanPack<usize>>::empty().decode(), Decoded::EmptyNaN);
}

#[test]
fn numbers_carry_nothing() {
    // low fraction bits set, but not a NaN
    let x = Binary64(0x3ff0_0000_0000_0007);
    assert!(!x.is_payloaded());
    assert_eq!(x.get_payload(), None);
    let inf = Binary32(f32::NEG_INFINITY.to_bits());
    assert!(!inf.is_payloaded());
    assert_eq!(inf.get_payload(), None);
}

#[test]
fn signalling_nan_keeps_its_bits() {
    // a signalling NaN: quiet bit clear, low bits set
    let s = Binary64(0x7ff0_0000_0000_0001);
    assert!(s.is_payloaded());
    assert_eq!(s.get_payload(), Some(0));
    // the field above the payload of a binary32 is not part of it
    let t = Binary32(0x7fa0_0000);
    assert!(!t.is_payloaded());
    assert_eq!(t.decode(), Decoded::EmptyNaN);
}
