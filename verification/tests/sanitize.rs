use cleanfloat::buffer::ErrorBuffer;
use cleanfloat::clean::{Clean, CleanFloat, Dirty, DirtyF64, UncheckedConv, F32, F64};
use cleanfloat::error::{FloatClass, FloatErrorInner};
use cleanfloat::ieee::{Binary32, Binary64};
use cleanfloat::nanpack::NanPack;

#[test]
fn try_sanitize() {
    let mut buffer = ErrorBuffer::new();
    let good: Dirty<Binary64> = Binary64(1.0f64.to_bits()).into();
    let bad: Dirty<Binary64> = Binary64(f64::NAN.to_bits()).into();
    assert!(good.sanitize(&mut buffer).is_ok());
    assert!(bad.sanitize(&mut buffer).is_err());
}

#[test]
fn bad_operation() {
    let mut buffer = ErrorBuffer::new();
    let a = F64::try_new(Binary64(0.0f64.to_bits()), &mut buffer).unwrap();
    let b = F64::try_new(Binary64(0.0f64.to_bits()), &mut buffer).unwrap();
    let c = a.div(b, Binary64((0.0f64 / 0.0f64).to_bits()), &mut buffer);

    let err = c.sanitize(&mut buffer).err().unwrap();
    assert_eq!(
        FloatErrorInner::Div {
            a: FloatClass::PlusZero,
            b: FloatClass::PlusZero,
        },
        err.variant
    );

    let err = F64::try_new(Binary64(f64::NAN.to_bits()), &mut buffer)
        .err()
        .unwrap();
    assert_eq!(
        FloatErrorInner::Sanitization { a: FloatClass::NaN },
        err.variant
    );
}

#[test]
fn new() {
    let mut buffer = ErrorBuffer::new();
    assert!(F64::try_new(Binary64(f64::NAN.to_bits()), &mut buffer).is_err());
    assert!(F64::try_new(Binary64(f64::INFINITY.to_bits()), &mut buffer).is_ok());
    assert!(F64::try_new(Binary64(1.0f64.to_bits()), &mut buffer).is_ok());
}

#[test]
fn binary_ops() {
    let mut buffer = ErrorBuffer::new();
    let a = F64::try_new(Binary64(1.0f64.to_bits()), &mut buffer).unwrap();
    let b = F64::try_new(Binary64(1.0f64.to_bits()), &mut buffer).unwrap();
    let c = DirtyF64::new(Binary64(2.0f64.to_bits()));
    let sum = Binary64((1.0f64 + 1.0f64).to_bits());
    assert_eq!(a.add(b, sum, &mut buffer), c);
    assert_eq!(
        a.add(Binary64(1.0f64.to_bits()), sum, &mut buffer),
        Binary64(2.0f64.to_bits())
    );
    assert_eq!(a.add(b, sum, &mut buffer).sanitize(&mut buffer).unwrap(), c);
}

#[test]
fn finite_values_round_trip() {
    let mut buffer = ErrorBuffer::new();
    for x in [0.0f64, -0.0, 1.0, -1.5, f64::MIN_POSITIVE, f64::MAX, f64::MIN, 5e-324] {
        let clean = F64::try_new(Binary64(x.to_bits()), &mut buffer).unwrap();
        assert_eq!(clean.as_raw().0, x.to_bits());
    }
    for x in [0.0f32, -0.0, 1.0, -1.5, f32::MIN_POSITIVE, f32::MAX, f32::MIN] {
        let clean = F32::try_new(Binary32(x.to_bits()), &mut buffer).unwrap();
        assert_eq!(clean.as_raw().0, x.to_bits());
    }
    assert_eq!(buffer.last_index(), 0);
}

#[test]
fn infinities_are_clean() {
    let mut buffer = ErrorBuffer::new();
    let up = F64::try_new(Binary64(f64::INFINITY.to_bits()), &mut buffer).unwrap();
    assert_eq!(up.as_raw().0, f64::INFINITY.to_bits());
    let down = F32::try_new(Binary32(f32::NEG_INFINITY.to_bits()), &mut buffer).unwrap();
    assert_eq!(down.as_raw().0, f32::NEG_INFINITY.to_bits());
}

#[test]
fn every_kind_of_nan_fails() {
    let mut buffer = ErrorBuffer::new();
    for bits in [
        f64::NAN.to_bits(),
        (-f64::NAN).to_bits(),
        0x7ff8_0000_0000_0000u64,
        0xfff8_0000_0000_0000,
    ] {
        let err = F64::try_new(Binary64(bits), &mut buffer).err().unwrap();
        assert_eq!(err.variant, FloatErrorInner::Sanitization { a: FloatClass::NaN });
    }
    assert_eq!(buffer.last_index(), 0);
}

#[test]
fn sanitize_consumes_the_failure_once() {
    let mut buffer = ErrorBuffer::new();
    let zero = Binary64(0.0f64.to_bits());
    let inf = Binary64(f64::INFINITY.to_bits());
    let c: DirtyF64 =
        DirtyF64::new(zero).mul(inf, Binary64((0.0f64 * f64::INFINITY).to_bits()), &mut buffer);
    let index = c.as_raw().get_payload().unwrap();
    assert_eq!(index, 1);
    assert!(buffer.contains(index));
    let err = c.sanitize(&mut buffer).err().unwrap();
    assert_eq!(
        err.variant,
        FloatErrorInner::Mul { a: FloatClass::PlusZero, b: FloatClass::PlusInfinity }
    );
    assert!(!buffer.contains(index));
    assert_eq!(buffer.last_index(), 1);
}

#[test]
fn release_sanitize_is_plain() {
    let err = F64::try_new_release(Binary64(0x7ff8_0000_0000_0005)).err().unwrap();
    assert_eq!(err.variant, FloatErrorInner::Sanitization { a: FloatClass::NaN });
    assert!(err.debug_info.is_none());
    assert_eq!(err.message(), "Sanitization of NaN");
    let err = DirtyF64::new(Binary64(f64::NAN.to_bits())).sanitize_release().err().unwrap();
    assert_eq!(err.variant, FloatErrorInner::Sanitization { a: FloatClass::NaN });
    assert!(err.debug_info.is_none());
    let ok = DirtyF64::new(Binary64(3.0f64.to_bits())).sanitize_release().unwrap();
    assert_eq!(ok.as_raw().0, 3.0f64.to_bits());
    assert!(F64::try_new_release(Binary64(f64::INFINITY.to_bits())).is_ok());
}

#[test]
fn taint_and_conversions_keep_the_raw_value() {
    let mut buffer = ErrorBuffer::new();
    let a = F64::try_new(Binary64(2.5f64.to_bits()), &mut buffer).unwrap();
    assert_eq!(a.taint().as_raw(), Binary64(2.5f64.to_bits()));
    let d: Dirty<Binary64> = a.into();
    assert_eq!(d.as_raw(), Binary64(2.5f64.to_bits()));
    let e: Dirty<Binary64> = Binary64(7).into();
    assert_eq!(e.as_raw(), Binary64(7));
    let back = Clean::<Binary64>::from_raw(Binary64(2.5f64.to_bits()));
    assert_eq!(back.as_raw(), Binary64(2.5f64.to_bits()));
    assert_eq!(Binary64(9).as_raw(), Binary64(9));
}

#[test]
fn map_applies_the_function() {
    let d = DirtyF64::new(Binary64(2.0f64.to_bits()));
    let halved = d.map(|x: Binary64| Binary64((f64::from_bits(x.0) / 2.0).to_bits()));
    assert_eq!(halved.as_raw(), Binary64(1.0f64.to_bits()));
}
