use coord::GridInt;

#[test]
fn one_is_one_in_every_type() {
    assert_eq!(<i8 as GridInt>::one(), 1);
    assert_eq!(<i16 as GridInt>::one(), 1);
    assert_eq!(<i32 as GridInt>::one(), 1);
    assert_eq!(<i64 as GridInt>::one(), 1);
    assert_eq!(<i128 as GridInt>::one(), 1);
    assert_eq!(<isize as GridInt>::one(), 1);
    assert_eq!(<u8 as GridInt>::one(), 1);
    assert_eq!(<u16 as GridInt>::one(), 1);
    assert_eq!(<u32 as GridInt>::one(), 1);
    assert_eq!(<u64 as GridInt>::one(), 1);
    assert_eq!(<u128 as GridInt>::one(), 1);
    assert_eq!(<usize as GridInt>::one(), 1);
}

#[test]
fn plain_arithmetic_is_exact() {
    assert_eq!(GridInt::plus(100i8, 27i8), 127);
    assert_eq!(GridInt::minus(-100i8, 28i8), -128);
    assert_eq!(GridInt::times(-16i8, 8i8), -128);
    assert_eq!(GridInt::plus(40u32, 2u32), 42);
    assert_eq!(GridInt::minus(40u32, 40u32), 0);
    assert_eq!(GridInt::times(6u64, 7u64), 42);
}

#[test]
fn checked_arithmetic_reports_what_does_not_fit() {
    assert_eq!(GridInt::checked_plus(100i8, 27i8), Some(127));
    assert_eq!(GridInt::checked_plus(100i8, 28i8), None);
    assert_eq!(GridInt::checked_minus(-100i8, 28i8), Some(-128));
    assert_eq!(GridInt::checked_minus(-100i8, 29i8), None);
    assert_eq!(GridInt::checked_times(16i8, 8i8), None);
    assert_eq!(GridInt::checked_times(-16i8, 8i8), Some(-128));
    assert_eq!(GridInt::checked_minus(0u16, 1u16), None);
    assert_eq!(GridInt::checked_plus(u64::MAX, 1u64), None);
    assert_eq!(GridInt::checked_times(1usize << 40, 1usize << 40), None);
    assert_eq!(GridInt::checked_times(1u128 << 40, 1u128 << 40), Some(1u128 << 80));
}
