use valu3::number::{Number, NumberType};

fn float_box(v: f64) -> serde_json::Number {
    serde_json::Number::from_f64(v).unwrap()
}

#[test]
fn test_setters_and_getters() {
    let mut number = Number::default();

    number.clean();
    number.set_u8(42);
    assert_eq!(number.get_u8(), Some(42));

    number.clean();
    number.set_u16(12345);
    assert_eq!(number.get_u16(), Some(12345));

    number.clean();
    number.set_u32(12345678);
    assert_eq!(number.get_u32(), Some(12345678));

    number.clean();
    number.set_u64(12345678901234);
    assert_eq!(number.get_u64(), Some(12345678901234));

    number.clean();
    number.set_u128(123456789012345678901234567890);
    assert_eq!(number.get_u128(), Some(123456789012345678901234567890));

    number.clean();
    number.set_i8(-42);
    assert_eq!(number.get_i8(), Some(-42));

    number.clean();
    number.set_i16(-12345);
    assert_eq!(number.get_i16(), Some(-12345));

    number.clean();
    number.set_i32(-12345678);
    assert_eq!(number.get_i32(), Some(-12345678));

    number.clean();
    number.set_i64(-12345678901234);
    assert_eq!(number.get_i64(), Some(-12345678901234));

    number.clean();
    number.set_i128(-123456789012345678901234567890);
    assert_eq!(number.get_i128(), Some(-123456789012345678901234567890));

    number.clean();
    number.set_f32(float_box(3.14));
    assert_eq!(number.get_f32(), Some(float_box(3.14)));

    number.clean();
    number.set_f64(float_box(6.283185307179586));
    assert_eq!(number.get_f64(), Some(float_box(6.283185307179586)));
}

#[test]
fn test_display() {
    let mut number = Number::default();

    number.clean();
    number.set_u8(42);
    assert_eq!(number.as_string(), "42");

    number.clean();
    number.set_i32(-12345678);
    assert_eq!(number.as_string(), "-12345678");

    number.clean();
    number.set_f32(float_box(3.14));
    assert_eq!(number.as_string(), "3.14");

    number.clean();
    number.set_u128(123456789012345678901234567890);
    assert_eq!(number.as_string(), "123456789012345678901234567890");
}

#[test]
fn test_type_checkers() {
    let mut number = Number::default();

    number.clean();
    number.set_u8(42);
    assert!(number.is_u8());
    assert!(number.is_integer());
    assert!(!number.is_float());
    assert!(!number.is_signed());
    assert!(number.is_unsigned());
    assert!(!number.is_zero());
    assert!(number.is_positive());
    assert!(!number.is_negative());

    number.clean();
    number.set_i32(-12345678);
    assert!(number.is_i32());
    assert!(number.is_integer());
    assert!(!number.is_float());
    assert!(number.is_signed());
    assert!(!number.is_unsigned());
    assert!(!number.is_zero());
    assert!(!number.is_positive());
    assert!(number.is_negative());

    number.clean();
    number.set_f32(float_box(0.0));
    assert!(number.is_f32());
    assert!(!number.is_integer());
    assert!(number.is_float());
    assert!(!number.is_signed());
    assert!(!number.is_unsigned());
    assert!(number.is_zero());
}

#[test]
fn test_set_and_get() {
    let mut number = Number::default();

    number.clean();
    number.set_u8(42);
    assert_eq!(number.get_u8(), Some(42));

    number.clean();
    number.set_u16(42);
    assert_eq!(number.get_u16(), Some(42));

    number.clean();
    number.set_u32(42);
    assert_eq!(number.get_u32(), Some(42));

    number.clean();
    number.set_u64(42);
    assert_eq!(number.get_u64(), Some(42));

    number.clean();
    number.set_u128(42);
    assert_eq!(number.get_u128(), Some(42));

    number.clean();
    number.set_i8(-42);
    assert_eq!(number.get_i8(), Some(-42));

    number.clean();
    number.set_i16(-42);
    assert_eq!(number.get_i16(), Some(-42));

    number.clean();
    number.set_i32(-42);
    assert_eq!(number.get_i32(), Some(-42));

    number.clean();
    number.set_i64(-42);
    assert_eq!(number.get_i64(), Some(-42));

    number.clean();
    number.set_i128(-42);
    assert_eq!(number.get_i128(), Some(-42));

    number.clean();
    number.set_f32(float_box(-42.0));
    assert_eq!(number.get_f32(), Some(float_box(-42.0)));

    number.clean();
    number.set_f64(float_box(-42.0));
    assert_eq!(number.get_f64(), Some(float_box(-42.0)));
}

#[test]
fn test_is_methods() {
    let mut number = Number::default();

    number.clean();
    number.set_u8(42);
    assert!(number.is_u8());

    number.clean();
    number.set_u16(42);
    assert!(number.is_u16());

    number.clean();
    number.set_u32(42);
    assert!(number.is_u32());

    number.clean();
    number.set_u64(42);
    assert!(number.is_u64());

    number.clean();
    number.set_u128(42);
    assert!(number.is_u128());

    number.clean();
    number.set_i8(-42);
    assert!(number.is_i8());

    number.clean();
    number.set_i16(-42);
    assert!(number.is_i16());

    number.clean();
    number.set_i32(-42);
    assert!(number.is_i32());

    number.clean();
    number.set_i64(-42);
    assert!(number.is_i64());

    number.clean();
    number.set_i128(-42);
    assert!(number.is_i128());

    number.clean();
    number.set_f32(float_box(-42.0));
    assert!(number.is_f32());

    number.clean();
    number.set_f64(float_box(-42.0));
    assert!(number.is_f64());
}

#[test]
fn test_number_type() {
    let mut number = Number::default();

    number.clean();
    number.set_u8(10);
    assert_eq!(number.number_type(), NumberType::U8);

    number.clean();
    number.set_u16(10_000);
    assert_eq!(number.number_type(), NumberType::U16);

    number.clean();
    number.set_u32(1_000_000);
    assert_eq!(number.number_type(), NumberType::U32);

    number.clean();
    number.set_u64(10_000_000_000);
    assert_eq!(number.number_type(), NumberType::U64);

    number.clean();
    number.set_u128(100_000_000_000_000_000_000);
    assert_eq!(number.number_type(), NumberType::U128);

    number.clean();
    number.set_i8(-42);
    assert_eq!(number.number_type(), NumberType::I8);

    number.clean();
    number.set_i16(-12345);
    assert_eq!(number.number_type(), NumberType::I16);

    number.clean();
    number.set_i32(-1_000_000);
    assert_eq!(number.number_type(), NumberType::I32);

    number.clean();
    number.set_i64(-10_000_000_000);
    assert_eq!(number.number_type(), NumberType::I64);

    number.clean();
    number.set_i128(-100_000_000_000_000_000_000);
    assert_eq!(number.number_type(), NumberType::I128);

    number.clean();
    number.set_f32(float_box(-1_000_000.0));
    assert_eq!(number.number_type(), NumberType::F32);

    number.clean();
    number.set_f64(float_box(-10_000_000_000.0));
    assert_eq!(number.number_type(), NumberType::F64);
}

#[test]
fn reading_numbers_follows_the_width_order() {
    let num = Number::try_from("3.14").unwrap();
    assert!(num.is_f64());
    assert!(!num.is_f32());
    assert_eq!(num.get_f64(), Some(float_box(3.14)));

    let num = Number::try_from("300").unwrap();
    assert!(num.is_i32());
    assert!(!num.is_u16());
    assert_eq!(num.get_i32(), Some(300));

    let num = Number::try_from("-1").unwrap();
    assert_eq!(num.get_i32(), Some(-1));

    assert_eq!(Number::try_from("not a number"), Err(valu3::Error::NotNumber));
}

#[test]
fn float_texts_of_every_rust_shape_are_read() {
    let num = Number::try_from("3.").unwrap();
    assert_eq!(num.get_f64(), Some(float_box(3.0)));

    let num = Number::try_from("+0.5").unwrap();
    assert_eq!(num.get_f64(), Some(float_box(0.5)));

    let num = Number::try_from(".5").unwrap();
    assert_eq!(num.get_f64(), Some(float_box(0.5)));

    let num = Number::try_from("007.5").unwrap();
    assert_eq!(num.get_f64(), Some(float_box(7.5)));

    let num = Number::try_from("2.5e10").unwrap();
    assert_eq!(num.get_f64(), Some(float_box(2.5e10)));

    // the float carrier holds finite values only
    assert_eq!(Number::try_from("inf"), Err(valu3::Error::NotNumber));
    assert_eq!(Number::try_from("1e999"), Err(valu3::Error::NotNumber));
}

#[test]
fn exactly_one_predicate_after_clean_and_set() {
    let mut number = Number::default();
    number.clean();
    number.set_u8(7);
    let populated = [
        number.is_u8(),
        number.is_u16(),
        number.is_u32(),
        number.is_u64(),
        number.is_u128(),
        number.is_i8(),
        number.is_i16(),
        number.is_i32(),
        number.is_i64(),
        number.is_i128(),
        number.is_f32(),
        number.is_f64(),
    ];
    assert_eq!(populated.iter().filter(|p| **p).count(), 1);
    assert_eq!(number.number_type(), NumberType::U8);
}

#[test]
fn wrong_variant_numeric_access_answers_safely() {
    let mut number = Number::default();
    number.clean();
    number.set_i32(5);
    assert_eq!(number.get_i32(), Some(5));
    assert_eq!(number.get_u8(), None);
    assert!(!Number::default().is_number());
}
