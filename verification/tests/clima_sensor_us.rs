use opensesame::clima_sensor_us::{conv_vec_to_value_s, conv_vec_to_value_u};

#[test]
fn clima_sensor_us_test_conv_vec_to_value_s() {
    assert_eq!(conv_vec_to_value_s((0x0000u16, 0x0000u16)), Ok(0));
    assert_eq!(conv_vec_to_value_s((0x0000u16, 0x0001u16)), Ok(1));
    assert_eq!(conv_vec_to_value_s((0xffffu16, 0xffffu16)), Ok(-1));
    assert_eq!(conv_vec_to_value_s((0x0000u16, 0x000au16)), Ok(10));
    assert_eq!(conv_vec_to_value_s((0xffffu16, 0xfff6u16)), Ok(-10));
    assert_eq!(conv_vec_to_value_s((0x0000u16, 0x0020u16)), Ok(32));
    assert_eq!(conv_vec_to_value_s((0xffffu16, 0xffe0u16)), Ok(-32));
    assert_eq!(conv_vec_to_value_s((0x0000u16, 0x1524u16)), Ok(5412));
    assert_eq!(conv_vec_to_value_s((0xffffu16, 0xeadcu16)), Ok(-5412));
    assert_eq!(conv_vec_to_value_s((0x7fffu16, 0xffffu16)), Err(()));
    assert_eq!(conv_vec_to_value_s((0x8000u16, 0x0000u16)), Ok(-2147483648));
}

#[test]
fn clima_sensor_us_test_conv_vec_to_value_u() {
    assert_eq!(conv_vec_to_value_u((0x0000u16, 0x0000u16)), Ok(0));
    assert_eq!(conv_vec_to_value_u((0x0000u16, 0x0001u16)), Ok(1));
    assert_eq!(conv_vec_to_value_u((0x0000u16, 0x000au16)), Ok(10));
    assert_eq!(conv_vec_to_value_u((0x0000u16, 0x0020u16)), Ok(32));
    assert_eq!(conv_vec_to_value_u((0x0000u16, 0x1524u16)), Ok(5412));
    assert_eq!(conv_vec_to_value_u((0xffffu16, 0xffffu16)), Err(()));
}

#[test]
fn conv_vec_to_value_joins_most_significant_first() {
    assert_eq!(conv_vec_to_value_u((0x0001u16, 0x0002u16)), Ok(0x0001_0002));
    assert_eq!(conv_vec_to_value_s((0x7fffu16, 0xfffeu16)), Ok(2147483646));
    assert_eq!(conv_vec_to_value_u((0x7fffu16, 0xffffu16)), Ok(0x7fff_ffff));
    assert_eq!(conv_vec_to_value_u((0xffffu16, 0xfffeu16)), Ok(4294967294));
}
