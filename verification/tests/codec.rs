use ddc_brightness::vcp::{clamp_to_byte, DDCA_Non_Table_Vcp_Value};

#[test]
fn decode_combines_high_and_low_bytes() {
    let v = DDCA_Non_Table_Vcp_Value { sh: 1, sl: 2, mh: 0, ml: 0 };
    assert_eq!(v.current_value(), 258);

    let v = DDCA_Non_Table_Vcp_Value { sh: 0, sl: 73, mh: 0, ml: 0 };
    assert_eq!(v.current_value(), 73);

    let v = DDCA_Non_Table_Vcp_Value { sh: 255, sl: 255, mh: 0, ml: 0 };
    assert_eq!(v.current_value(), 65535);

    let v = DDCA_Non_Table_Vcp_Value { sh: 0, sl: 0, mh: 0, ml: 0 };
    assert_eq!(v.current_value(), 0);
}

#[test]
fn decode_is_symmetric_for_the_maximum_pair() {
    let v = DDCA_Non_Table_Vcp_Value { sh: 0, sl: 0, mh: 0, ml: 100 };
    assert_eq!(v.maximum_value(), 100);

    let v = DDCA_Non_Table_Vcp_Value { sh: 0, sl: 0, mh: 3, ml: 232 };
    assert_eq!(v.maximum_value(), 3 * 256 + 232);
}

#[test]
fn decode_matches_base_256_arithmetic_on_sample_pairs() {
    for &(high, low) in &[(0u8, 0u8), (0, 1), (1, 0), (2, 55), (128, 128), (255, 0)] {
        let v = DDCA_Non_Table_Vcp_Value { sh: high, sl: low, mh: low, ml: high };
        assert_eq!(v.current_value(), (high as u16) * 256 + low as u16);
        assert_eq!(v.maximum_value(), (low as u16) * 256 + high as u16);
    }
}

#[test]
fn clamp_keeps_values_up_to_255_and_saturates_above() {
    assert_eq!(clamp_to_byte(0), 0);
    assert_eq!(clamp_to_byte(73), 73);
    assert_eq!(clamp_to_byte(255), 255);
    assert_eq!(clamp_to_byte(256), 255);
    assert_eq!(clamp_to_byte(1000), 255);
    assert_eq!(clamp_to_byte(65535), 255);
}
