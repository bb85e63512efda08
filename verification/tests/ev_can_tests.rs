use ev_supervisor::crc8::{calc_crc8, generate_lookup};
use ev_supervisor::ev_can::{
    EvCanError, EvCanFrame, INVERTER_STATUS_ID, INVERTER_TEMPERATURE_ID, TORQUE_REQUEST_ID,
    VCM_KEEPALIVE1_ID, VCM_KEEPALIVE2_ID,
};

#[test]
fn torque_request() {
    let frame: bxcan::Frame = EvCanFrame::TorqueRequest { torque: 1000, counter: 2 }
        .to_bxcan_frame()
        .unwrap();

    assert_eq!(
        frame.id(),
        bxcan::Id::Standard(bxcan::StandardId::new(TORQUE_REQUEST_ID).unwrap())
    );

    if let EvCanFrame::TorqueRequest { torque, counter } =
        EvCanFrame::from_torque_request_data(frame.data().unwrap()).unwrap()
    {
        assert_eq!(torque, 1000);
        assert_eq!(counter, 2);
    } else {
        panic!("Frame should be a TorqueRequest")
    }
}

#[test]
fn torque_request_round_trip_via_bus_frame() {
    for (torque, counter) in [(0i16, 0u8), (1000, 2), (-512, 3), (i16::MIN, 1), (i16::MAX, 0)] {
        let frame = EvCanFrame::TorqueRequest { torque, counter }
            .to_bxcan_frame()
            .unwrap();
        let decoded = EvCanFrame::from_bxcan_frame(&frame).unwrap();
        assert_eq!(decoded, EvCanFrame::TorqueRequest { torque, counter });
    }
}

#[test]
fn torque_request_tamper_is_detected() {
    let encoded = EvCanFrame::to_torque_request_data(1000, 2);
    assert_eq!(encoded.len(), 8);
    assert!(EvCanFrame::decode(TORQUE_REQUEST_ID, Some(&encoded)).is_ok());

    for byte in 0..8 {
        for bit in 0..8 {
            let mut tampered = encoded.clone();
            tampered[byte] ^= 1u8 << bit;
            assert_eq!(
                EvCanFrame::decode(TORQUE_REQUEST_ID, Some(&tampered)),
                Err(EvCanError::BadCrc)
            );
        }
    }
}

#[test]
fn keepalive1_layout_and_crc() {
    let data = EvCanFrame::to_vcm_keepalive1_data(7);
    assert_eq!(&data[..7], &[0x4e, 0x40, 0x00, 0xaa, 0xc0, 0x00, 7]);
    let table = generate_lookup(0x85);
    assert_eq!(data[7], calc_crc8(&data[..7], &table));
}

#[test]
fn keepalive2_layout() {
    let data = EvCanFrame::to_vcm_keepalive2_data();
    assert_eq!(data, vec![0x00, 0x00, 0x06, 0xc0, 0x00, 0x00, 0x00]);
}

#[test]
fn encode_ids_and_receive_only() {
    let f = EvCanFrame::VcmKeepalive1 { counter: 9 }.encode().unwrap();
    assert_eq!(f.id, VCM_KEEPALIVE1_ID);
    assert_eq!(f.data.len(), 8);
    assert_eq!(f.data[6], 9);

    let f = EvCanFrame::VcmKeepalive2.encode().unwrap();
    assert_eq!(f.id, VCM_KEEPALIVE2_ID);
    assert_eq!(f.data.len(), 7);

    let f = EvCanFrame::TorqueRequest { torque: -1, counter: 3 }.encode().unwrap();
    assert_eq!(f.id, TORQUE_REQUEST_ID);
    assert_eq!(f.data.len(), 8);

    let status = EvCanFrame::InverterStatus { millivolt: 0, rpm: 0, current: 0, error: 0 };
    assert_eq!(status.encode().unwrap_err(), EvCanError::ReceiveOnly);
    assert_eq!(status.to_bxcan_frame().unwrap_err(), EvCanError::ReceiveOnly);

    let temperature =
        EvCanFrame::InverterTemperature { motor_temperature: 0, inverter_temperature: 0 };
    assert_eq!(temperature.encode().unwrap_err(), EvCanError::ReceiveOnly);
}

#[test]
fn decode_rejects_unknown_missing_and_short() {
    assert_eq!(
        EvCanFrame::decode(0x123, Some(&[0u8; 8])),
        Err(EvCanError::UnknownFrame)
    );
    assert_eq!(EvCanFrame::decode(TORQUE_REQUEST_ID, None), Err(EvCanError::NoData));
    assert_eq!(
        EvCanFrame::decode(TORQUE_REQUEST_ID, Some(&[0u8; 7])),
        Err(EvCanError::BadDlc)
    );
    assert_eq!(
        EvCanFrame::decode(INVERTER_STATUS_ID, Some(&[0u8; 8])),
        Err(EvCanError::BadDlc)
    );
    assert_eq!(
        EvCanFrame::decode(INVERTER_TEMPERATURE_ID, Some(&[0u8; 1])),
        Err(EvCanError::BadDlc)
    );
}

#[test]
fn decode_inverter_status_fields() {
    // 10000 raw -> 5_000_000 millivolt; current 0x1234; rpm -10; error 7.
    let data = [0x10, 0x27, 0x34, 0x12, 0xf6, 0xff, 7];
    let decoded = EvCanFrame::decode(INVERTER_STATUS_ID, Some(&data)).unwrap();
    assert_eq!(
        decoded,
        EvCanFrame::InverterStatus { millivolt: 5_000_000, current: 0x1234, rpm: -10, error: 7 }
    );
}

#[test]
fn decode_inverter_temperature_fields() {
    let data = [40, 50];
    let decoded = EvCanFrame::decode(INVERTER_TEMPERATURE_ID, Some(&data)).unwrap();
    assert_eq!(
        decoded,
        EvCanFrame::InverterTemperature { motor_temperature: 40, inverter_temperature: 50 }
    );
}

#[test]
fn remote_frame_has_no_data() {
    let frame = bxcan::Frame::new_remote(
        bxcan::StandardId::new(TORQUE_REQUEST_ID).unwrap(),
        8,
    );
    assert_eq!(
        EvCanFrame::from_bxcan_frame(&frame),
        Err(EvCanError::NoData)
    );
}

#[test]
fn extended_id_frame_is_unknown() {
    let frame = bxcan::Frame::new_data(bxcan::ExtendedId::new(0x14d).unwrap(), [0u8; 8]);
    assert_eq!(
        EvCanFrame::from_bxcan_frame(&frame),
        Err(EvCanError::UnknownFrame)
    );
}
