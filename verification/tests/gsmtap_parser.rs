use rayhunter::diag::{
    LogBody, LteMacRachResponsePacket, LteRrcOtaPacket, MacRachSubpacket, Message,
    Nas4GMessageDirection, Timestamp,
};
use rayhunter::gsmtap::{
    GsmtapHeader, GsmtapMessage, GsmtapType, LteNasSubtype, LteRrcSubtype, UmSubtype,
    UmtsRrcSubtype,
};
use rayhunter::parser::{log_to_gsmtap, parse, GsmtapParserError};

#[test]
fn test_wcdma_ul_dcch_channel_type() {
    // channel_type 0x01 = UL_DCCH
    let body = LogBody::WcdmaSignallingMessage {
        channel_type: 0x01,
        radio_bearer: 0,
        length: 3,
        msg: vec![0xAA, 0xBB, 0xCC],
    };
    let result = log_to_gsmtap(body).unwrap();
    let gsmtap = result.expect("should produce a GSMTAP message");
    assert_eq!(
        gsmtap.header.gsmtap_type,
        GsmtapType::UmtsRrc(UmtsRrcSubtype::UlDcch)
    );
    assert!(gsmtap.header.uplink);
    assert_eq!(gsmtap.payload, vec![0xAA, 0xBB, 0xCC]);
}

#[test]
fn test_wcdma_dl_dcch_channel_type() {
    // channel_type 0x03 = DL_DCCH
    let body = LogBody::WcdmaSignallingMessage {
        channel_type: 0x03,
        radio_bearer: 0,
        length: 2,
        msg: vec![0x01, 0x02],
    };
    let result = log_to_gsmtap(body).unwrap();
    let gsmtap = result.expect("should produce a GSMTAP message");
    assert_eq!(
        gsmtap.header.gsmtap_type,
        GsmtapType::UmtsRrc(UmtsRrcSubtype::DlDcch)
    );
    assert!(!gsmtap.header.uplink);
}

#[test]
fn test_wcdma_new_format_dropped() {
    // channel_type >= 0x80: new-format record with extra header bytes in payload
    let body = LogBody::WcdmaSignallingMessage {
        channel_type: 0x83,
        radio_bearer: 0,
        length: 4,
        msg: vec![0x00, 0x00, 0x01, 0x02],
    };
    let result = log_to_gsmtap(body).unwrap();
    assert!(result.is_none(), "new-format records must be dropped");
}

#[test]
fn test_gsm_bcch_no_lapdm_prepend() {
    // channel_type 0x01 = BCCH; no L2 framing, bare L3 payload
    let body = LogBody::GsmRrSignallingMessage {
        channel_type: 0x01,
        message_type: 0,
        length: 3,
        msg: vec![0x41, 0x42, 0x43],
    };
    let result = log_to_gsmtap(body).unwrap();
    let gsmtap = result.expect("should produce a GSMTAP message");
    assert_eq!(gsmtap.header.gsmtap_type, GsmtapType::Um(UmSubtype::Bcch));
    assert!(!gsmtap.header.uplink);
    assert_eq!(gsmtap.payload, vec![0x41, 0x42, 0x43]);
}

#[test]
fn test_gsm_sdcch_lapdm_prepend() {
    // channel_type 0x00 = SDCCH; LAPDm UI header prepended
    let payload = vec![0x59, 0x01, 0x5A];
    let length = payload.len() as u8;
    let body = LogBody::GsmRrSignallingMessage {
        channel_type: 0x00,
        message_type: 0,
        length,
        msg: payload.clone(),
    };
    let result = log_to_gsmtap(body).unwrap();
    let gsmtap = result.expect("should produce a GSMTAP message");
    assert_eq!(gsmtap.header.gsmtap_type, GsmtapType::Um(UmSubtype::Sdcch8));
    // LAPDm UI header: addr=0x01, ctrl=0x03, len=(3<<2)|0x01=0x0D
    let expected_len_byte = ((u16::from(length) << 2) | 0x01) as u8;
    assert_eq!(gsmtap.payload[0], 0x01);
    assert_eq!(gsmtap.payload[1], 0x03);
    assert_eq!(gsmtap.payload[2], expected_len_byte);
    assert_eq!(&gsmtap.payload[3..], payload.as_slice());
}

#[test]
fn test_gsm_uplink_direction_bit() {
    // bit 7 set on channel_type encodes uplink direction
    let body = LogBody::GsmRrSignallingMessage {
        channel_type: 0x80 | 0x03, // CCCH, uplink
        message_type: 0,
        length: 1,
        msg: vec![0xFF],
    };
    let result = log_to_gsmtap(body).unwrap();
    let gsmtap = result.expect("should produce a GSMTAP message");
    assert_eq!(gsmtap.header.gsmtap_type, GsmtapType::Um(UmSubtype::Ccch));
    assert!(gsmtap.header.uplink);
}

fn rrc_body(ext_header_version: u8, pdu_num: u8, earfcn: u32) -> LogBody {
    LogBody::LteRrcOtaMessage {
        ext_header_version,
        packet: LteRrcOtaPacket {
            pdu_num,
            earfcn,
            sfn: 321,
            subfn: 7,
            payload: vec![0x10, 0x20],
        },
    }
}

#[test]
fn lte_rrc_header_fields() {
    let m = log_to_gsmtap(rrc_body(0x02, 6, 1300)).unwrap().unwrap();
    assert_eq!(m.header.gsmtap_type, GsmtapType::LteRrc(LteRrcSubtype::DlDcch));
    assert_eq!(m.header.arfcn, 1300);
    assert_eq!(m.header.frame_number, 321);
    assert_eq!(m.header.subslot, 7);
    assert!(!m.header.uplink);
    assert_eq!(m.payload, vec![0x10, 0x20]);
}

#[test]
fn lte_rrc_arfcn_masked_to_14_bits() {
    // EARFCN 54540 (band 46) exceeds the 14-bit maximum of 16383.
    let m = log_to_gsmtap(rrc_body(0x13, 9, 54540)).unwrap().unwrap();
    assert_eq!(m.header.arfcn, 54540 & 0x3FFF);
    assert_eq!(m.header.arfcn, 5388);
    assert_eq!(m.header.gsmtap_type, GsmtapType::LteRrc(LteRrcSubtype::DlDcch));
}

#[test]
fn lte_rrc_numbering_schemes() {
    let cases: Vec<(u8, u8, LteRrcSubtype)> = vec![
        (0x16, 1, LteRrcSubtype::BcchBch),
        (0x0d, 8, LteRrcSubtype::UlDcch),
        (0x09, 8, LteRrcSubtype::BcchBch),
        (0x0c, 15, LteRrcSubtype::UlDcch),
        (0x0e, 4, LteRrcSubtype::MCCH),
        (0x10, 9, LteRrcSubtype::UlDcch),
        (0x13, 3, LteRrcSubtype::BcchDlSch),
        (0x1a, 45, LteRrcSubtype::BcchBchNb),
        (0x1b, 52, LteRrcSubtype::UlDcchNb),
        (0x14, 54, LteRrcSubtype::BcchBchNb),
        (0x18, 61, LteRrcSubtype::UlDcchNb),
        (0x19, 5, LteRrcSubtype::PCCH),
    ];
    for (v, pdu, sub) in cases {
        let m = log_to_gsmtap(rrc_body(v, pdu, 100)).unwrap().unwrap();
        assert_eq!(m.header.gsmtap_type, GsmtapType::LteRrc(sub));
    }
}

#[test]
fn lte_rrc_unknown_pdu_number_is_an_error() {
    match log_to_gsmtap(rrc_body(0x09, 1, 100)) {
        Err(GsmtapParserError::InvalidLteRrcOtaHeaderPduNum(v, p)) => {
            assert_eq!(v, 0x09);
            assert_eq!(p, 1);
        }
        other => panic!("unexpected: {other:?}"),
    }
    // 53 is not used by the 0x13 scheme.
    assert!(matches!(
        log_to_gsmtap(rrc_body(0x13, 53, 100)),
        Err(GsmtapParserError::InvalidLteRrcOtaHeaderPduNum(0x13, 53))
    ));
}

#[test]
fn lte_rrc_unknown_version_is_an_error() {
    assert!(matches!(
        log_to_gsmtap(rrc_body(0x05, 1, 100)),
        Err(GsmtapParserError::InvalidLteRrcOtaExtHeaderVersion(0x05))
    ));
}

#[test]
fn nas_direction_and_subtype() {
    let up = log_to_gsmtap(LogBody::Nas4GMessage {
        ext_header_version: 1,
        direction: Nas4GMessageDirection::Uplink,
        msg: vec![7, 8],
    })
    .unwrap()
    .unwrap();
    assert_eq!(up.header.gsmtap_type, GsmtapType::LteNas(LteNasSubtype::Plain));
    assert!(up.header.uplink);
    assert_eq!(up.payload, vec![7, 8]);
    let down = log_to_gsmtap(LogBody::Nas4GMessage {
        ext_header_version: 1,
        direction: Nas4GMessageDirection::Downlink,
        msg: vec![9],
    })
    .unwrap()
    .unwrap();
    assert!(!down.header.uplink);
}

#[test]
fn mac_rach_without_subpackets_is_an_error() {
    let body = LogBody::LteMacRachResponse {
        packet: LteMacRachResponsePacket { subpackets: vec![] },
    };
    match log_to_gsmtap(body) {
        Err(GsmtapParserError::InvalidLteMacRachResponse(s)) => assert_eq!(s, "no subpackets"),
        other => panic!("unexpected: {other:?}"),
    }
}

#[test]
fn mac_rach_uses_first_subpacket() {
    let frame = GsmtapMessage {
        header: GsmtapHeader::new(GsmtapType::Um(UmSubtype::Rach)),
        payload: vec![1, 2, 3],
    };
    let body = LogBody::LteMacRachResponse {
        packet: LteMacRachResponsePacket {
            subpackets: vec![
                MacRachSubpacket { frame: Ok(Some(frame)) },
                MacRachSubpacket { frame: Err("ignored".to_string()) },
            ],
        },
    };
    let m = log_to_gsmtap(body).unwrap().unwrap();
    assert_eq!(m.payload, vec![1, 2, 3]);
}

#[test]
fn mac_rach_conversion_error_is_reported() {
    let body = LogBody::LteMacRachResponse {
        packet: LteMacRachResponsePacket {
            subpackets: vec![MacRachSubpacket { frame: Err("Overflow".to_string()) }],
        },
    };
    match log_to_gsmtap(body) {
        Err(GsmtapParserError::InvalidLteMacRachResponse(s)) => {
            assert_eq!(s, "unable to serialize GSMTAP payload: Overflow")
        }
        other => panic!("unexpected: {other:?}"),
    }
}

#[test]
fn gsm_sacch_gets_l1_and_lapdm_headers() {
    let body = LogBody::GsmRrSignallingMessage {
        channel_type: 0x04,
        message_type: 0,
        length: 2,
        msg: vec![0xAB, 0xCD],
    };
    let m = log_to_gsmtap(body).unwrap().unwrap();
    assert_eq!(m.header.gsmtap_type, GsmtapType::Um(UmSubtype::Sdcch8));
    assert_eq!(m.payload, vec![0x00, 0x00, 0x01, 0x03, 0x09, 0xAB, 0xCD]);
}

#[test]
fn gsm_length_octet_keeps_low_bits() {
    // 100 << 2 = 400; with the end bit, 401 keeps 145 in eight bits.
    let body = LogBody::GsmRrSignallingMessage {
        channel_type: 0x00,
        message_type: 0,
        length: 100,
        msg: vec![],
    };
    let m = log_to_gsmtap(body).unwrap().unwrap();
    assert_eq!(m.payload, vec![0x01, 0x03, 145]);
}

#[test]
fn gsm_unknown_channel_dropped() {
    let body = LogBody::GsmRrSignallingMessage {
        channel_type: 0x85,
        message_type: 0,
        length: 1,
        msg: vec![1],
    };
    assert!(log_to_gsmtap(body).unwrap().is_none());
}

#[test]
fn wcdma_unhandled_channel_dropped() {
    let body = LogBody::WcdmaSignallingMessage {
        channel_type: 0x09,
        radio_bearer: 0,
        length: 1,
        msg: vec![1],
    };
    assert!(log_to_gsmtap(body).unwrap().is_none());
    let si = LogBody::WcdmaSignallingMessage {
        channel_type: 0x0a,
        radio_bearer: 0,
        length: 1,
        msg: vec![1],
    };
    let m = log_to_gsmtap(si).unwrap().unwrap();
    assert_eq!(
        m.header.gsmtap_type,
        GsmtapType::UmtsRrc(UmtsRrcSubtype::SystemInformationContainer)
    );
}

#[test]
fn other_records_ignored() {
    assert!(log_to_gsmtap(LogBody::Other { log_type: 0x1234 }).unwrap().is_none());
}

#[test]
fn parse_attaches_timestamp() {
    let msg = Message::Log {
        timestamp: Timestamp { ts: 42 },
        body: LogBody::GsmRrSignallingMessage {
            channel_type: 0x01,
            message_type: 0,
            length: 1,
            msg: vec![5],
        },
    };
    let (ts, m) = parse(msg).unwrap().unwrap();
    assert_eq!(ts, Timestamp { ts: 42 });
    assert_eq!(m.payload, vec![5]);
}

#[test]
fn parse_ignores_non_log_messages() {
    assert!(parse(Message::Other).unwrap().is_none());
    let dropped = Message::Log {
        timestamp: Timestamp { ts: 1 },
        body: LogBody::Other { log_type: 1 },
    };
    assert!(parse(dropped).unwrap().is_none());
}

#[test]
fn parse_passes_errors_on() {
    let msg = Message::Log {
        timestamp: Timestamp { ts: 1 },
        body: rrc_body(0x7f, 1, 1),
    };
    assert!(matches!(
        parse(msg),
        Err(GsmtapParserError::InvalidLteRrcOtaExtHeaderVersion(0x7f))
    ));
}
