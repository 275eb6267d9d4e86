//! Conversion of diagnostic log records into GSMTAP frames.

use vstd::prelude::*;

use crate::diag::{LogBody, Message, Nas4GMessageDirection, Timestamp};
use crate::gsmtap::{
    default_header, GsmtapHeader, GsmtapMessage, GsmtapType, LteNasSubtype, LteRrcSubtype,
    UmSubtype, UmtsRrcSubtype,
};

verus! {

/// Why a log record could not be converted.
#[derive(Debug)]
pub enum GsmtapParserError {
    /// The LTE RRC record layout version is not one the conversion knows.
    InvalidLteRrcOtaExtHeaderVersion(u8),
    /// The PDU number does not name a channel in that layout version
    /// (version, PDU number).
    InvalidLteRrcOtaHeaderPduNum(u8, u8),
    /// The MAC RACH response record could not be turned into a frame.
    InvalidLteMacRachResponse(String),
}

/// The result of converting one log record, over plain values.
pub enum Conversion {
    Frame { header: GsmtapHeader, payload: Seq<u8> },
    Dropped,
    BadExtHeaderVersion(u8),
    BadPduNum(u8, u8),
    BadMacRachResponse(Seq<char>),
}

/// The meaning of a conversion result.
pub open spec fn conversion_of(r: Result<Option<GsmtapMessage>, GsmtapParserError>) -> Conversion {
    match r {
        Ok(Some(m)) => Conversion::Frame { header: m.header, payload: m.payload@ },
        Ok(None) => Conversion::Dropped,
        Err(GsmtapParserError::InvalidLteRrcOtaExtHeaderVersion(v)) => Conversion::BadExtHeaderVersion(v),
        Err(GsmtapParserError::InvalidLteRrcOtaHeaderPduNum(v, p)) => Conversion::BadPduNum(v, p),
        Err(GsmtapParserError::InvalidLteMacRachResponse(s)) => Conversion::BadMacRachResponse(s@),
    }
}

/// The LTE RRC record layout versions whose PDU numbering is known, grouped
/// by numbering scheme (1 to 5); 0 for any other version.
pub open spec fn lte_rrc_layout(v: u8) -> int {
    if v == 0x02 || v == 0x03 || v == 0x04 || v == 0x06 || v == 0x07 || v == 0x08 || v == 0x0d || v == 0x16 {
        1
    } else if v == 0x09 || v == 0x0c {
        2
    } else if 0x0e <= v <= 0x10 {
        3
    } else if v == 0x13 || v == 0x1a || v == 0x1b {
        4
    } else if v == 0x14 || v == 0x18 || v == 0x19 {
        5
    } else {
        0
    }
}

/// The LTE RRC channel that PDU number `pdu` names in numbering scheme `layout`.
pub open spec fn lte_rrc_channel(layout: int, pdu: u8) -> Option<LteRrcSubtype> {
    if layout == 1 {
        if pdu == 1 { Some(LteRrcSubtype::BcchBch) }
        else if pdu == 2 { Some(LteRrcSubtype::BcchDlSch) }
        else if pdu == 3 { Some(LteRrcSubtype::MCCH) }
        else if pdu == 4 { Some(LteRrcSubtype::PCCH) }
        else if pdu == 5 { Some(LteRrcSubtype::DlCcch) }
        else if pdu == 6 { Some(LteRrcSubtype::DlDcch) }
        else if pdu == 7 { Some(LteRrcSubtype::UlCcch) }
        else if pdu == 8 { Some(LteRrcSubtype::UlDcch) }
        else { None }
    } else if layout == 2 {
        if pdu == 8 { Some(LteRrcSubtype::BcchBch) }
        else if pdu == 9 { Some(LteRrcSubtype::BcchDlSch) }
        else if pdu == 10 { Some(LteRrcSubtype::MCCH) }
        else if pdu == 11 { Some(LteRrcSubtype::PCCH) }
        else if pdu == 12 { Some(LteRrcSubtype::DlCcch) }
        else if pdu == 13 { Some(LteRrcSubtype::DlDcch) }
        else if pdu == 14 { Some(LteRrcSubtype::UlCcch) }
        else if pdu == 15 { Some(LteRrcSubtype::UlDcch) }
        else { None }
    } else if layout == 3 || layout == 5 {
        if pdu == 1 { Some(LteRrcSubtype::BcchBch) }
        else if pdu == 2 { Some(LteRrcSubtype::BcchDlSch) }
        else if pdu == 4 { Some(LteRrcSubtype::MCCH) }
        else if pdu == 5 { Some(LteRrcSubtype::PCCH) }
        else if pdu == 6 { Some(LteRrcSubtype::DlCcch) }
        else if pdu == 7 { Some(LteRrcSubtype::DlDcch) }
        else if pdu == 8 { Some(LteRrcSubtype::UlCcch) }
        else if pdu == 9 { Some(LteRrcSubtype::UlDcch) }
        else if layout == 5 && pdu == 54 { Some(LteRrcSubtype::BcchBchNb) }
        else if layout == 5 && pdu == 55 { Some(LteRrcSubtype::BcchDlSchNb) }
        else if layout == 5 && pdu == 56 { Some(LteRrcSubtype::PcchNb) }
        else if layout == 5 && pdu == 57 { Some(LteRrcSubtype::DlCcchNb) }
        else if layout == 5 && pdu == 58 { Some(LteRrcSubtype::DlDcchNb) }
        else if layout == 5 && pdu == 59 { Some(LteRrcSubtype::UlCcchNb) }
        else if layout == 5 && pdu == 61 { Some(LteRrcSubtype::UlDcchNb) }
        else { None }
    } else if layout == 4 {
        if pdu == 1 { Some(LteRrcSubtype::BcchBch) }
        else if pdu == 3 { Some(LteRrcSubtype::BcchDlSch) }
        else if pdu == 6 { Some(LteRrcSubtype::MCCH) }
        else if pdu == 7 { Some(LteRrcSubtype::PCCH) }
        else if pdu == 8 { Some(LteRrcSubtype::DlCcch) }
        else if pdu == 9 { Some(LteRrcSubtype::DlDcch) }
        else if pdu == 10 { Some(LteRrcSubtype::UlCcch) }
        else if pdu == 11 { Some(LteRrcSubtype::UlDcch) }
        else if pdu == 45 { Some(LteRrcSubtype::BcchBchNb) }
        else if pdu == 46 { Some(LteRrcSubtype::BcchDlSchNb) }
        else if pdu == 47 { Some(LteRrcSubtype::PcchNb) }
        else if pdu == 48 { Some(LteRrcSubtype::DlCcchNb) }
        else if pdu == 49 { Some(LteRrcSubtype::DlDcchNb) }
        else if pdu == 50 { Some(LteRrcSubtype::UlCcchNb) }
        else if pdu == 52 { Some(LteRrcSubtype::UlDcchNb) }
        else { None }
    } else {
        None
    }
}

/// The UMTS RRC channel and direction of a WCDMA signalling record's
/// channel type, for the channel types that are converted.
pub open spec fn umts_channel(channel_type: u8) -> Option<(UmtsRrcSubtype, bool)> {
    if channel_type == 0x00 { Some((UmtsRrcSubtype::UlCcch, true)) }
    else if channel_type == 0x01 { Some((UmtsRrcSubtype::UlDcch, true)) }
    else if channel_type == 0x02 { Some((UmtsRrcSubtype::DlCcch, false)) }
    else if channel_type == 0x03 { Some((UmtsRrcSubtype::DlDcch, false)) }
    else if channel_type == 0x04 { Some((UmtsRrcSubtype::BcchBch, false)) }
    else if channel_type == 0x05 { Some((UmtsRrcSubtype::BcchFach, false)) }
    else if channel_type == 0x06 { Some((UmtsRrcSubtype::Pcch, false)) }
    else if channel_type == 0x07 { Some((UmtsRrcSubtype::Mcch, false)) }
    else if channel_type == 0x08 { Some((UmtsRrcSubtype::Msch, false)) }
    else if channel_type == 0x0a { Some((UmtsRrcSubtype::SystemInformationContainer, false)) }
    else { None }
}

/// The LAPDm length octet for an L3 message of `length` bytes: the length
/// shifted left by two with the end-of-message bit set, kept to eight bits.
pub open spec fn lapdm_length_octet(length: u8) -> u8 {
    ((4 * length + 1) % 256) as u8
}

/// The GSM frame for a GSM RR signalling record: bit 7 of the channel type is
/// the direction (set means uplink), the low seven bits the channel class.
/// BCCH, RACH and CCCH carry the bare L3 message; SDCCH gets a LAPDm UI
/// header in front, SACCH a SACCH L1 header and then the LAPDm UI header,
/// both sent as SDCCH/8. Other channel classes are dropped.
pub open spec fn gsm_conversion(channel_type: u8, length: u8, msg: Seq<u8>) -> Conversion {
    let uplink = channel_type >= 0x80;
    let ch = channel_type % 0x80;
    let frame = |sub: UmSubtype, payload: Seq<u8>|
        Conversion::Frame {
            header: GsmtapHeader { uplink, ..default_header(GsmtapType::Um(sub)) },
            payload,
        };
    if ch == 0x01 {
        frame(UmSubtype::Bcch, msg)
    } else if ch == 0x02 {
        frame(UmSubtype::Rach, msg)
    } else if ch == 0x03 {
        frame(UmSubtype::Ccch, msg)
    } else if ch == 0x00 {
        frame(UmSubtype::Sdcch8, seq![0x01u8, 0x03u8, lapdm_length_octet(length)] + msg)
    } else if ch == 0x04 {
        frame(
            UmSubtype::Sdcch8,
            seq![0x00u8, 0x00u8, 0x01u8, 0x03u8, lapdm_length_octet(length)] + msg,
        )
    } else {
        Conversion::Dropped
    }
}

/// What converting a log record gives.
pub open spec fn log_conversion(body: LogBody) -> Conversion {
    match body {
        LogBody::LteRrcOtaMessage { ext_header_version, packet } => {
            let layout = lte_rrc_layout(ext_header_version);
            if layout == 0 {
                Conversion::BadExtHeaderVersion(ext_header_version)
            } else {
                match lte_rrc_channel(layout, packet.pdu_num) {
                    None => Conversion::BadPduNum(ext_header_version, packet.pdu_num),
                    Some(sub) => Conversion::Frame {
                        header: GsmtapHeader {
                            arfcn: (packet.earfcn % 0x4000) as u16,
                            frame_number: packet.sfn,
                            subslot: packet.subfn,
                            ..default_header(GsmtapType::LteRrc(sub))
                        },
                        payload: packet.payload@,
                    },
                }
            }
        },
        LogBody::Nas4GMessage { direction, msg, .. } => Conversion::Frame {
            header: GsmtapHeader {
                uplink: direction == Nas4GMessageDirection::Uplink,
                ..default_header(GsmtapType::LteNas(LteNasSubtype::Plain))
            },
            payload: msg@,
        },
        LogBody::LteMacRachResponse { packet } => {
            if packet.subpackets.len() == 0 {
                Conversion::BadMacRachResponse("no subpackets"@)
            } else {
                match packet.subpackets[0].frame {
                    Ok(Some(m)) => Conversion::Frame { header: m.header, payload: m.payload@ },
                    Ok(None) => Conversion::Dropped,
                    Err(e) => Conversion::BadMacRachResponse(
                        "unable to serialize GSMTAP payload: "@ + e@,
                    ),
                }
            }
        },
        LogBody::WcdmaSignallingMessage { channel_type, msg, .. } => {
            if channel_type >= 0x80 {
                Conversion::Dropped
            } else {
                match umts_channel(channel_type) {
                    None => Conversion::Dropped,
                    Some((sub, uplink)) => Conversion::Frame {
                        header: GsmtapHeader {
                            uplink,
                            ..default_header(GsmtapType::UmtsRrc(sub))
                        },
                        payload: msg@,
                    },
                }
            }
        },
        LogBody::GsmRrSignallingMessage { channel_type, length, msg, .. } => gsm_conversion(
            channel_type,
            length,
            msg@,
        ),
        LogBody::Other { .. } => Conversion::Dropped,
    }
}

fn lte_rrc_subtype(ext_header_version: u8, pdu: u8) -> (r: Result<LteRrcSubtype, GsmtapParserError>)
    ensures
        match r {
            Ok(sub) => lte_rrc_layout(ext_header_version) != 0 && lte_rrc_channel(
                lte_rrc_layout(ext_header_version),
                pdu,
            ) == Some(sub),
            Err(e) => conversion_of(Err(e)) == (if lte_rrc_layout(ext_header_version) == 0 {
                Conversion::BadExtHeaderVersion(ext_header_version)
            } else {
                Conversion::BadPduNum(ext_header_version, pdu)
            }) && (lte_rrc_layout(ext_header_version) != 0 ==> lte_rrc_channel(
                lte_rrc_layout(ext_header_version),
                pdu,
            ) is None),
        },
{
    let v = ext_header_version;
    let bad = GsmtapParserError::InvalidLteRrcOtaHeaderPduNum(v, pdu);
    if v == 0x02 || v == 0x03 || v == 0x04 || v == 0x06 || v == 0x07 || v == 0x08 || v == 0x0d || v == 0x16 {
        match pdu {
            1 => Ok(LteRrcSubtype::BcchBch),
            2 => Ok(LteRrcSubtype::BcchDlSch),
            3 => Ok(LteRrcSubtype::MCCH),
            4 => Ok(LteRrcSubtype::PCCH),
            5 => Ok(LteRrcSubtype::DlCcch),
            6 => Ok(LteRrcSubtype::DlDcch),
            7 => Ok(LteRrcSubtype::UlCcch),
            8 => Ok(LteRrcSubtype::UlDcch),
            _ => Err(bad),
        }
    } else if v == 0x09 || v == 0x0c {
        match pdu {
            8 => Ok(LteRrcSubtype::BcchBch),
            9 => Ok(LteRrcSubtype::BcchDlSch),
            10 => Ok(LteRrcSubtype::MCCH),
            11 => Ok(LteRrcSubtype::PCCH),
            12 => Ok(LteRrcSubtype::DlCcch),
            13 => Ok(LteRrcSubtype::DlDcch),
            14 => Ok(LteRrcSubtype::UlCcch),
            15 => Ok(LteRrcSubtype::UlDcch),
            _ => Err(bad),
        }
    } else if 0x0e <= v && v <= 0x10 {
        match pdu {
            1 => Ok(LteRrcSubtype::BcchBch),
            2 => Ok(LteRrcSubtype::BcchDlSch),
            4 => Ok(LteRrcSubtype::MCCH),
            5 => Ok(LteRrcSubtype::PCCH),
            6 => Ok(LteRrcSubtype::DlCcch),
            7 => Ok(LteRrcSubtype::DlDcch),
            8 => Ok(LteRrcSubtype::UlCcch),
            9 => Ok(LteRrcSubtype::UlDcch),
            _ => Err(bad),
        }
    } else if v == 0x13 || v == 0x1a || v == 0x1b {
        match pdu {
            1 => Ok(LteRrcSubtype::BcchBch),
            3 => Ok(LteRrcSubtype::BcchDlSch),
            6 => Ok(LteRrcSubtype::MCCH),
            7 => Ok(LteRrcSubtype::PCCH),
            8 => Ok(LteRrcSubtype::DlCcch),
            9 => Ok(LteRrcSubtype::DlDcch),
            10 => Ok(LteRrcSubtype::UlCcch),
            11 => Ok(LteRrcSubtype::UlDcch),
            45 => Ok(LteRrcSubtype::BcchBchNb),
            46 => Ok(LteRrcSubtype::BcchDlSchNb),
            47 => Ok(LteRrcSubtype::PcchNb),
            48 => Ok(LteRrcSubtype::DlCcchNb),
            49 => Ok(LteRrcSubtype::DlDcchNb),
            50 => Ok(LteRrcSubtype::UlCcchNb),
            52 => Ok(LteRrcSubtype::UlDcchNb),
            _ => Err(bad),
        }
    } else if v == 0x14 || v == 0x18 || v == 0x19 {
        match pdu {
            1 => Ok(LteRrcSubtype::BcchBch),
            2 => Ok(LteRrcSubtype::BcchDlSch),
            4 => Ok(LteRrcSubtype::MCCH),
            5 => Ok(LteRrcSubtype::PCCH),
            6 => Ok(LteRrcSubtype::DlCcch),
            7 => Ok(LteRrcSubtype::DlDcch),
            8 => Ok(LteRrcSubtype::UlCcch),
            9 => Ok(LteRrcSubtype::UlDcch),
            54 => Ok(LteRrcSubtype::BcchBchNb),
            55 => Ok(LteRrcSubtype::BcchDlSchNb),
            56 => Ok(LteRrcSubtype::PcchNb),
            57 => Ok(LteRrcSubtype::DlCcchNb),
            58 => Ok(LteRrcSubtype::DlDcchNb),
            59 => Ok(LteRrcSubtype::UlCcchNb),
            61 => Ok(LteRrcSubtype::UlDcchNb),
            _ => Err(bad),
        }
    } else {
        Err(GsmtapParserError::InvalidLteRrcOtaExtHeaderVersion(v))
    }
}

/// `prefix` followed by `msg`.
fn prepend(prefix: Vec<u8>, msg: Vec<u8>) -> (r: Vec<u8>)
    ensures
        r@ == prefix@ + msg@,
{
    let mut buf = prefix;
    let mut rest = msg;
    buf.append(&mut rest);
    buf
}

/// Converts a GSM RR signalling record.
fn gsm_to_gsmtap(channel_type: u8, length: u8, msg: Vec<u8>) -> (r: Option<GsmtapMessage>)
    ensures
        conversion_of(Ok(r)) == gsm_conversion(channel_type, length, msg@),
{
    let uplink = (channel_type & 0x80) != 0;
    let ch = channel_type & 0x7F;
    assert(((channel_type & 0x80) != 0) == (channel_type >= 0x80) && channel_type & 0x7F
        == channel_type % 0x80) by (bit_vector);
    // The length is widened before the shift; the octet keeps its low eight bits.
    let len_byte = #[verifier::truncate] ((((length as u16) << 2) | 0x01) as u8);
    assert(len_byte == lapdm_length_octet(length)) by {
        assert(#[verifier::truncate] ((((length as u16) << 2) | 0x01) as u8) == ((4 * length + 1) % 256) as u8)
            by (bit_vector);
    }
    let (subtype, payload) = match ch {
        0x01 => (UmSubtype::Bcch, msg),
        0x02 => (UmSubtype::Rach, msg),
        0x03 => (UmSubtype::Ccch, msg),
        0x00 => (UmSubtype::Sdcch8, prepend(vec![0x01, 0x03, len_byte], msg)),
        0x04 => (UmSubtype::Sdcch8, prepend(vec![0x00, 0x00, 0x01, 0x03, len_byte], msg)),
        _ => {
            return None;
        },
    };
    let mut header = GsmtapHeader::new(GsmtapType::Um(subtype));
    header.uplink = uplink;
    proof {
        if ch == 0 {
            assert(payload@ =~= seq![0x01u8, 0x03u8, lapdm_length_octet(length)] + msg@);
        } else if ch == 4 {
            assert(payload@ =~= seq![0x00u8, 0x00u8, 0x01u8, 0x03u8, lapdm_length_octet(length)]
                + msg@);
        }
    }
    Some(GsmtapMessage { header, payload })
}

/// Converts one diagnostic log record into a GSMTAP frame, when its kind is
/// one that is converted.
pub fn log_to_gsmtap(value: LogBody) -> (r: Result<Option<GsmtapMessage>, GsmtapParserError>)
    ensures
        conversion_of(r) == log_conversion(value),
{
    match value {
        LogBody::LteRrcOtaMessage { ext_header_version, packet } => {
            let subtype = match lte_rrc_subtype(ext_header_version, packet.get_pdu_num()) {
                Ok(s) => s,
                Err(e) => {
                    return Err(e);
                },
            };
            let mut header = GsmtapHeader::new(GsmtapType::LteRrc(subtype));
            header.arfcn = (packet.get_earfcn() as u16) & 0x3FFF;
            assert(header.arfcn == (packet.earfcn % 0x4000) as u16) by {
                let e = packet.earfcn;
                assert((e as u16) & 0x3FFF == (e % 0x4000) as u16) by (bit_vector);
            }
            header.frame_number = packet.get_sfn();
            header.subslot = packet.get_subfn();
            Ok(Some(GsmtapMessage { header, payload: packet.take_payload() }))
        },
        LogBody::Nas4GMessage { msg, direction, .. } => {
            // Only plain (non-secure) NAS messages are handled.
            let mut header = GsmtapHeader::new(GsmtapType::LteNas(LteNasSubtype::Plain));
            header.uplink = match direction {
                Nas4GMessageDirection::Uplink => true,
                Nas4GMessageDirection::Downlink => false,
            };
            Ok(Some(GsmtapMessage { header, payload: msg }))
        },
        LogBody::LteMacRachResponse { packet } => {
            // Only the first subpacket is converted.
            let mut subpackets = packet.subpackets;
            if subpackets.len() == 0 {
                return Err(
                    GsmtapParserError::InvalidLteMacRachResponse(String::from_str("no subpackets")),
                );
            }
            let first = subpackets.remove(0);
            match first.frame {
                Ok(frame) => Ok(frame),
                Err(err) => Err(
                    GsmtapParserError::InvalidLteMacRachResponse(
                        String::from_str("unable to serialize GSMTAP payload: ").concat(
                            err.as_str(),
                        ),
                    ),
                ),
            }
        },
        LogBody::WcdmaSignallingMessage { channel_type, msg, .. } => {
            // A channel type of 0x80 or more marks a record whose payload starts
            // with extra header bytes; such records are dropped.
            if channel_type >= 0x80 {
                return Ok(None);
            }
            let (subtype, uplink) = match channel_type {
                0x00 => (UmtsRrcSubtype::UlCcch, true),
                0x01 => (UmtsRrcSubtype::UlDcch, true),
                0x02 => (UmtsRrcSubtype::DlCcch, false),
                0x03 => (UmtsRrcSubtype::DlDcch, false),
                0x04 => (UmtsRrcSubtype::BcchBch, false),
                0x05 => (UmtsRrcSubtype::BcchFach, false),
                0x06 => (UmtsRrcSubtype::Pcch, false),
                0x07 => (UmtsRrcSubtype::Mcch, false),
                0x08 => (UmtsRrcSubtype::Msch, false),
                0x0a => (UmtsRrcSubtype::SystemInformationContainer, false),
                _ => {
                    return Ok(None);
                },
            };
            let mut header = GsmtapHeader::new(GsmtapType::UmtsRrc(subtype));
            header.uplink = uplink;
            Ok(Some(GsmtapMessage { header, payload: msg }))
        },
        LogBody::GsmRrSignallingMessage { channel_type, length, msg, .. } => {
            Ok(gsm_to_gsmtap(channel_type, length, msg))
        },
        LogBody::Other { .. } => Ok(None),
    }
}

/// The meaning of a `parse` result: the timestamp attached to a frame, and
/// the conversion.
pub open spec fn parse_outcome(r: Result<Option<(Timestamp, GsmtapMessage)>, GsmtapParserError>) -> (
    Option<Timestamp>,
    Conversion,
) {
    match r {
        Ok(Some((t, m))) => (Some(t), conversion_of(Ok(Some(m)))),
        Ok(None) => (None, Conversion::Dropped),
        Err(e) => (None, conversion_of(Err(e))),
    }
}

/// What `parse` gives for a message: a log record is converted and a frame
/// carries the record's timestamp; any other message is dropped.
pub open spec fn message_conversion(msg: Message) -> (Option<Timestamp>, Conversion) {
    match msg {
        Message::Log { timestamp, body } => {
            let c = log_conversion(body);
            if c is Frame {
                (Some(timestamp), c)
            } else {
                (None, c)
            }
        },
        Message::Other => (None, Conversion::Dropped),
    }
}

/// Converts a diagnostic message into a timestamped GSMTAP frame, when it is
/// a log record of a kind that is converted.
pub fn parse(msg: Message) -> (r: Result<Option<(Timestamp, GsmtapMessage)>, GsmtapParserError>)
    ensures
        parse_outcome(r) == message_conversion(msg),
{
    if let Message::Log { timestamp, body } = msg {
        match log_to_gsmtap(body) {
            Ok(Some(m)) => Ok(Some((timestamp, m))),
            Ok(None) => Ok(None),
            Err(e) => Err(e),
        }
    } else {
        Ok(None)
    }
}

/// The channel number of an LTE RRC frame always fits the 14-bit GSMTAP
/// field: it is the EARFCN reduced to its low 14 bits.
pub proof fn law_lte_rrc_arfcn_fits(body: LogBody)
    requires
        body is LteRrcOtaMessage,
        log_conversion(body) is Frame,
    ensures
        log_conversion(body)->header.arfcn < 0x4000,
        log_conversion(body)->header.arfcn == body->LteRrcOtaMessage_packet.earfcn % 0x4000,
{
}

/// Bit 7 of a GSM channel type is the direction and nothing else: the
/// record converts as its low seven bits would, with the uplink flag set
/// exactly when bit 7 is.
pub proof fn law_gsm_direction_bit(channel_type: u8, length: u8, msg: Seq<u8>)
    ensures
        match (gsm_conversion(channel_type, length, msg), gsm_conversion(
            channel_type % 0x80,
            length,
            msg,
        )) {
            (
                Conversion::Frame { header: h1, payload: p1 },
                Conversion::Frame { header: h2, payload: p2 },
            ) => h1.gsmtap_type == h2.gsmtap_type && p1 == p2 && h1.uplink == (channel_type
                >= 0x80) && !h2.uplink,
            (Conversion::Dropped, Conversion::Dropped) => true,
            _ => false,
        },
{
}

/// A GSM frame carries the whole L3 message at its end, behind at most
/// five header bytes.
pub proof fn law_gsm_payload_ends_with_message(channel_type: u8, length: u8, msg: Seq<u8>)
    requires
        gsm_conversion(channel_type, length, msg) is Frame,
    ensures
        ({
            let p = gsm_conversion(channel_type, length, msg)->payload;
            &&& msg.len() <= p.len() <= msg.len() + 5
            &&& p.skip(p.len() - msg.len()) == msg
        }),
{
    let p = gsm_conversion(channel_type, length, msg)->payload;
    assert(p.skip(p.len() - msg.len()) =~= msg);
}

/// NAS, WCDMA, GSM and other records never fail to convert; only LTE RRC
/// and MAC RACH records can.
pub proof fn law_only_rrc_and_mac_fail(body: LogBody)
    requires
        !(body is LteRrcOtaMessage),
        !(body is LteMacRachResponse),
    ensures
        log_conversion(body) is Frame || log_conversion(body) is Dropped,
{
}

/// LTE RRC, NAS and WCDMA frames carry the record's message bytes unchanged.
pub proof fn law_payload_passed_through(body: LogBody)
    requires
        log_conversion(body) is Frame,
    ensures
        body matches LogBody::LteRrcOtaMessage { packet, .. } ==> log_conversion(body)->payload
            == packet.payload@,
        body matches LogBody::Nas4GMessage { msg, .. } ==> log_conversion(body)->payload == msg@,
        body matches LogBody::WcdmaSignallingMessage { msg, .. } ==> log_conversion(body)->payload
            == msg@,
{
}

/// Messages other than log records give nothing, and every frame that
/// `parse` gives carries its record's timestamp.
pub proof fn law_parse_keeps_timestamp(msg: Message)
    ensures
        msg is Other ==> message_conversion(msg) == (None::<Timestamp>, Conversion::Dropped),
        message_conversion(msg).1 is Frame ==> (msg matches Message::Log { timestamp, .. }
            && message_conversion(msg).0 == Some(timestamp)),
{
}

} // verus!
