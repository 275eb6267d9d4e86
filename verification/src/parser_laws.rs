//! What the GSMTAP conversion gives, stated case by case over the inputs
//! and the result of `log_to_gsmtap` (any result that its contract admits).

use vstd::prelude::*;

use crate::diag::{LogBody, LteMacRachResponsePacket, LteRrcOtaPacket, Nas4GMessageDirection};
use crate::gsmtap::{GsmtapMessage, GsmtapType, LteNasSubtype, LteRrcSubtype, UmSubtype, UmtsRrcSubtype};
use crate::parser::{conversion_of, log_conversion, GsmtapParserError};

verus! {

/// `r` is a frame of the given LTE RRC channel.
pub open spec fn is_lte_rrc_frame(r: Result<Option<GsmtapMessage>, GsmtapParserError>, sub: LteRrcSubtype) -> bool {
    r matches Ok(Some(m)) && m.header.gsmtap_type == GsmtapType::LteRrc(sub)
}

/// Layout versions 0x02, 0x03, 0x04, 0x06, 0x07, 0x08, 0x0d and 0x16 number the channels 1 to 8.
pub proof fn law_lte_rrc_layout_a(v: u8, packet: LteRrcOtaPacket, r: Result<Option<GsmtapMessage>, GsmtapParserError>)
    requires
        v == 0x02 || v == 0x03 || v == 0x04 || v == 0x06 || v == 0x07 || v == 0x08 || v == 0x0d || v == 0x16,
        conversion_of(r) == log_conversion(LogBody::LteRrcOtaMessage { ext_header_version: v, packet }),
    ensures
        packet.pdu_num == 1 ==> is_lte_rrc_frame(r, LteRrcSubtype::BcchBch),
        packet.pdu_num == 2 ==> is_lte_rrc_frame(r, LteRrcSubtype::BcchDlSch),
        packet.pdu_num == 3 ==> is_lte_rrc_frame(r, LteRrcSubtype::MCCH),
        packet.pdu_num == 4 ==> is_lte_rrc_frame(r, LteRrcSubtype::PCCH),
        packet.pdu_num == 5 ==> is_lte_rrc_frame(r, LteRrcSubtype::DlCcch),
        packet.pdu_num == 6 ==> is_lte_rrc_frame(r, LteRrcSubtype::DlDcch),
        packet.pdu_num == 7 ==> is_lte_rrc_frame(r, LteRrcSubtype::UlCcch),
        packet.pdu_num == 8 ==> is_lte_rrc_frame(r, LteRrcSubtype::UlDcch),
        (packet.pdu_num != 1 && packet.pdu_num != 2 && packet.pdu_num != 3 && packet.pdu_num != 4 && packet.pdu_num != 5 && packet.pdu_num != 6 && packet.pdu_num != 7 && packet.pdu_num != 8) ==> (r matches Err(GsmtapParserError::InvalidLteRrcOtaHeaderPduNum(a, b)) && a == v && b == packet.pdu_num),
{
}

/// Layout versions 0x09 and 0x0c number the channels 8 to 15.
pub proof fn law_lte_rrc_layout_b(v: u8, packet: LteRrcOtaPacket, r: Result<Option<GsmtapMessage>, GsmtapParserError>)
    requires
        v == 0x09 || v == 0x0c,
        conversion_of(r) == log_conversion(LogBody::LteRrcOtaMessage { ext_header_version: v, packet }),
    ensures
        packet.pdu_num == 8 ==> is_lte_rrc_frame(r, LteRrcSubtype::BcchBch),
        packet.pdu_num == 9 ==> is_lte_rrc_frame(r, LteRrcSubtype::BcchDlSch),
        packet.pdu_num == 10 ==> is_lte_rrc_frame(r, LteRrcSubtype::MCCH),
        packet.pdu_num == 11 ==> is_lte_rrc_frame(r, LteRrcSubtype::PCCH),
        packet.pdu_num == 12 ==> is_lte_rrc_frame(r, LteRrcSubtype::DlCcch),
        packet.pdu_num == 13 ==> is_lte_rrc_frame(r, LteRrcSubtype::DlDcch),
        packet.pdu_num == 14 ==> is_lte_rrc_frame(r, LteRrcSubtype::UlCcch),
        packet.pdu_num == 15 ==> is_lte_rrc_frame(r, LteRrcSubtype::UlDcch),
        (packet.pdu_num != 8 && packet.pdu_num != 9 && packet.pdu_num != 10 && packet.pdu_num != 11 && packet.pdu_num != 12 && packet.pdu_num != 13 && packet.pdu_num != 14 && packet.pdu_num != 15) ==> (r matches Err(GsmtapParserError::InvalidLteRrcOtaHeaderPduNum(a, b)) && a == v && b == packet.pdu_num),
{
}

/// Layout versions 0x0e to 0x10 number the channels 1, 2 and 4 to 9.
pub proof fn law_lte_rrc_layout_c(v: u8, packet: LteRrcOtaPacket, r: Result<Option<GsmtapMessage>, GsmtapParserError>)
    requires
        0x0e <= v && v <= 0x10,
        conversion_of(r) == log_conversion(LogBody::LteRrcOtaMessage { ext_header_version: v, packet }),
    ensures
        packet.pdu_num == 1 ==> is_lte_rrc_frame(r, LteRrcSubtype::BcchBch),
        packet.pdu_num == 2 ==> is_lte_rrc_frame(r, LteRrcSubtype::BcchDlSch),
        packet.pdu_num == 4 ==> is_lte_rrc_frame(r, LteRrcSubtype::MCCH),
        packet.pdu_num == 5 ==> is_lte_rrc_frame(r, LteRrcSubtype::PCCH),
        packet.pdu_num == 6 ==> is_lte_rrc_frame(r, LteRrcSubtype::DlCcch),
        packet.pdu_num == 7 ==> is_lte_rrc_frame(r, LteRrcSubtype::DlDcch),
        packet.pdu_num == 8 ==> is_lte_rrc_frame(r, LteRrcSubtype::UlCcch),
        packet.pdu_num == 9 ==> is_lte_rrc_frame(r, LteRrcSubtype::UlDcch),
        (packet.pdu_num != 1 && packet.pdu_num != 2 && packet.pdu_num != 4 && packet.pdu_num != 5 && packet.pdu_num != 6 && packet.pdu_num != 7 && packet.pdu_num != 8 && packet.pdu_num != 9) ==> (r matches Err(GsmtapParserError::InvalidLteRrcOtaHeaderPduNum(a, b)) && a == v && b == packet.pdu_num),
{
}

/// Layout versions 0x13, 0x1a and 0x1b number the channels 1, 3, 6 to 11, and the NB-IoT channels 45 to 50 and 52.
pub proof fn law_lte_rrc_layout_d(v: u8, packet: LteRrcOtaPacket, r: Result<Option<GsmtapMessage>, GsmtapParserError>)
    requires
        v == 0x13 || v == 0x1a || v == 0x1b,
        conversion_of(r) == log_conversion(LogBody::LteRrcOtaMessage { ext_header_version: v, packet }),
    ensures
        packet.pdu_num == 1 ==> is_lte_rrc_frame(r, LteRrcSubtype::BcchBch),
        packet.pdu_num == 3 ==> is_lte_rrc_frame(r, LteRrcSubtype::BcchDlSch),
        packet.pdu_num == 6 ==> is_lte_rrc_frame(r, LteRrcSubtype::MCCH),
        packet.pdu_num == 7 ==> is_lte_rrc_frame(r, LteRrcSubtype::PCCH),
        packet.pdu_num == 8 ==> is_lte_rrc_frame(r, LteRrcSubtype::DlCcch),
        packet.pdu_num == 9 ==> is_lte_rrc_frame(r, LteRrcSubtype::DlDcch),
        packet.pdu_num == 10 ==> is_lte_rrc_frame(r, LteRrcSubtype::UlCcch),
        packet.pdu_num == 11 ==> is_lte_rrc_frame(r, LteRrcSubtype::UlDcch),
        packet.pdu_num == 45 ==> is_lte_rrc_frame(r, LteRrcSubtype::BcchBchNb),
        packet.pdu_num == 46 ==> is_lte_rrc_frame(r, LteRrcSubtype::BcchDlSchNb),
        packet.pdu_num == 47 ==> is_lte_rrc_frame(r, LteRrcSubtype::PcchNb),
        packet.pdu_num == 48 ==> is_lte_rrc_frame(r, LteRrcSubtype::DlCcchNb),
        packet.pdu_num == 49 ==> is_lte_rrc_frame(r, LteRrcSubtype::DlDcchNb),
        packet.pdu_num == 50 ==> is_lte_rrc_frame(r, LteRrcSubtype::UlCcchNb),
        packet.pdu_num == 52 ==> is_lte_rrc_frame(r, LteRrcSubtype::UlDcchNb),
        (packet.pdu_num != 1 && packet.pdu_num != 3 && packet.pdu_num != 6 && packet.pdu_num != 7 && packet.pdu_num != 8 && packet.pdu_num != 9 && packet.pdu_num != 10 && packet.pdu_num != 11 && packet.pdu_num != 45 && packet.pdu_num != 46 && packet.pdu_num != 47 && packet.pdu_num != 48 && packet.pdu_num != 49 && packet.pdu_num != 50 && packet.pdu_num != 52) ==> (r matches Err(GsmtapParserError::InvalidLteRrcOtaHeaderPduNum(a, b)) && a == v && b == packet.pdu_num),
{
}

/// Layout versions 0x14, 0x18 and 0x19 number the channels 1, 2, 4 to 9, and the NB-IoT channels 54 to 59 and 61.
pub proof fn law_lte_rrc_layout_e(v: u8, packet: LteRrcOtaPacket, r: Result<Option<GsmtapMessage>, GsmtapParserError>)
    requires
        v == 0x14 || v == 0x18 || v == 0x19,
        conversion_of(r) == log_conversion(LogBody::LteRrcOtaMessage { ext_header_version: v, packet }),
    ensures
        packet.pdu_num == 1 ==> is_lte_rrc_frame(r, LteRrcSubtype::BcchBch),
        packet.pdu_num == 2 ==> is_lte_rrc_frame(r, LteRrcSubtype::BcchDlSch),
        packet.pdu_num == 4 ==> is_lte_rrc_frame(r, LteRrcSubtype::MCCH),
        packet.pdu_num == 5 ==> is_lte_rrc_frame(r, LteRrcSubtype::PCCH),
        packet.pdu_num == 6 ==> is_lte_rrc_frame(r, LteRrcSubtype::DlCcch),
        packet.pdu_num == 7 ==> is_lte_rrc_frame(r, LteRrcSubtype::DlDcch),
        packet.pdu_num == 8 ==> is_lte_rrc_frame(r, LteRrcSubtype::UlCcch),
        packet.pdu_num == 9 ==> is_lte_rrc_frame(r, LteRrcSubtype::UlDcch),
        packet.pdu_num == 54 ==> is_lte_rrc_frame(r, LteRrcSubtype::BcchBchNb),
        packet.pdu_num == 55 ==> is_lte_rrc_frame(r, LteRrcSubtype::BcchDlSchNb),
        packet.pdu_num == 56 ==> is_lte_rrc_frame(r, LteRrcSubtype::PcchNb),
        packet.pdu_num == 57 ==> is_lte_rrc_frame(r, LteRrcSubtype::DlCcchNb),
        packet.pdu_num == 58 ==> is_lte_rrc_frame(r, LteRrcSubtype::DlDcchNb),
        packet.pdu_num == 59 ==> is_lte_rrc_frame(r, LteRrcSubtype::UlCcchNb),
        packet.pdu_num == 61 ==> is_lte_rrc_frame(r, LteRrcSubtype::UlDcchNb),
        (packet.pdu_num != 1 && packet.pdu_num != 2 && packet.pdu_num != 4 && packet.pdu_num != 5 && packet.pdu_num != 6 && packet.pdu_num != 7 && packet.pdu_num != 8 && packet.pdu_num != 9 && packet.pdu_num != 54 && packet.pdu_num != 55 && packet.pdu_num != 56 && packet.pdu_num != 57 && packet.pdu_num != 58 && packet.pdu_num != 59 && packet.pdu_num != 61) ==> (r matches Err(GsmtapParserError::InvalidLteRrcOtaHeaderPduNum(a, b)) && a == v && b == packet.pdu_num),
{
}

/// Any other layout version is refused, whatever the PDU number; a frame
/// from a known version is a downlink-flagged LTE RRC frame whose channel
/// number is the EARFCN's low 14 bits, whose frame number and subslot are
/// the record's SFN and subframe, and whose payload is the PDU.
pub proof fn law_lte_rrc_versions_and_fields(v: u8, packet: LteRrcOtaPacket, r: Result<Option<GsmtapMessage>, GsmtapParserError>)
    requires
        conversion_of(r) == log_conversion(LogBody::LteRrcOtaMessage { ext_header_version: v, packet }),
    ensures
        (v != 0x2 && v != 0x3 && v != 0x4 && v != 0x6 && v != 0x7 && v != 0x8 && v != 0xd && v != 0x16 && v != 0x9 && v != 0xc && v != 0xe && v != 0xf && v != 0x10 && v != 0x13 && v != 0x1a && v != 0x1b && v != 0x14 && v != 0x18 && v != 0x19) ==> (r matches Err(GsmtapParserError::InvalidLteRrcOtaExtHeaderVersion(a)) && a == v),
        r matches Ok(Some(m)) ==> {
            &&& m.header.gsmtap_type is LteRrc
            &&& !m.header.uplink
            &&& m.header.arfcn == packet.earfcn % 16384
            &&& m.header.frame_number == packet.sfn
            &&& m.header.subslot == packet.subfn
            &&& m.payload@ == packet.payload@
        },
{
}

/// A GSM frame of the given type whose payload is `payload`.
pub open spec fn is_frame(r: Result<Option<GsmtapMessage>, GsmtapParserError>, t: GsmtapType, payload: Seq<u8>) -> bool {
    r matches Ok(Some(m)) && m.header.gsmtap_type == t && m.payload@ == payload
}

/// GSM RR signalling: the low seven bits of the channel type pick the
/// channel (0x00 SDCCH with a LAPDm UI header, 0x01 BCCH, 0x02 RACH, 0x03
/// CCCH, 0x04 SACCH with an L1 and a LAPDm UI header, both sent as SDCCH/8);
/// bit 7 set means uplink; other channel classes are dropped.
pub proof fn law_gsm_channels(
    channel_type: u8,
    message_type: u8,
    length: u8,
    msg: Vec<u8>,
    r: Result<Option<GsmtapMessage>, GsmtapParserError>,
)
    requires
        conversion_of(r) == log_conversion(
            LogBody::GsmRrSignallingMessage { channel_type, message_type, length, msg },
        ),
    ensures
        channel_type % 128 == 0 ==> is_frame(r, GsmtapType::Um(UmSubtype::Sdcch8),
            seq![0x01u8, 0x03u8, ((4 * length + 1) % 256) as u8] + msg@),
        channel_type % 128 == 1 ==> is_frame(r, GsmtapType::Um(UmSubtype::Bcch), msg@),
        channel_type % 128 == 2 ==> is_frame(r, GsmtapType::Um(UmSubtype::Rach), msg@),
        channel_type % 128 == 3 ==> is_frame(r, GsmtapType::Um(UmSubtype::Ccch), msg@),
        channel_type % 128 == 4 ==> is_frame(r, GsmtapType::Um(UmSubtype::Sdcch8),
            seq![0x00u8, 0x00u8, 0x01u8, 0x03u8, ((4 * length + 1) % 256) as u8] + msg@),
        channel_type % 128 > 4 ==> r matches Ok(None),
        r matches Ok(Some(m)) ==> m.header.uplink == (channel_type >= 128) && m.header.arfcn == 0
            && m.header.frame_number == 0 && m.header.subslot == 0,
{
}

/// WCDMA RRC signalling: a channel type of 0x80 or more is dropped; below
/// that, 0x00 UL-CCCH and 0x01 UL-DCCH are uplink, 0x02 DL-CCCH, 0x03 DL-DCCH,
/// 0x04 BCCH-BCH, 0x05 BCCH-FACH, 0x06 PCCH, 0x07 MCCH, 0x08 MSCH and 0x0a
/// system information containers are downlink, and anything else is
/// dropped. The payload is the message.
pub proof fn law_wcdma_channels(
    channel_type: u8,
    radio_bearer: u8,
    length: u16,
    msg: Vec<u8>,
    r: Result<Option<GsmtapMessage>, GsmtapParserError>,
)
    requires
        conversion_of(r) == log_conversion(
            LogBody::WcdmaSignallingMessage { channel_type, radio_bearer, length, msg },
        ),
    ensures
        channel_type == 0x00 ==> is_frame(r, GsmtapType::UmtsRrc(UmtsRrcSubtype::UlCcch), msg@),
        channel_type == 0x01 ==> is_frame(r, GsmtapType::UmtsRrc(UmtsRrcSubtype::UlDcch), msg@),
        channel_type == 0x02 ==> is_frame(r, GsmtapType::UmtsRrc(UmtsRrcSubtype::DlCcch), msg@),
        channel_type == 0x03 ==> is_frame(r, GsmtapType::UmtsRrc(UmtsRrcSubtype::DlDcch), msg@),
        channel_type == 0x04 ==> is_frame(r, GsmtapType::UmtsRrc(UmtsRrcSubtype::BcchBch), msg@),
        channel_type == 0x05 ==> is_frame(r, GsmtapType::UmtsRrc(UmtsRrcSubtype::BcchFach), msg@),
        channel_type == 0x06 ==> is_frame(r, GsmtapType::UmtsRrc(UmtsRrcSubtype::Pcch), msg@),
        channel_type == 0x07 ==> is_frame(r, GsmtapType::UmtsRrc(UmtsRrcSubtype::Mcch), msg@),
        channel_type == 0x08 ==> is_frame(r, GsmtapType::UmtsRrc(UmtsRrcSubtype::Msch), msg@),
        channel_type == 0x0a ==> is_frame(
            r,
            GsmtapType::UmtsRrc(UmtsRrcSubtype::SystemInformationContainer),
            msg@,
        ),
        (channel_type == 0x09 || channel_type > 0x0a) ==> r matches Ok(None),
        r matches Ok(Some(m)) ==> m.header.uplink == (channel_type <= 0x01) && m.header.arfcn == 0
            && m.header.frame_number == 0 && m.header.subslot == 0,
{
}

/// LTE NAS: a plain NAS frame carrying the message, uplink exactly when the
/// record says so.
pub proof fn law_nas_frame(
    ext_header_version: u8,
    direction: Nas4GMessageDirection,
    msg: Vec<u8>,
    r: Result<Option<GsmtapMessage>, GsmtapParserError>,
)
    requires
        conversion_of(r) == log_conversion(
            LogBody::Nas4GMessage { ext_header_version, direction, msg },
        ),
    ensures
        is_frame(r, GsmtapType::LteNas(LteNasSubtype::Plain), msg@),
        r matches Ok(Some(m)) && (m.header.uplink <==> direction
            == Nas4GMessageDirection::Uplink),
{
}

/// LTE MAC RACH response: with no subpacket it is refused; otherwise the
/// first subpacket alone decides: its frame (or none) comes out as it is,
/// and its conversion error is reported with a prefix.
pub proof fn law_mac_rach_first_subpacket(
    packet: LteMacRachResponsePacket,
    r: Result<Option<GsmtapMessage>, GsmtapParserError>,
)
    requires
        conversion_of(r) == log_conversion(LogBody::LteMacRachResponse { packet }),
    ensures
        packet.subpackets.len() == 0 ==> (r matches Err(
            GsmtapParserError::InvalidLteMacRachResponse(s),
        ) && s@ == "no subpackets"@),
        packet.subpackets.len() > 0 ==> match packet.subpackets[0].frame {
            Ok(Some(m0)) => r matches Ok(Some(m)) && m.header == m0.header && m.payload@
                == m0.payload@,
            Ok(None) => r matches Ok(None),
            Err(e) => r matches Err(GsmtapParserError::InvalidLteMacRachResponse(s)) && s@
                == "unable to serialize GSMTAP payload: "@ + e@,
        },
{
}

/// Other log records are dropped.
pub proof fn law_other_records_dropped(log_type: u16, r: Result<Option<GsmtapMessage>, GsmtapParserError>)
    requires
        conversion_of(r) == log_conversion(LogBody::Other { log_type }),
    ensures
        r matches Ok(None),
{
}

} // verus!
