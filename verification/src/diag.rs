//! Decoded diagnostic records as the GSMTAP conversion reads them.

use vstd::prelude::*;

use crate::gsmtap::GsmtapMessage;

verus! {

/// The modem's timestamp of a log record.
#[derive(Clone, Copy, Debug, PartialEq, Eq, Structural)]
pub struct Timestamp {
    pub ts: u64,
}

/// Direction of an LTE NAS message.
#[derive(Clone, Copy, Debug, PartialEq, Eq, Structural)]
pub enum Nas4GMessageDirection {
    Downlink,
    Uplink,
}

/// An LTE RRC over-the-air packet: the fields that every version of the
/// record layout carries, and the PDU bytes.
#[derive(Clone, Debug)]
pub struct LteRrcOtaPacket {
    pub pdu_num: u8,
    pub earfcn: u32,
    pub sfn: u32,
    pub subfn: u8,
    pub payload: Vec<u8>,
}

impl LteRrcOtaPacket {
    pub fn get_pdu_num(&self) -> (r: u8)
        ensures
            r == self.pdu_num,
    {
        self.pdu_num
    }

    pub fn get_earfcn(&self) -> (r: u32)
        ensures
            r == self.earfcn,
    {
        self.earfcn
    }

    pub fn get_sfn(&self) -> (r: u32)
        ensures
            r == self.sfn,
    {
        self.sfn
    }

    pub fn get_subfn(&self) -> (r: u8)
        ensures
            r == self.subfn,
    {
        self.subfn
    }

    pub fn take_payload(self) -> (r: Vec<u8>)
        ensures
            r@ == self.payload@,
    {
        self.payload
    }
}

/// One subpacket of an LTE MAC RACH response record, carried as what its
/// MAC body converts to: a GSMTAP frame (or none), or the debug rendering of
/// the conversion error.
#[derive(Debug)]
pub struct MacRachSubpacket {
    pub frame: Result<Option<GsmtapMessage>, String>,
}

/// An LTE MAC RACH response record.
#[derive(Debug)]
pub struct LteMacRachResponsePacket {
    pub subpackets: Vec<MacRachSubpacket>,
}

/// The body of a diagnostic log record.
#[derive(Debug)]
pub enum LogBody {
    LteRrcOtaMessage { ext_header_version: u8, packet: LteRrcOtaPacket },
    Nas4GMessage { ext_header_version: u8, direction: Nas4GMessageDirection, msg: Vec<u8> },
    LteMacRachResponse { packet: LteMacRachResponsePacket },
    WcdmaSignallingMessage { channel_type: u8, radio_bearer: u8, length: u16, msg: Vec<u8> },
    GsmRrSignallingMessage { channel_type: u8, message_type: u8, length: u8, msg: Vec<u8> },
    /// Any other kind of log record.
    Other { log_type: u16 },
}

/// A diagnostic message: a log record, or any other message.
#[derive(Debug)]
pub enum Message {
    Log { timestamp: Timestamp, body: LogBody },
    Other,
}

} // verus!
