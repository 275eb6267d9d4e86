//! GSMTAP frames: the header fields that the log conversion fills in, the
//! frame type with its per-technology subtypes, and the frame itself.

use vstd::prelude::*;

verus! {

/// Subtypes of GSM Um (air interface) frames.
#[derive(Clone, Copy, Debug, PartialEq, Eq, Structural)]
pub enum UmSubtype {
    Bcch,
    Ccch,
    Rach,
    Sdcch8,
}

/// Subtypes of UMTS RRC frames, by logical channel.
#[derive(Clone, Copy, Debug, PartialEq, Eq, Structural)]
pub enum UmtsRrcSubtype {
    DlDcch,
    UlDcch,
    DlCcch,
    UlCcch,
    Pcch,
    BcchFach,
    BcchBch,
    Mcch,
    Msch,
    SystemInformationContainer,
}

/// Subtypes of LTE RRC frames, by logical channel.
#[derive(Clone, Copy, Debug, PartialEq, Eq, Structural)]
pub enum LteRrcSubtype {
    DlCcch,
    DlDcch,
    UlCcch,
    UlDcch,
    BcchBch,
    BcchDlSch,
    PCCH,
    MCCH,
    BcchBchNb,
    BcchDlSchNb,
    PcchNb,
    DlCcchNb,
    DlDcchNb,
    UlCcchNb,
    UlDcchNb,
}

/// Subtypes of LTE NAS frames.
#[derive(Clone, Copy, Debug, PartialEq, Eq, Structural)]
pub enum LteNasSubtype {
    Plain,
    Secure,
}

/// The kind of a GSMTAP frame together with its subtype.
#[derive(Clone, Copy, Debug, PartialEq, Eq, Structural)]
pub enum GsmtapType {
    Um(UmSubtype),
    UmtsRrc(UmtsRrcSubtype),
    LteRrc(LteRrcSubtype),
    LteNas(LteNasSubtype),
}

/// The GSMTAP header fields that the conversion from diagnostic logs sets.
#[derive(Clone, Copy, Debug, PartialEq, Eq, Structural)]
pub struct GsmtapHeader {
    pub gsmtap_type: GsmtapType,
    pub uplink: bool,
    /// Radio channel number; the on-wire field holds 14 bits.
    pub arfcn: u16,
    pub frame_number: u32,
    pub subslot: u8,
}

/// A header of the given type with every other field at its default.
pub open spec fn default_header(gsmtap_type: GsmtapType) -> GsmtapHeader {
    GsmtapHeader { gsmtap_type, uplink: false, arfcn: 0, frame_number: 0, subslot: 0 }
}

impl GsmtapHeader {
    pub fn new(gsmtap_type: GsmtapType) -> (h: GsmtapHeader)
        ensures
            h == default_header(gsmtap_type),
    {
        GsmtapHeader { gsmtap_type, uplink: false, arfcn: 0, frame_number: 0, subslot: 0 }
    }
}

/// A GSMTAP frame: header and payload bytes.
#[derive(Clone, Debug)]
pub struct GsmtapMessage {
    pub header: GsmtapHeader,
    pub payload: Vec<u8>,
}

} // verus!
