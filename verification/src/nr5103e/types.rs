//! The values that the router loop holds: the credential, the session and
//! the status record.

use vstd::prelude::*;
use vstd::string::*;
use crate::json::{Json, JsonValue};

verus! {

/// The token that the router hands out at login.
pub struct SessionId(pub String);

impl View for SessionId {
    type V = Seq<char>;

    open spec fn view(&self) -> Seq<char> {
        self.0@
    }
}

/// The password of the router's `admin` account.
pub struct Password(pub(super) String);

impl View for Password {
    type V = Seq<char>;

    closed spec fn view(&self) -> Seq<char> {
        self.0@
    }
}

/// Anything that converts into a `String` converts into a password with
/// that text.
impl<T> From<T> for Password where T: Into<String> {
    fn from(value: T) -> (r: Self) {
        Self(value.into())
    }
}

impl<T> vstd::std_specs::convert::FromSpecImpl<T> for Password where T: Into<String> {
    open spec fn obeys_from_spec() -> bool {
        <T as vstd::std_specs::convert::IntoSpec<String>>::obeys_into_spec()
    }

    open spec fn from_spec(v: T) -> Self {
        Password::holding(<T as vstd::std_specs::convert::IntoSpec<String>>::into_spec(v))
    }
}

impl Password {
    /// The password with the given text.
    pub closed spec fn holding(text: String) -> Password {
        Password(text)
    }

    /// A password holds the text that it was made of.
    pub proof fn lemma_holding_view(text: String)
        ensures
            Password::holding(text)@ == text@,
    {
    }

    /// The text of the password.
    pub(super) fn as_str(&self) -> (r: &str)
        ensures
            r@ == self@,
    {
        self.0.as_str()
    }
}

/// The state of the cellular link, as the router reports it. Every field is
/// a member of the same name in the router's record, and every one of them
/// has to be there.
#[derive(Debug)]
#[allow(non_snake_case)]
pub struct WanStatus {
    pub CELL_Roaming_Enable: bool,
    pub INTF_Status: String,
    pub INTF_IMEI: String,
    pub INTF_Current_Access_Technology: String,
    pub INTF_Network_In_Use: String,
    pub INTF_RSSI: i32,
    pub INTF_Supported_Bands: String,
    pub INTF_Current_Band: String,
    pub INTF_Cell_ID: i32,
    pub INTF_PhyCell_ID: i32,
    pub INTF_Uplink_Bandwidth: String,
    pub INTF_Downlink_Bandwidth: String,
    pub INTF_RFCN: String,
    pub INTF_RSRP: i32,
    pub INTF_RSRQ: i32,
    pub INTF_RSCP: i32,
    pub INTF_EcNo: i32,
    pub INTF_TAC: i32,
    pub INTF_LAC: i32,
    pub INTF_RAC: i32,
    pub INTF_BSIC: i32,
    pub INTF_SINR: i32,
    pub INTF_CQI: i32,
    pub INTF_MCS: i32,
    pub INTF_RI: i32,
    pub INTF_PMI: i32,
    pub INTF_Module_Software_Version: String,
    pub USIM_Status: String,
    pub USIM_IMSI: String,
    pub USIM_ICCID: String,
    pub USIM_PIN_Protection: bool,
    pub USIM_PIN_Remaining_Attempts: i32,
    pub Passthru_Enable: bool,
    pub Passthru_Mode: String,
    pub Passthru_MacAddr: String,
    pub NSA_Enable: bool,
    pub NSA_MCC: String,
    pub NSA_MNC: String,
    pub NSA_PhyCellID: i32,
    pub NSA_RFCN: i32,
    pub NSA_Band: String,
    pub NSA_RSSI: i32,
    pub NSA_RSRP: i32,
    pub NSA_RSRQ: i32,
    pub NSA_SINR: i32,
}

impl WanStatus {
    /// Whether a record has every member that a status needs, each of its
    /// type: strings, booleans, and integers of 32 bits with sign. Further
    /// members are ignored.
    pub open spec fn complete(v: JsonValue) -> bool {
        &&& v.flag_at("CELL_Roaming_Enable"@) is Some
        &&& v.text_at("INTF_Status"@) is Some
        &&& v.text_at("INTF_IMEI"@) is Some
        &&& v.text_at("INTF_Current_Access_Technology"@) is Some
        &&& v.text_at("INTF_Network_In_Use"@) is Some
        &&& v.int32_at("INTF_RSSI"@) is Some
        &&& v.text_at("INTF_Supported_Bands"@) is Some
        &&& v.text_at("INTF_Current_Band"@) is Some
        &&& v.int32_at("INTF_Cell_ID"@) is Some
        &&& v.int32_at("INTF_PhyCell_ID"@) is Some
        &&& v.text_at("INTF_Uplink_Bandwidth"@) is Some
        &&& v.text_at("INTF_Downlink_Bandwidth"@) is Some
        &&& v.text_at("INTF_RFCN"@) is Some
        &&& v.int32_at("INTF_RSRP"@) is Some
        &&& v.int32_at("INTF_RSRQ"@) is Some
        &&& v.int32_at("INTF_RSCP"@) is Some
        &&& v.int32_at("INTF_EcNo"@) is Some
        &&& v.int32_at("INTF_TAC"@) is Some
        &&& v.int32_at("INTF_LAC"@) is Some
        &&& v.int32_at("INTF_RAC"@) is Some
        &&& v.int32_at("INTF_BSIC"@) is Some
        &&& v.int32_at("INTF_SINR"@) is Some
        &&& v.int32_at("INTF_CQI"@) is Some
        &&& v.int32_at("INTF_MCS"@) is Some
        &&& v.int32_at("INTF_RI"@) is Some
        &&& v.int32_at("INTF_PMI"@) is Some
        &&& v.text_at("INTF_Module_Software_Version"@) is Some
        &&& v.text_at("USIM_Status"@) is Some
        &&& v.text_at("USIM_IMSI"@) is Some
        &&& v.text_at("USIM_ICCID"@) is Some
        &&& v.flag_at("USIM_PIN_Protection"@) is Some
        &&& v.int32_at("USIM_PIN_Remaining_Attempts"@) is Some
        &&& v.flag_at("Passthru_Enable"@) is Some
        &&& v.text_at("Passthru_Mode"@) is Some
        &&& v.text_at("Passthru_MacAddr"@) is Some
        &&& v.flag_at("NSA_Enable"@) is Some
        &&& v.text_at("NSA_MCC"@) is Some
        &&& v.text_at("NSA_MNC"@) is Some
        &&& v.int32_at("NSA_PhyCellID"@) is Some
        &&& v.int32_at("NSA_RFCN"@) is Some
        &&& v.text_at("NSA_Band"@) is Some
        &&& v.int32_at("NSA_RSSI"@) is Some
        &&& v.int32_at("NSA_RSRP"@) is Some
        &&& v.int32_at("NSA_RSRQ"@) is Some
        &&& v.int32_at("NSA_SINR"@) is Some
    }

    /// Whether this status is what a record says, member by member.
    pub open spec fn holds(self, v: JsonValue) -> bool {
        &&& v.flag_at("CELL_Roaming_Enable"@) == Some(self.CELL_Roaming_Enable)
        &&& v.text_at("INTF_Status"@) == Some(self.INTF_Status@)
        &&& v.text_at("INTF_IMEI"@) == Some(self.INTF_IMEI@)
        &&& v.text_at("INTF_Current_Access_Technology"@) == Some(self.INTF_Current_Access_Technology@)
        &&& v.text_at("INTF_Network_In_Use"@) == Some(self.INTF_Network_In_Use@)
        &&& v.int32_at("INTF_RSSI"@) == Some(self.INTF_RSSI)
        &&& v.text_at("INTF_Supported_Bands"@) == Some(self.INTF_Supported_Bands@)
        &&& v.text_at("INTF_Current_Band"@) == Some(self.INTF_Current_Band@)
        &&& v.int32_at("INTF_Cell_ID"@) == Some(self.INTF_Cell_ID)
        &&& v.int32_at("INTF_PhyCell_ID"@) == Some(self.INTF_PhyCell_ID)
        &&& v.text_at("INTF_Uplink_Bandwidth"@) == Some(self.INTF_Uplink_Bandwidth@)
        &&& v.text_at("INTF_Downlink_Bandwidth"@) == Some(self.INTF_Downlink_Bandwidth@)
        &&& v.text_at("INTF_RFCN"@) == Some(self.INTF_RFCN@)
        &&& v.int32_at("INTF_RSRP"@) == Some(self.INTF_RSRP)
        &&& v.int32_at("INTF_RSRQ"@) == Some(self.INTF_RSRQ)
        &&& v.int32_at("INTF_RSCP"@) == Some(self.INTF_RSCP)
        &&& v.int32_at("INTF_EcNo"@) == Some(self.INTF_EcNo)
        &&& v.int32_at("INTF_TAC"@) == Some(self.INTF_TAC)
        &&& v.int32_at("INTF_LAC"@) == Some(self.INTF_LAC)
        &&& v.int32_at("INTF_RAC"@) == Some(self.INTF_RAC)
        &&& v.int32_at("INTF_BSIC"@) == Some(self.INTF_BSIC)
        &&& v.int32_at("INTF_SINR"@) == Some(self.INTF_SINR)
        &&& v.int32_at("INTF_CQI"@) == Some(self.INTF_CQI)
        &&& v.int32_at("INTF_MCS"@) == Some(self.INTF_MCS)
        &&& v.int32_at("INTF_RI"@) == Some(self.INTF_RI)
        &&& v.int32_at("INTF_PMI"@) == Some(self.INTF_PMI)
        &&& v.text_at("INTF_Module_Software_Version"@) == Some(self.INTF_Module_Software_Version@)
        &&& v.text_at("USIM_Status"@) == Some(self.USIM_Status@)
        &&& v.text_at("USIM_IMSI"@) == Some(self.USIM_IMSI@)
        &&& v.text_at("USIM_ICCID"@) == Some(self.USIM_ICCID@)
        &&& v.flag_at("USIM_PIN_Protection"@) == Some(self.USIM_PIN_Protection)
        &&& v.int32_at("USIM_PIN_Remaining_Attempts"@) == Some(self.USIM_PIN_Remaining_Attempts)
        &&& v.flag_at("Passthru_Enable"@) == Some(self.Passthru_Enable)
        &&& v.text_at("Passthru_Mode"@) == Some(self.Passthru_Mode@)
        &&& v.text_at("Passthru_MacAddr"@) == Some(self.Passthru_MacAddr@)
        &&& v.flag_at("NSA_Enable"@) == Some(self.NSA_Enable)
        &&& v.text_at("NSA_MCC"@) == Some(self.NSA_MCC@)
        &&& v.text_at("NSA_MNC"@) == Some(self.NSA_MNC@)
        &&& v.int32_at("NSA_PhyCellID"@) == Some(self.NSA_PhyCellID)
        &&& v.int32_at("NSA_RFCN"@) == Some(self.NSA_RFCN)
        &&& v.text_at("NSA_Band"@) == Some(self.NSA_Band@)
        &&& v.int32_at("NSA_RSSI"@) == Some(self.NSA_RSSI)
        &&& v.int32_at("NSA_RSRP"@) == Some(self.NSA_RSRP)
        &&& v.int32_at("NSA_RSRQ"@) == Some(self.NSA_RSRQ)
        &&& v.int32_at("NSA_SINR"@) == Some(self.NSA_SINR)
    }

    /// Reads the status out of a record; `None` where the record is not
    /// [`complete`](WanStatus::complete).
    pub fn decode(json: &Json) -> (r: Option<WanStatus>)
        ensures
            match r {
                Some(status) => status.holds(json@),
                None => !WanStatus::complete(json@),
            },
    {
        let cell_roaming_enable = match json.flag_at("CELL_Roaming_Enable") {
            Some(x) => x,
            None => return None,
        };
        let intf_status = match json.text_at("INTF_Status") {
            Some(x) => x.to_owned(),
            None => return None,
        };
        let intf_imei = match json.text_at("INTF_IMEI") {
            Some(x) => x.to_owned(),
            None => return None,
        };
        let intf_current_access_technology = match json.text_at("INTF_Current_Access_Technology") {
            Some(x) => x.to_owned(),
            None => return None,
        };
        let intf_network_in_use = match json.text_at("INTF_Network_In_Use") {
            Some(x) => x.to_owned(),
            None => return None,
        };
        let intf_rssi = match json.int32_at("INTF_RSSI") {
            Some(x) => x,
            None => return None,
        };
        let intf_supported_bands = match json.text_at("INTF_Supported_Bands") {
            Some(x) => x.to_owned(),
            None => return None,
        };
        let intf_current_band = match json.text_at("INTF_Current_Band") {
            Some(x) => x.to_owned(),
            None => return None,
        };
        let intf_cell_id = match json.int32_at("INTF_Cell_ID") {
            Some(x) => x,
            None => return None,
        };
        let intf_phycell_id = match json.int32_at("INTF_PhyCell_ID") {
            Some(x) => x,
            None => return None,
        };
        let intf_uplink_bandwidth = match json.text_at("INTF_Uplink_Bandwidth") {
            Some(x) => x.to_owned(),
            None => return None,
        };
        let intf_downlink_bandwidth = match json.text_at("INTF_Downlink_Bandwidth") {
            Some(x) => x.to_owned(),
            None => return None,
        };
        let intf_rfcn = match json.text_at("INTF_RFCN") {
            Some(x) => x.to_owned(),
            None => return None,
        };
        let intf_rsrp = match json.int32_at("INTF_RSRP") {
            Some(x) => x,
            None => return None,
        };
        let intf_rsrq = match json.int32_at("INTF_RSRQ") {
            Some(x) => x,
            None => return None,
        };
        let intf_rscp = match json.int32_at("INTF_RSCP") {
            Some(x) => x,
            None => return None,
        };
        let intf_ecno = match json.int32_at("INTF_EcNo") {
            Some(x) => x,
            None => return None,
        };
        let intf_tac = match json.int32_at("INTF_TAC") {
            Some(x) => x,
            None => return None,
        };
        let intf_lac = match json.int32_at("INTF_LAC") {
            Some(x) => x,
            None => return None,
        };
        let intf_rac = match json.int32_at("INTF_RAC") {
            Some(x) => x,
            None => return None,
        };
        let intf_bsic = match json.int32_at("INTF_BSIC") {
            Some(x) => x,
            None => return None,
        };
        let intf_sinr = match json.int32_at("INTF_SINR") {
            Some(x) => x,
            None => return None,
        };
        let intf_cqi = match json.int32_at("INTF_CQI") {
            Some(x) => x,
            None => return None,
        };
        let intf_mcs = match json.int32_at("INTF_MCS") {
            Some(x) => x,
            None => return None,
        };
        let intf_ri = match json.int32_at("INTF_RI") {
            Some(x) => x,
            None => return None,
        };
        let intf_pmi = match json.int32_at("INTF_PMI") {
            Some(x) => x,
            None => return None,
        };
        let intf_module_software_version = match json.text_at("INTF_Module_Software_Version") {
            Some(x) => x.to_owned(),
            None => return None,
        };
        let usim_status = match json.text_at("USIM_Status") {
            Some(x) => x.to_owned(),
            None => return None,
        };
        let usim_imsi = match json.text_at("USIM_IMSI") {
            Some(x) => x.to_owned(),
            None => return None,
        };
        let usim_iccid = match json.text_at("USIM_ICCID") {
            Some(x) => x.to_owned(),
            None => return None,
        };
        let usim_pin_protection = match json.flag_at("USIM_PIN_Protection") {
            Some(x) => x,
            None => return None,
        };
        let usim_pin_remaining_attempts = match json.int32_at("USIM_PIN_Remaining_Attempts") {
            Some(x) => x,
            None => return None,
        };
        let passthru_enable = match json.flag_at("Passthru_Enable") {
            Some(x) => x,
            None => return None,
        };
        let passthru_mode = match json.text_at("Passthru_Mode") {
            Some(x) => x.to_owned(),
            None => return None,
        };
        let passthru_macaddr = match json.text_at("Passthru_MacAddr") {
            Some(x) => x.to_owned(),
            None => return None,
        };
        let nsa_enable = match json.flag_at("NSA_Enable") {
            Some(x) => x,
            None => return None,
        };
        let nsa_mcc = match json.text_at("NSA_MCC") {
            Some(x) => x.to_owned(),
            None => return None,
        };
        let nsa_mnc = match json.text_at("NSA_MNC") {
            Some(x) => x.to_owned(),
            None => return None,
        };
        let nsa_phycellid = match json.int32_at("NSA_PhyCellID") {
            Some(x) => x,
            None => return None,
        };
        let nsa_rfcn = match json.int32_at("NSA_RFCN") {
            Some(x) => x,
            None => return None,
        };
        let nsa_band = match json.text_at("NSA_Band") {
            Some(x) => x.to_owned(),
            None => return None,
        };
        let nsa_rssi = match json.int32_at("NSA_RSSI") {
            Some(x) => x,
            None => return None,
        };
        let nsa_rsrp = match json.int32_at("NSA_RSRP") {
            Some(x) => x,
            None => return None,
        };
        let nsa_rsrq = match json.int32_at("NSA_RSRQ") {
            Some(x) => x,
            None => return None,
        };
        let nsa_sinr = match json.int32_at("NSA_SINR") {
            Some(x) => x,
            None => return None,
        };
        Some(
            WanStatus {
                CELL_Roaming_Enable: cell_roaming_enable,
                INTF_Status: intf_status,
                INTF_IMEI: intf_imei,
                INTF_Current_Access_Technology: intf_current_access_technology,
                INTF_Network_In_Use: intf_network_in_use,
                INTF_RSSI: intf_rssi,
                INTF_Supported_Bands: intf_supported_bands,
                INTF_Current_Band: intf_current_band,
                INTF_Cell_ID: intf_cell_id,
                INTF_PhyCell_ID: intf_phycell_id,
                INTF_Uplink_Bandwidth: intf_uplink_bandwidth,
                INTF_Downlink_Bandwidth: intf_downlink_bandwidth,
                INTF_RFCN: intf_rfcn,
                INTF_RSRP: intf_rsrp,
                INTF_RSRQ: intf_rsrq,
                INTF_RSCP: intf_rscp,
                INTF_EcNo: intf_ecno,
                INTF_TAC: intf_tac,
                INTF_LAC: intf_lac,
                INTF_RAC: intf_rac,
                INTF_BSIC: intf_bsic,
                INTF_SINR: intf_sinr,
                INTF_CQI: intf_cqi,
                INTF_MCS: intf_mcs,
                INTF_RI: intf_ri,
                INTF_PMI: intf_pmi,
                INTF_Module_Software_Version: intf_module_software_version,
                USIM_Status: usim_status,
                USIM_IMSI: usim_imsi,
                USIM_ICCID: usim_iccid,
                USIM_PIN_Protection: usim_pin_protection,
                USIM_PIN_Remaining_Attempts: usim_pin_remaining_attempts,
                Passthru_Enable: passthru_enable,
                Passthru_Mode: passthru_mode,
                Passthru_MacAddr: passthru_macaddr,
                NSA_Enable: nsa_enable,
                NSA_MCC: nsa_mcc,
                NSA_MNC: nsa_mnc,
                NSA_PhyCellID: nsa_phycellid,
                NSA_RFCN: nsa_rfcn,
                NSA_Band: nsa_band,
                NSA_RSSI: nsa_rssi,
                NSA_RSRP: nsa_rsrp,
                NSA_RSRQ: nsa_rsrq,
                NSA_SINR: nsa_sinr,
            },
        )
    }
}

} // verus!
