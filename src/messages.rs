//! Message kinds, payload schemas and the acknowledgement message.

use vstd::prelude::*;
use crate::wire::{
    divide_i16_by, divide_u16_by, divide_u32_by, le_i16, le_u16, le_u32, parse_string,
    read_i16_le, read_mac, read_u16_le, read_u32_le, text_field, u16_le_bytes, u32_le_bytes,
    push_u16_le, push_u32_le, Scaled,
};

verus! {

/// The semantic kind of a frame, selected by its 16-bit type code.
#[derive(Debug, Clone, Copy, PartialEq, Eq, Structural)]
pub enum SofarMessageType {
    Heartbeat,
    Data,
    Hello,
    HelloCd,
    Unknown44,
}

/// The kind that a request type code stands for, if any.
pub open spec fn message_type_of(code: u16) -> Option<SofarMessageType> {
    if code == 0x4710 {
        Some(SofarMessageType::Heartbeat)
    } else if code == 0x4210 {
        Some(SofarMessageType::Data)
    } else if code == 0x4110 {
        Some(SofarMessageType::Hello)
    } else if code == 0x4810 {
        Some(SofarMessageType::HelloCd)
    } else if code == 0x4310 {
        Some(SofarMessageType::Unknown44)
    } else {
        None
    }
}

impl SofarMessageType {
    /// The type code a logger uses for a request of this kind.
    pub open spec fn request_code_spec(self) -> u16 {
        match self {
            SofarMessageType::Heartbeat => 0x4710,
            SofarMessageType::Data => 0x4210,
            SofarMessageType::Hello => 0x4110,
            SofarMessageType::HelloCd => 0x4810,
            SofarMessageType::Unknown44 => 0x4310,
        }
    }

    /// The type code of the server's acknowledgement for this kind.
    pub open spec fn response_code_spec(self) -> u16 {
        match self {
            SofarMessageType::Heartbeat => 0x1710,
            SofarMessageType::Data => 0x1210,
            SofarMessageType::Hello => 0x1110,
            SofarMessageType::HelloCd => 0x1810,
            SofarMessageType::Unknown44 => 0x1310,
        }
    }

    /// Looks a request type code up in the table of known kinds.
    pub fn from_u16(code: u16) -> (r: Option<SofarMessageType>)
        ensures
            r == message_type_of(code),
    {
        if code == 0x4710 {
            Some(SofarMessageType::Heartbeat)
        } else if code == 0x4210 {
            Some(SofarMessageType::Data)
        } else if code == 0x4110 {
            Some(SofarMessageType::Hello)
        } else if code == 0x4810 {
            Some(SofarMessageType::HelloCd)
        } else if code == 0x4310 {
            Some(SofarMessageType::Unknown44)
        } else {
            None
        }
    }

    /// The type code a logger uses for a request of this kind.
    pub fn request_code(self) -> (r: u16)
        ensures
            r == self.request_code_spec(),
    {
        match self {
            SofarMessageType::Heartbeat => 0x4710,
            SofarMessageType::Data => 0x4210,
            SofarMessageType::Hello => 0x4110,
            SofarMessageType::HelloCd => 0x4810,
            SofarMessageType::Unknown44 => 0x4310,
        }
    }

    /// The type code of the server's acknowledgement for this kind.
    pub fn response_code(self) -> (r: u16)
        ensures
            r == self.response_code_spec(),
    {
        match self {
            SofarMessageType::Heartbeat => 0x1710,
            SofarMessageType::Data => 0x1210,
            SofarMessageType::Hello => 0x1110,
            SofarMessageType::HelloCd => 0x1810,
            SofarMessageType::Unknown44 => 0x1310,
        }
    }
}

/// Why a complete frame could not be turned into a message.
#[derive(Debug, Clone, Copy, PartialEq, Eq, Structural)]
pub enum DecodeError {
    /// The type code is not in the table of known kinds.
    UnknownMessageType(u16),
    /// The checksum byte (carried here) differs from the sum of the frame.
    ChecksumMismatch(u8),
    /// The payload is shorter than the schema of its kind.
    BodyTooShort,
    /// A text field of the payload is not valid UTF-8.
    InvalidText,
}

/// Number of payload bytes that the Heartbeat schema reads.
pub const HEARTBEAT_LEN: usize = 1;

/// Keep-alive payload: one byte, echoed in the reply.
#[derive(Debug, Clone, Copy, PartialEq, Eq, Structural)]
pub struct Heartbeat {
    pub _unknown: u8,
}

/// The fields of a Heartbeat payload, each read at its fixed offset.
pub open spec fn heartbeat_fields(b: Seq<u8>) -> Heartbeat {
    Heartbeat {
        _unknown: b[0],
    }
}

/// What decoding a Heartbeat payload gives.
pub open spec fn heartbeat_payload(b: Seq<u8>) -> Result<Heartbeat, DecodeError> {
    if b.len() < HEARTBEAT_LEN {
        Err(DecodeError::BodyTooShort)
    } else {
        Ok(heartbeat_fields(b))
    }
}

impl Heartbeat {
    /// Decodes a Heartbeat payload: fields are read left to right at fixed offsets;
    /// bytes past the schema are ignored.
    pub fn parse(b: &[u8]) -> (r: Result<Heartbeat, DecodeError>)
        ensures
            r == heartbeat_payload(b@),
    {
        if b.len() < HEARTBEAT_LEN {
            return Err(DecodeError::BodyTooShort);
        }
        Ok(Heartbeat {
            _unknown: b[0],
        })
    }
}

/// Number of payload bytes that the Data schema reads.
pub const DATA_LEN: usize = 151;

/// Telemetry sample. Scaled fields keep their raw reading and divisor.
#[derive(Debug, Clone)]
pub struct Data {
    pub _unknown1: u8,
    pub sensor_type_list: u16,
    pub total_operation_time: u32,
    pub timer: u32,
    pub timestamp: u32,
    pub _unknown2: u16,
    pub counter: u32,
    pub inverter_serial_number: String,
    pub inverter_temperature: Scaled,
    pub vdc_1: Scaled,
    pub vdc_2: Scaled,
    pub idc_1: Scaled,
    pub idc_2: Scaled,
    pub iac_1: Scaled,
    pub iac_2: Scaled,
    pub iac_3: Scaled,
    pub vac_1: Scaled,
    pub vac_2: Scaled,
    pub vac_3: Scaled,
    pub fac: Scaled,
    pub current_power: u32,
    pub daily_energy: Scaled,
    pub total_energy: Scaled,
    pub total_time: u32,
    pub inverter_status: u16,
    pub fault_code_1: u8,
    pub fault_code_2: u8,
    pub fault_code_3: u8,
    pub fault_code_4: u8,
    pub fault_code_5: u8,
    pub fault_code_6: u8,
    pub fault_code_7: u8,
    pub fault_code_8: u8,
    pub fault_code_9: u8,
    pub fault_code_10: u8,
    pub alert_message_code: u16,
    pub inner_board_message_code: u16,
    pub inverter_firmware: String,
    pub hardware_version: String,
    pub logger_temperature: i16,
    pub bus_voltage: Scaled,
    pub vice_cpu_input_voltage: Scaled,
    pub _unknown3: u16,
    pub countdown_time: u16,
    pub _unknown4: u16,
    pub pv1_insulation_resistance: u16,
    pub pv2_insulation_resistance: u16,
    pub insulation_impedance: u16,
    pub country_code: u16,
    pub _unknown5: u32,
    pub leaking_current: u16,
    pub a_phase_dc_distribution: u16,
    pub b_phase_dc_distribution: u16,
    pub c_phase_dc_distribution: u16,
    pub main_inverter_firmware: String,
    pub slave_inverter_firmware: String,
    pub year: u8,
    pub month: u8,
    pub day: u8,
    pub hour: u8,
    pub minute: u8,
    pub second: u8,
    pub _unknown6: u32,
}

/// The mathematical value of a [`Data`]: text as characters, addresses as bytes.
pub struct DataView {
    pub _unknown1: u8,
    pub sensor_type_list: u16,
    pub total_operation_time: u32,
    pub timer: u32,
    pub timestamp: u32,
    pub _unknown2: u16,
    pub counter: u32,
    pub inverter_serial_number: Seq<char>,
    pub inverter_temperature: Scaled,
    pub vdc_1: Scaled,
    pub vdc_2: Scaled,
    pub idc_1: Scaled,
    pub idc_2: Scaled,
    pub iac_1: Scaled,
    pub iac_2: Scaled,
    pub iac_3: Scaled,
    pub vac_1: Scaled,
    pub vac_2: Scaled,
    pub vac_3: Scaled,
    pub fac: Scaled,
    pub current_power: u32,
    pub daily_energy: Scaled,
    pub total_energy: Scaled,
    pub total_time: u32,
    pub inverter_status: u16,
    pub fault_code_1: u8,
    pub fault_code_2: u8,
    pub fault_code_3: u8,
    pub fault_code_4: u8,
    pub fault_code_5: u8,
    pub fault_code_6: u8,
    pub fault_code_7: u8,
    pub fault_code_8: u8,
    pub fault_code_9: u8,
    pub fault_code_10: u8,
    pub alert_message_code: u16,
    pub inner_board_message_code: u16,
    pub inverter_firmware: Seq<char>,
    pub hardware_version: Seq<char>,
    pub logger_temperature: i16,
    pub bus_voltage: Scaled,
    pub vice_cpu_input_voltage: Scaled,
    pub _unknown3: u16,
    pub countdown_time: u16,
    pub _unknown4: u16,
    pub pv1_insulation_resistance: u16,
    pub pv2_insulation_resistance: u16,
    pub insulation_impedance: u16,
    pub country_code: u16,
    pub _unknown5: u32,
    pub leaking_current: u16,
    pub a_phase_dc_distribution: u16,
    pub b_phase_dc_distribution: u16,
    pub c_phase_dc_distribution: u16,
    pub main_inverter_firmware: Seq<char>,
    pub slave_inverter_firmware: Seq<char>,
    pub year: u8,
    pub month: u8,
    pub day: u8,
    pub hour: u8,
    pub minute: u8,
    pub second: u8,
    pub _unknown6: u32,
}

impl View for Data {
    type V = DataView;

    open spec fn view(&self) -> DataView {
        DataView {
            _unknown1: self._unknown1,
            sensor_type_list: self.sensor_type_list,
            total_operation_time: self.total_operation_time,
            timer: self.timer,
            timestamp: self.timestamp,
            _unknown2: self._unknown2,
            counter: self.counter,
            inverter_serial_number: self.inverter_serial_number@,
            inverter_temperature: self.inverter_temperature,
            vdc_1: self.vdc_1,
            vdc_2: self.vdc_2,
            idc_1: self.idc_1,
            idc_2: self.idc_2,
            iac_1: self.iac_1,
            iac_2: self.iac_2,
            iac_3: self.iac_3,
            vac_1: self.vac_1,
            vac_2: self.vac_2,
            vac_3: self.vac_3,
            fac: self.fac,
            current_power: self.current_power,
            daily_energy: self.daily_energy,
            total_energy: self.total_energy,
            total_time: self.total_time,
            inverter_status: self.inverter_status,
            fault_code_1: self.fault_code_1,
            fault_code_2: self.fault_code_2,
            fault_code_3: self.fault_code_3,
            fault_code_4: self.fault_code_4,
            fault_code_5: self.fault_code_5,
            fault_code_6: self.fault_code_6,
            fault_code_7: self.fault_code_7,
            fault_code_8: self.fault_code_8,
            fault_code_9: self.fault_code_9,
            fault_code_10: self.fault_code_10,
            alert_message_code: self.alert_message_code,
            inner_board_message_code: self.inner_board_message_code,
            inverter_firmware: self.inverter_firmware@,
            hardware_version: self.hardware_version@,
            logger_temperature: self.logger_temperature,
            bus_voltage: self.bus_voltage,
            vice_cpu_input_voltage: self.vice_cpu_input_voltage,
            _unknown3: self._unknown3,
            countdown_time: self.countdown_time,
            _unknown4: self._unknown4,
            pv1_insulation_resistance: self.pv1_insulation_resistance,
            pv2_insulation_resistance: self.pv2_insulation_resistance,
            insulation_impedance: self.insulation_impedance,
            country_code: self.country_code,
            _unknown5: self._unknown5,
            leaking_current: self.leaking_current,
            a_phase_dc_distribution: self.a_phase_dc_distribution,
            b_phase_dc_distribution: self.b_phase_dc_distribution,
            c_phase_dc_distribution: self.c_phase_dc_distribution,
            main_inverter_firmware: self.main_inverter_firmware@,
            slave_inverter_firmware: self.slave_inverter_firmware@,
            year: self.year,
            month: self.month,
            day: self.day,
            hour: self.hour,
            minute: self.minute,
            second: self.second,
            _unknown6: self._unknown6,
        }
    }
}

/// Whether every text field of a Data payload holds valid UTF-8.
pub open spec fn data_text_valid(b: Seq<u8>) -> bool {
    &&& text_field(b, 21, 16) is Some
    &&& text_field(b, 93, 4) is Some
    &&& text_field(b, 97, 4) is Some
    &&& text_field(b, 133, 4) is Some
    &&& text_field(b, 137, 4) is Some
}

/// The fields of a Data payload, each read at its fixed offset.
pub open spec fn data_fields(b: Seq<u8>) -> DataView {
    DataView {
        _unknown1: b[0],
        sensor_type_list: le_u16(b, 1),
        total_operation_time: le_u32(b, 3),
        timer: le_u32(b, 7),
        timestamp: le_u32(b, 11),
        _unknown2: le_u16(b, 15),
        counter: le_u32(b, 17),
        inverter_serial_number: text_field(b, 21, 16)->Some_0,
        inverter_temperature: Scaled { raw: le_i16(b, 37) as i64, divisor: 10 },
        vdc_1: Scaled { raw: le_u16(b, 39) as i64, divisor: 10 },
        vdc_2: Scaled { raw: le_u16(b, 41) as i64, divisor: 10 },
        idc_1: Scaled { raw: le_u16(b, 43) as i64, divisor: 10 },
        idc_2: Scaled { raw: le_u16(b, 45) as i64, divisor: 10 },
        iac_1: Scaled { raw: le_u16(b, 47) as i64, divisor: 10 },
        iac_2: Scaled { raw: le_u16(b, 49) as i64, divisor: 10 },
        iac_3: Scaled { raw: le_u16(b, 51) as i64, divisor: 10 },
        vac_1: Scaled { raw: le_u16(b, 53) as i64, divisor: 10 },
        vac_2: Scaled { raw: le_u16(b, 55) as i64, divisor: 10 },
        vac_3: Scaled { raw: le_u16(b, 57) as i64, divisor: 10 },
        fac: Scaled { raw: le_u16(b, 59) as i64, divisor: 100 },
        current_power: le_u32(b, 61),
        daily_energy: Scaled { raw: le_u32(b, 65) as i64, divisor: 100 },
        total_energy: Scaled { raw: le_u32(b, 69) as i64, divisor: 10 },
        total_time: le_u32(b, 73),
        inverter_status: le_u16(b, 77),
        fault_code_1: b[79],
        fault_code_2: b[80],
        fault_code_3: b[81],
        fault_code_4: b[82],
        fault_code_5: b[83],
        fault_code_6: b[84],
        fault_code_7: b[85],
        fault_code_8: b[86],
        fault_code_9: b[87],
        fault_code_10: b[88],
        alert_message_code: le_u16(b, 89),
        inner_board_message_code: le_u16(b, 91),
        inverter_firmware: text_field(b, 93, 4)->Some_0,
        hardware_version: text_field(b, 97, 4)->Some_0,
        logger_temperature: le_i16(b, 101),
        bus_voltage: Scaled { raw: le_u16(b, 103) as i64, divisor: 10 },
        vice_cpu_input_voltage: Scaled { raw: le_u16(b, 105) as i64, divisor: 10 },
        _unknown3: le_u16(b, 107),
        countdown_time: le_u16(b, 109),
        _unknown4: le_u16(b, 111),
        pv1_insulation_resistance: le_u16(b, 113),
        pv2_insulation_resistance: le_u16(b, 115),
        insulation_impedance: le_u16(b, 117),
        country_code: le_u16(b, 119),
        _unknown5: le_u32(b, 121),
        leaking_current: le_u16(b, 125),
        a_phase_dc_distribution: le_u16(b, 127),
        b_phase_dc_distribution: le_u16(b, 129),
        c_phase_dc_distribution: le_u16(b, 131),
        main_inverter_firmware: text_field(b, 133, 4)->Some_0,
        slave_inverter_firmware: text_field(b, 137, 4)->Some_0,
        year: b[141],
        month: b[142],
        day: b[143],
        hour: b[144],
        minute: b[145],
        second: b[146],
        _unknown6: le_u32(b, 147),
    }
}

/// What decoding a Data payload gives.
pub open spec fn data_payload(b: Seq<u8>) -> Result<DataView, DecodeError> {
    if b.len() < DATA_LEN {
        Err(DecodeError::BodyTooShort)
    } else if !data_text_valid(b) {
        Err(DecodeError::InvalidText)
    } else {
        Ok(data_fields(b))
    }
}

impl Data {
    /// Decodes a Data payload: fields are read left to right at fixed offsets;
    /// bytes past the schema are ignored.
    pub fn parse(b: &[u8]) -> (r: Result<Data, DecodeError>)
        ensures
            r matches Ok(v) ==> data_payload(b@) == Ok::<DataView, DecodeError>(v@),
            r matches Err(e) ==> data_payload(b@) == Err::<DataView, DecodeError>(e),
    {
        if b.len() < DATA_LEN {
            return Err(DecodeError::BodyTooShort);
        }
        let inverter_serial_number = match parse_string(b, 21, 16) {
            Some(s) => s,
            None => return Err(DecodeError::InvalidText),
        };
        let inverter_firmware = match parse_string(b, 93, 4) {
            Some(s) => s,
            None => return Err(DecodeError::InvalidText),
        };
        let hardware_version = match parse_string(b, 97, 4) {
            Some(s) => s,
            None => return Err(DecodeError::InvalidText),
        };
        let main_inverter_firmware = match parse_string(b, 133, 4) {
            Some(s) => s,
            None => return Err(DecodeError::InvalidText),
        };
        let slave_inverter_firmware = match parse_string(b, 137, 4) {
            Some(s) => s,
            None => return Err(DecodeError::InvalidText),
        };
        Ok(Data {
            _unknown1: b[0],
            sensor_type_list: read_u16_le(b, 1),
            total_operation_time: read_u32_le(b, 3),
            timer: read_u32_le(b, 7),
            timestamp: read_u32_le(b, 11),
            _unknown2: read_u16_le(b, 15),
            counter: read_u32_le(b, 17),
            inverter_serial_number,
            inverter_temperature: divide_i16_by(b, 37, 10),
            vdc_1: divide_u16_by(b, 39, 10),
            vdc_2: divide_u16_by(b, 41, 10),
            idc_1: divide_u16_by(b, 43, 10),
            idc_2: divide_u16_by(b, 45, 10),
            iac_1: divide_u16_by(b, 47, 10),
            iac_2: divide_u16_by(b, 49, 10),
            iac_3: divide_u16_by(b, 51, 10),
            vac_1: divide_u16_by(b, 53, 10),
            vac_2: divide_u16_by(b, 55, 10),
            vac_3: divide_u16_by(b, 57, 10),
            fac: divide_u16_by(b, 59, 100),
            current_power: read_u32_le(b, 61),
            daily_energy: divide_u32_by(b, 65, 100),
            total_energy: divide_u32_by(b, 69, 10),
            total_time: read_u32_le(b, 73),
            inverter_status: read_u16_le(b, 77),
            fault_code_1: b[79],
            fault_code_2: b[80],
            fault_code_3: b[81],
            fault_code_4: b[82],
            fault_code_5: b[83],
            fault_code_6: b[84],
            fault_code_7: b[85],
            fault_code_8: b[86],
            fault_code_9: b[87],
            fault_code_10: b[88],
            alert_message_code: read_u16_le(b, 89),
            inner_board_message_code: read_u16_le(b, 91),
            inverter_firmware,
            hardware_version,
            logger_temperature: read_i16_le(b, 101),
            bus_voltage: divide_u16_by(b, 103, 10),
            vice_cpu_input_voltage: divide_u16_by(b, 105, 10),
            _unknown3: read_u16_le(b, 107),
            countdown_time: read_u16_le(b, 109),
            _unknown4: read_u16_le(b, 111),
            pv1_insulation_resistance: read_u16_le(b, 113),
            pv2_insulation_resistance: read_u16_le(b, 115),
            insulation_impedance: read_u16_le(b, 117),
            country_code: read_u16_le(b, 119),
            _unknown5: read_u32_le(b, 121),
            leaking_current: read_u16_le(b, 125),
            a_phase_dc_distribution: read_u16_le(b, 127),
            b_phase_dc_distribution: read_u16_le(b, 129),
            c_phase_dc_distribution: read_u16_le(b, 131),
            main_inverter_firmware,
            slave_inverter_firmware,
            year: b[141],
            month: b[142],
            day: b[143],
            hour: b[144],
            minute: b[145],
            second: b[146],
            _unknown6: read_u32_le(b, 147),
        })
    }
}

/// Number of payload bytes that the Hello schema reads.
pub const HELLO_LEN: usize = 86;

/// Logger identity and network configuration, sent on connect.
#[derive(Debug, Clone)]
pub struct Hello {
    pub one: u8,
    pub total_operation_time: u32,
    pub timer: u32,
    pub _unknown1: u32,
    pub uploading_frequency: u8,
    pub data_logging_frequency: u8,
    pub hearbeat_frequency: u8,
    pub max_num_of_connected_devices: u8,
    pub signal_quality: u8,
    pub sensor_type: u8,
    pub module_version: String,
    pub sta_mac_address: [u8; 6],
    pub local_ip_address: String,
    pub _unknown2: u16,
    pub _unknown3: u16,
    pub sensor_type_list: u8,
}

/// The mathematical value of a [`Hello`]: text as characters, addresses as bytes.
pub struct HelloView {
    pub one: u8,
    pub total_operation_time: u32,
    pub timer: u32,
    pub _unknown1: u32,
    pub uploading_frequency: u8,
    pub data_logging_frequency: u8,
    pub hearbeat_frequency: u8,
    pub max_num_of_connected_devices: u8,
    pub signal_quality: u8,
    pub sensor_type: u8,
    pub module_version: Seq<char>,
    pub sta_mac_address: Seq<u8>,
    pub local_ip_address: Seq<char>,
    pub _unknown2: u16,
    pub _unknown3: u16,
    pub sensor_type_list: u8,
}

impl View for Hello {
    type V = HelloView;

    open spec fn view(&self) -> HelloView {
        HelloView {
            one: self.one,
            total_operation_time: self.total_operation_time,
            timer: self.timer,
            _unknown1: self._unknown1,
            uploading_frequency: self.uploading_frequency,
            data_logging_frequency: self.data_logging_frequency,
            hearbeat_frequency: self.hearbeat_frequency,
            max_num_of_connected_devices: self.max_num_of_connected_devices,
            signal_quality: self.signal_quality,
            sensor_type: self.sensor_type,
            module_version: self.module_version@,
            sta_mac_address: self.sta_mac_address@,
            local_ip_address: self.local_ip_address@,
            _unknown2: self._unknown2,
            _unknown3: self._unknown3,
            sensor_type_list: self.sensor_type_list,
        }
    }
}

/// Whether every text field of a Hello payload holds valid UTF-8.
pub open spec fn hello_text_valid(b: Seq<u8>) -> bool {
    &&& text_field(b, 19, 40) is Some
    &&& text_field(b, 65, 16) is Some
}

/// The fields of a Hello payload, each read at its fixed offset.
pub open spec fn hello_fields(b: Seq<u8>) -> HelloView {
    HelloView {
        one: b[0],
        total_operation_time: le_u32(b, 1),
        timer: le_u32(b, 5),
        _unknown1: le_u32(b, 9),
        uploading_frequency: b[13],
        data_logging_frequency: b[14],
        hearbeat_frequency: b[15],
        max_num_of_connected_devices: b[16],
        signal_quality: b[17],
        sensor_type: b[18],
        module_version: text_field(b, 19, 40)->Some_0,
        sta_mac_address: b.subrange(59, 65),
        local_ip_address: text_field(b, 65, 16)->Some_0,
        _unknown2: le_u16(b, 81),
        _unknown3: le_u16(b, 83),
        sensor_type_list: b[85],
    }
}

/// What decoding a Hello payload gives.
pub open spec fn hello_payload(b: Seq<u8>) -> Result<HelloView, DecodeError> {
    if b.len() < HELLO_LEN {
        Err(DecodeError::BodyTooShort)
    } else if !hello_text_valid(b) {
        Err(DecodeError::InvalidText)
    } else {
        Ok(hello_fields(b))
    }
}

impl Hello {
    /// Decodes a Hello payload: fields are read left to right at fixed offsets;
    /// bytes past the schema are ignored.
    pub fn parse(b: &[u8]) -> (r: Result<Hello, DecodeError>)
        ensures
            r matches Ok(v) ==> hello_payload(b@) == Ok::<HelloView, DecodeError>(v@),
            r matches Err(e) ==> hello_payload(b@) == Err::<HelloView, DecodeError>(e),
    {
        if b.len() < HELLO_LEN {
            return Err(DecodeError::BodyTooShort);
        }
        let module_version = match parse_string(b, 19, 40) {
            Some(s) => s,
            None => return Err(DecodeError::InvalidText),
        };
        let local_ip_address = match parse_string(b, 65, 16) {
            Some(s) => s,
            None => return Err(DecodeError::InvalidText),
        };
        Ok(Hello {
            one: b[0],
            total_operation_time: read_u32_le(b, 1),
            timer: read_u32_le(b, 5),
            _unknown1: read_u32_le(b, 9),
            uploading_frequency: b[13],
            data_logging_frequency: b[14],
            hearbeat_frequency: b[15],
            max_num_of_connected_devices: b[16],
            signal_quality: b[17],
            sensor_type: b[18],
            module_version,
            sta_mac_address: read_mac(b, 59),
            local_ip_address,
            _unknown2: read_u16_le(b, 81),
            _unknown3: read_u16_le(b, 83),
            sensor_type_list: b[85],
        })
    }
}

/// Number of payload bytes that the HelloCd schema reads.
pub const HELLO_CD_LEN: usize = 28;

/// Secondary handshake payload.
#[derive(Debug, Clone, Copy, PartialEq, Eq, Structural)]
pub struct HelloCd {
    pub one: u8,
    pub total_operation_time: u32,
    pub timer: u32,
    pub timestamp: u32,
    pub _unknown1: u16,
    pub _unknown2: u32,
    pub _unknown3: u8,
    pub _unknown4: u32,
    pub _unknown5: u32,
}

/// The fields of a HelloCd payload, each read at its fixed offset.
pub open spec fn hello_cd_fields(b: Seq<u8>) -> HelloCd {
    HelloCd {
        one: b[0],
        total_operation_time: le_u32(b, 1),
        timer: le_u32(b, 5),
        timestamp: le_u32(b, 9),
        _unknown1: le_u16(b, 13),
        _unknown2: le_u32(b, 15),
        _unknown3: b[19],
        _unknown4: le_u32(b, 20),
        _unknown5: le_u32(b, 24),
    }
}

/// What decoding a HelloCd payload gives.
pub open spec fn hello_cd_payload(b: Seq<u8>) -> Result<HelloCd, DecodeError> {
    if b.len() < HELLO_CD_LEN {
        Err(DecodeError::BodyTooShort)
    } else {
        Ok(hello_cd_fields(b))
    }
}

impl HelloCd {
    /// Decodes a HelloCd payload: fields are read left to right at fixed offsets;
    /// bytes past the schema are ignored.
    pub fn parse(b: &[u8]) -> (r: Result<HelloCd, DecodeError>)
        ensures
            r == hello_cd_payload(b@),
    {
        if b.len() < HELLO_CD_LEN {
            return Err(DecodeError::BodyTooShort);
        }
        Ok(HelloCd {
            one: b[0],
            total_operation_time: read_u32_le(b, 1),
            timer: read_u32_le(b, 5),
            timestamp: read_u32_le(b, 9),
            _unknown1: read_u16_le(b, 13),
            _unknown2: read_u32_le(b, 15),
            _unknown3: b[19],
            _unknown4: read_u32_le(b, 20),
            _unknown5: read_u32_le(b, 24),
        })
    }
}

/// Number of payload bytes that the HelloEnd schema reads.
pub const HELLO_END_LEN: usize = 60;

/// Closing handshake payload layout; no request code selects it.
#[derive(Debug, Clone, Copy, PartialEq, Eq, Structural)]
pub struct HelloEnd {
    pub one: u8,
    pub total_operation_time: u32,
    pub timer: u32,
    pub timestamp: u32,
    pub _unknown1: u16,
    pub _unknown2: u16,
    pub _unknown3: u16,
    pub _unknown4: u16,
    pub _unknown5: u16,
    pub _unknown6: u16,
    pub _unknown7: u16,
    pub _unknown8: u16,
    pub _unknown9: u16,
    pub _unknown10: u16,
    pub _unknown11: u16,
    pub _unknown12: u16,
    pub _unknown13: u16,
    pub _unknown14: u16,
    pub _unknown15: u16,
    pub _unknown16: u16,
    pub _unknown17: u16,
    pub _unknown18: u16,
    pub _unknown19: u16,
    pub _unknown20: u16,
    pub _unknown21: u16,
    pub _unknown22: u16,
    pub _unknown23: u16,
    pub _unknown24: u8,
}

/// The fields of a HelloEnd payload, each read at its fixed offset.
pub open spec fn hello_end_fields(b: Seq<u8>) -> HelloEnd {
    HelloEnd {
        one: b[0],
        total_operation_time: le_u32(b, 1),
        timer: le_u32(b, 5),
        timestamp: le_u32(b, 9),
        _unknown1: le_u16(b, 13),
        _unknown2: le_u16(b, 15),
        _unknown3: le_u16(b, 17),
        _unknown4: le_u16(b, 19),
        _unknown5: le_u16(b, 21),
        _unknown6: le_u16(b, 23),
        _unknown7: le_u16(b, 25),
        _unknown8: le_u16(b, 27),
        _unknown9: le_u16(b, 29),
        _unknown10: le_u16(b, 31),
        _unknown11: le_u16(b, 33),
        _unknown12: le_u16(b, 35),
        _unknown13: le_u16(b, 37),
        _unknown14: le_u16(b, 39),
        _unknown15: le_u16(b, 41),
        _unknown16: le_u16(b, 43),
        _unknown17: le_u16(b, 45),
        _unknown18: le_u16(b, 47),
        _unknown19: le_u16(b, 49),
        _unknown20: le_u16(b, 51),
        _unknown21: le_u16(b, 53),
        _unknown22: le_u16(b, 55),
        _unknown23: le_u16(b, 57),
        _unknown24: b[59],
    }
}

/// What decoding a HelloEnd payload gives.
pub open spec fn hello_end_payload(b: Seq<u8>) -> Result<HelloEnd, DecodeError> {
    if b.len() < HELLO_END_LEN {
        Err(DecodeError::BodyTooShort)
    } else {
        Ok(hello_end_fields(b))
    }
}

impl HelloEnd {
    /// Decodes a HelloEnd payload: fields are read left to right at fixed offsets;
    /// bytes past the schema are ignored.
    pub fn parse(b: &[u8]) -> (r: Result<HelloEnd, DecodeError>)
        ensures
            r == hello_end_payload(b@),
    {
        if b.len() < HELLO_END_LEN {
            return Err(DecodeError::BodyTooShort);
        }
        Ok(HelloEnd {
            one: b[0],
            total_operation_time: read_u32_le(b, 1),
            timer: read_u32_le(b, 5),
            timestamp: read_u32_le(b, 9),
            _unknown1: read_u16_le(b, 13),
            _unknown2: read_u16_le(b, 15),
            _unknown3: read_u16_le(b, 17),
            _unknown4: read_u16_le(b, 19),
            _unknown5: read_u16_le(b, 21),
            _unknown6: read_u16_le(b, 23),
            _unknown7: read_u16_le(b, 25),
            _unknown8: read_u16_le(b, 27),
            _unknown9: read_u16_le(b, 29),
            _unknown10: read_u16_le(b, 31),
            _unknown11: read_u16_le(b, 33),
            _unknown12: read_u16_le(b, 35),
            _unknown13: read_u16_le(b, 37),
            _unknown14: read_u16_le(b, 39),
            _unknown15: read_u16_le(b, 41),
            _unknown16: read_u16_le(b, 43),
            _unknown17: read_u16_le(b, 45),
            _unknown18: read_u16_le(b, 47),
            _unknown19: read_u16_le(b, 49),
            _unknown20: read_u16_le(b, 51),
            _unknown21: read_u16_le(b, 53),
            _unknown22: read_u16_le(b, 55),
            _unknown23: read_u16_le(b, 57),
            _unknown24: b[59],
        })
    }
}

/// Number of payload bytes that the Unknown44 schema reads.
pub const UNKNOWN44_LEN: usize = 31;

/// Handshake variant that carries the Wi-Fi network name.
#[derive(Debug, Clone)]
pub struct Unknown44 {
    pub _unknown1: u8,
    pub _unknown2: u8,
    pub _unknown3: u8,
    pub _unknown4: u8,
    pub _unknown5: u8,
    pub _unknown6: u8,
    pub _unknown7: u8,
    pub _unknown8: u8,
    pub _unknown9: u8,
    pub timestamp: u32,
    pub _unknown10: u16,
    pub wifi_ssid: String,
}

/// The mathematical value of a [`Unknown44`]: text as characters, addresses as bytes.
pub struct Unknown44View {
    pub _unknown1: u8,
    pub _unknown2: u8,
    pub _unknown3: u8,
    pub _unknown4: u8,
    pub _unknown5: u8,
    pub _unknown6: u8,
    pub _unknown7: u8,
    pub _unknown8: u8,
    pub _unknown9: u8,
    pub timestamp: u32,
    pub _unknown10: u16,
    pub wifi_ssid: Seq<char>,
}

impl View for Unknown44 {
    type V = Unknown44View;

    open spec fn view(&self) -> Unknown44View {
        Unknown44View {
            _unknown1: self._unknown1,
            _unknown2: self._unknown2,
            _unknown3: self._unknown3,
            _unknown4: self._unknown4,
            _unknown5: self._unknown5,
            _unknown6: self._unknown6,
            _unknown7: self._unknown7,
            _unknown8: self._unknown8,
            _unknown9: self._unknown9,
            timestamp: self.timestamp,
            _unknown10: self._unknown10,
            wifi_ssid: self.wifi_ssid@,
        }
    }
}

/// Whether every text field of a Unknown44 payload holds valid UTF-8.
pub open spec fn unknown44_text_valid(b: Seq<u8>) -> bool {
    text_field(b, 15, 16) is Some
}

/// The fields of a Unknown44 payload, each read at its fixed offset.
pub open spec fn unknown44_fields(b: Seq<u8>) -> Unknown44View {
    Unknown44View {
        _unknown1: b[0],
        _unknown2: b[1],
        _unknown3: b[2],
        _unknown4: b[3],
        _unknown5: b[4],
        _unknown6: b[5],
        _unknown7: b[6],
        _unknown8: b[7],
        _unknown9: b[8],
        timestamp: le_u32(b, 9),
        _unknown10: le_u16(b, 13),
        wifi_ssid: text_field(b, 15, 16)->Some_0,
    }
}

/// What decoding a Unknown44 payload gives.
pub open spec fn unknown44_payload(b: Seq<u8>) -> Result<Unknown44View, DecodeError> {
    if b.len() < UNKNOWN44_LEN {
        Err(DecodeError::BodyTooShort)
    } else if !unknown44_text_valid(b) {
        Err(DecodeError::InvalidText)
    } else {
        Ok(unknown44_fields(b))
    }
}

impl Unknown44 {
    /// Decodes a Unknown44 payload: fields are read left to right at fixed offsets;
    /// bytes past the schema are ignored.
    pub fn parse(b: &[u8]) -> (r: Result<Unknown44, DecodeError>)
        ensures
            r matches Ok(v) ==> unknown44_payload(b@) == Ok::<Unknown44View, DecodeError>(v@),
            r matches Err(e) ==> unknown44_payload(b@) == Err::<Unknown44View, DecodeError>(e),
    {
        if b.len() < UNKNOWN44_LEN {
            return Err(DecodeError::BodyTooShort);
        }
        let wifi_ssid = match parse_string(b, 15, 16) {
            Some(s) => s,
            None => return Err(DecodeError::InvalidText),
        };
        Ok(Unknown44 {
            _unknown1: b[0],
            _unknown2: b[1],
            _unknown3: b[2],
            _unknown4: b[3],
            _unknown5: b[4],
            _unknown6: b[5],
            _unknown7: b[6],
            _unknown8: b[7],
            _unknown9: b[8],
            timestamp: read_u32_le(b, 9),
            _unknown10: read_u16_le(b, 13),
            wifi_ssid,
        })
    }
}

/// A decoded payload, tagged by its kind.
#[derive(Debug, Clone)]
pub enum IncomingMessageData {
    Heartbeat(Heartbeat),
    Data(Data),
    Hello(Hello),
    HelloCd(HelloCd),
    HelloEnd(HelloEnd),
    Unknown44(Unknown44),
}

/// The mathematical value of an [`IncomingMessageData`].
pub enum IncomingView {
    Heartbeat(Heartbeat),
    Data(DataView),
    Hello(HelloView),
    HelloCd(HelloCd),
    HelloEnd(HelloEnd),
    Unknown44(Unknown44View),
}

impl View for IncomingMessageData {
    type V = IncomingView;

    open spec fn view(&self) -> IncomingView {
        match self {
            IncomingMessageData::Heartbeat(d) => IncomingView::Heartbeat(*d),
            IncomingMessageData::Data(d) => IncomingView::Data(d@),
            IncomingMessageData::Hello(d) => IncomingView::Hello(d@),
            IncomingMessageData::HelloCd(d) => IncomingView::HelloCd(*d),
            IncomingMessageData::HelloEnd(d) => IncomingView::HelloEnd(*d),
            IncomingMessageData::Unknown44(d) => IncomingView::Unknown44(d@),
        }
    }
}

impl IncomingView {
    /// The payload field that a reply echoes: the leading byte of every schema.
    pub open spec fn message_id(self) -> u8 {
        match self {
            IncomingView::Heartbeat(d) => d._unknown,
            IncomingView::Data(d) => d._unknown1,
            IncomingView::Hello(d) => d.one,
            IncomingView::HelloCd(d) => d.one,
            IncomingView::HelloEnd(d) => d.one,
            IncomingView::Unknown44(d) => d._unknown1,
        }
    }
}

/// What decoding a payload of kind `t` gives.
pub open spec fn incoming_payload(t: SofarMessageType, body: Seq<u8>) -> Result<IncomingView, DecodeError> {
    match t {
        SofarMessageType::Heartbeat => match heartbeat_payload(body) {
            Ok(v) => Ok(IncomingView::Heartbeat(v)),
            Err(e) => Err(e),
        },
        SofarMessageType::Data => match data_payload(body) {
            Ok(v) => Ok(IncomingView::Data(v)),
            Err(e) => Err(e),
        },
        SofarMessageType::Hello => match hello_payload(body) {
            Ok(v) => Ok(IncomingView::Hello(v)),
            Err(e) => Err(e),
        },
        SofarMessageType::HelloCd => match hello_cd_payload(body) {
            Ok(v) => Ok(IncomingView::HelloCd(v)),
            Err(e) => Err(e),
        },
        SofarMessageType::Unknown44 => match unknown44_payload(body) {
            Ok(v) => Ok(IncomingView::Unknown44(v)),
            Err(e) => Err(e),
        },
    }
}

impl IncomingMessageData {
    /// Decodes `body` with the schema of kind `t`.
    pub fn parse(t: SofarMessageType, body: &[u8]) -> (r: Result<IncomingMessageData, DecodeError>)
        ensures
            r matches Ok(d) ==> incoming_payload(t, body@) == Ok::<IncomingView, DecodeError>(d@),
            r matches Err(e) ==> incoming_payload(t, body@) == Err::<IncomingView, DecodeError>(e),
    {
        match t {
            SofarMessageType::Heartbeat => match Heartbeat::parse(body) {
                Ok(v) => Ok(IncomingMessageData::Heartbeat(v)),
                Err(e) => Err(e),
            },
            SofarMessageType::Data => match Data::parse(body) {
                Ok(v) => Ok(IncomingMessageData::Data(v)),
                Err(e) => Err(e),
            },
            SofarMessageType::Hello => match Hello::parse(body) {
                Ok(v) => Ok(IncomingMessageData::Hello(v)),
                Err(e) => Err(e),
            },
            SofarMessageType::HelloCd => match HelloCd::parse(body) {
                Ok(v) => Ok(IncomingMessageData::HelloCd(v)),
                Err(e) => Err(e),
            },
            SofarMessageType::Unknown44 => match Unknown44::parse(body) {
                Ok(v) => Ok(IncomingMessageData::Unknown44(v)),
                Err(e) => Err(e),
            },
        }
    }

    /// The payload field that a reply echoes.
    pub fn message_id(&self) -> (r: u8)
        ensures
            r == self@.message_id(),
    {
        match self {
            IncomingMessageData::Heartbeat(d) => d._unknown,
            IncomingMessageData::Data(d) => d._unknown1,
            IncomingMessageData::Hello(d) => d.one,
            IncomingMessageData::HelloCd(d) => d.one,
            IncomingMessageData::HelloEnd(d) => d.one,
            IncomingMessageData::Unknown44(d) => d._unknown1,
        }
    }
}

/// Body of the server's acknowledgement.
#[derive(Debug, Clone, Copy, PartialEq, Eq, Structural)]
pub struct ServerResponse {
    /// Echo of the request's leading payload byte.
    pub message_id: u8,
    pub _unknown1: u8,
    pub timestamp: u32,
    pub _unknown2: u16,
    pub _unknown3: u16,
}

/// Number of bytes of a serialized [`ServerResponse`].
pub const SERVER_RESPONSE_LEN: usize = 10;

impl ServerResponse {
    /// The acknowledgement body for `message_id` at `timestamp`.
    pub open spec fn spec_new(message_id: u8, timestamp: u32) -> ServerResponse {
        ServerResponse { message_id, _unknown1: 1, timestamp, _unknown2: 0x0078, _unknown3: 0 }
    }

    /// The wire layout: fields in order, integers little-endian.
    pub open spec fn spec_bytes(self) -> Seq<u8> {
        seq![self.message_id, self._unknown1] + u32_le_bytes(self.timestamp) + u16_le_bytes(
            self._unknown2,
        ) + u16_le_bytes(self._unknown3)
    }

    /// The acknowledgement body for `message_id` at `timestamp`.
    pub fn new(message_id: u8, timestamp: u32) -> (r: ServerResponse)
        ensures
            r == ServerResponse::spec_new(message_id, timestamp),
    {
        ServerResponse { message_id, _unknown1: 1, timestamp, _unknown2: 0x0078, _unknown3: 0 }
    }

    /// Serializes the body in its fixed layout.
    pub fn to_bytes(&self) -> (r: Vec<u8>)
        ensures
            r@ == self.spec_bytes(),
            r@.len() == SERVER_RESPONSE_LEN,
    {
        let mut out: Vec<u8> = Vec::with_capacity(SERVER_RESPONSE_LEN);
        out.push(self.message_id);
        out.push(self._unknown1);
        push_u32_le(&mut out, self.timestamp);
        push_u16_le(&mut out, self._unknown2);
        push_u16_le(&mut out, self._unknown3);
        assert(out@ =~= self.spec_bytes());
        out
    }
}

/// A message that the server sends.
#[derive(Debug, Clone, Copy, PartialEq, Eq, Structural)]
pub enum OutgoingMessageData {
    ServerResponse(ServerResponse),
}

impl View for OutgoingMessageData {
    type V = OutgoingMessageData;

    open spec fn view(&self) -> OutgoingMessageData {
        *self
    }
}

/// A message with the frame header fields that travel with it.
#[derive(Debug, Clone)]
pub struct SofarMessage<T> {
    pub data: T,
    pub message_type: SofarMessageType,
    pub message_number: u8,
    pub message_number_2: u8,
    pub data_logger_sn: u32,
}

/// The mathematical value of a [`SofarMessage`].
pub struct MessageView<V> {
    pub data: V,
    pub message_type: SofarMessageType,
    pub message_number: u8,
    pub message_number_2: u8,
    pub data_logger_sn: u32,
}

impl<T: View> View for SofarMessage<T> {
    type V = MessageView<T::V>;

    open spec fn view(&self) -> MessageView<T::V> {
        MessageView {
            data: self.data@,
            message_type: self.message_type,
            message_number: self.message_number,
            message_number_2: self.message_number_2,
            data_logger_sn: self.data_logger_sn,
        }
    }
}

/// The reply owed to `request` at `timestamp`: its leading payload byte
/// echoed, the sequence number one higher (wrapping), the second sequence
/// number and the logger serial unchanged.
pub open spec fn reply_to(request: MessageView<IncomingView>, timestamp: u32) -> MessageView<
    OutgoingMessageData,
> {
    MessageView {
        data: OutgoingMessageData::ServerResponse(
            ServerResponse::spec_new(request.data.message_id(), timestamp),
        ),
        message_type: request.message_type,
        message_number: ((request.message_number + 1) % 256) as u8,
        message_number_2: request.message_number_2,
        data_logger_sn: request.data_logger_sn,
    }
}

impl SofarMessage<OutgoingMessageData> {
    /// Builds the acknowledgement of `request`.
    pub fn from_incoming_message(request: &SofarMessage<IncomingMessageData>, timestamp: u32) -> (r:
        SofarMessage<OutgoingMessageData>)
        ensures
            r@ == reply_to(request@, timestamp),
    {
        let message_id = request.data.message_id();
        SofarMessage {
            data: OutgoingMessageData::ServerResponse(ServerResponse::new(message_id, timestamp)),
            message_type: request.message_type,
            message_number: request.message_number.wrapping_add(1),
            message_number_2: request.message_number_2,
            data_logger_sn: request.data_logger_sn,
        }
    }
}

} // verus!
