//! The configuration that the radio stack is started with.
//!
//! The record is made of plain values, one section for each section the
//! stack takes. Whoever starts the stack turns it into the stack's own
//! structures; nothing here depends on the stack.

use vstd::prelude::*;
use vstd::string::StringSliceAdditionalSpecFns;

verus! {

/// Calibration timer interval of the RC oscillator, in quarter seconds.
pub const RC_CALIBRATION_INTERVAL: u8 = 16;

/// Number of calibration intervals after which the RC oscillator is
/// calibrated even if the temperature has not changed.
pub const RC_TEMP_CALIBRATION_INTERVAL: u8 = 2;

/// Number of connections that can be open at the same time.
pub const MAX_CONNECTIONS: u8 = 6;

/// Time set aside for a connection on each connection interval, in units
/// of 1.25 ms.
pub const CONNECTION_EVENT_LENGTH: u16 = 24;

/// Largest ATT packet that is sent or received, in bytes.
pub const ATT_MTU: u16 = 256;

/// Number of advertising sets.
pub const ADV_SET_COUNT: u8 = 1;

/// Number of connections in which the device is the peripheral.
pub const PERIPH_ROLE_COUNT: u8 = 3;

/// Number of connections in which the device is the central.
pub const CENTRAL_ROLE_COUNT: u8 = 3;

/// Number of security instances shared by the central connections.
pub const CENTRAL_SEC_COUNT: u8 = 0;

/// Number of values that a 16-bit length field can tell apart.
pub const LENGTH_FIELD_RANGE: usize = 0x1_0000;

/// Where the low-frequency clock comes from.
#[derive(Clone, Copy, Debug, PartialEq, Eq, Structural)]
pub enum ClockSource {
    /// The internal RC oscillator.
    Rc,
    /// An external crystal.
    Xtal,
    /// Synthesised from the high-frequency clock.
    Synth,
}

/// Accuracy of the low-frequency clock, in parts per million.
#[derive(Clone, Copy, Debug, PartialEq, Eq, Structural)]
pub enum ClockAccuracy {
    Ppm250,
    Ppm500,
    Ppm150,
    Ppm100,
    Ppm75,
    Ppm50,
    Ppm30,
    Ppm20,
    Ppm10,
    Ppm5,
    Ppm2,
    Ppm1,
}

/// The low-frequency clock.
#[derive(Clone, Copy, Debug, PartialEq, Eq, Structural)]
pub struct ClockConfig {
    pub source: ClockSource,
    pub rc_ctiv: u8,
    pub rc_temp_ctiv: u8,
    pub accuracy: ClockAccuracy,
}

/// Limits of the GAP connections.
#[derive(Clone, Copy, Debug, PartialEq, Eq, Structural)]
pub struct GapConnConfig {
    pub conn_count: u8,
    pub event_length: u16,
}

/// Limits of the GATT connections.
#[derive(Clone, Copy, Debug, PartialEq, Eq, Structural)]
pub struct GattConnConfig {
    pub att_mtu: u16,
}

/// Size of the attribute table.
#[derive(Clone, Copy, Debug, PartialEq, Eq, Structural)]
pub enum AttrTableSize {
    /// The size that the stack takes when it is given none.
    StackDefault,
    /// A size in bytes.
    Bytes(u32),
}

/// How many roles of each kind the device can play at once.
#[derive(Clone, Copy, Debug, PartialEq, Eq, Structural)]
pub struct GapRoleCount {
    pub adv_set_count: u8,
    pub periph_role_count: u8,
    pub central_role_count: u8,
    pub central_sec_count: u8,
    pub qos_channel_survey_role_available: bool,
}

/// Security that a link needs before an attribute can be reached over it:
/// a security mode and a level within the mode. Mode 0 with level 0 lets
/// nobody in.
#[derive(Clone, Copy, Debug, PartialEq, Eq, Structural)]
pub struct ConnSecMode {
    pub sm: u8,
    pub lv: u8,
}

/// Whose memory holds the device name once the stack runs.
#[derive(Clone, Copy, Debug, PartialEq, Eq, Structural)]
pub enum ValueLocation {
    /// The stack's: it reads the name from where the record points.
    Stack,
    /// The application's.
    User,
}

/// The device name and what goes with it.
///
/// The record borrows the name: the name's storage outlives every use of
/// the record, the stack's included.
#[derive(Clone, Copy, Debug, PartialEq, Eq)]
pub struct DeviceName<'a> {
    pub write_perm: ConnSecMode,
    pub vloc: ValueLocation,
    pub value: &'a str,
    pub current_len: u16,
    pub max_len: u16,
}

/// What the radio stack is started with.
#[derive(Clone, Copy, Debug, PartialEq, Eq)]
pub struct BleConfig<'a> {
    pub clock: ClockConfig,
    pub conn_gap: GapConnConfig,
    pub conn_gatt: GattConnConfig,
    pub gatts_attr_tab_size: AttrTableSize,
    pub gap_role_count: GapRoleCount,
    pub gap_device_name: DeviceName<'a>,
}

/// The length of a name as its 16-bit length fields hold it: the number of
/// its bytes, of which a field keeps the low 16 bits.
pub open spec fn name_len_field(name: &str) -> nat {
    name.spec_bytes().len() % (LENGTH_FIELD_RANGE as nat)
}

/// Create the default configuration of the radio stack for a keyboard of
/// the given name.
pub fn nrf_ble_config<'a>(keyboard_name: &'a str) -> (config: BleConfig<'a>)
    ensures
        config.clock == (ClockConfig {
            source: ClockSource::Rc,
            rc_ctiv: RC_CALIBRATION_INTERVAL,
            rc_temp_ctiv: RC_TEMP_CALIBRATION_INTERVAL,
            accuracy: ClockAccuracy::Ppm500,
        }),
        config.conn_gap == (GapConnConfig {
            conn_count: MAX_CONNECTIONS,
            event_length: CONNECTION_EVENT_LENGTH,
        }),
        config.conn_gatt == (GattConnConfig { att_mtu: ATT_MTU }),
        config.gatts_attr_tab_size == AttrTableSize::StackDefault,
        config.gap_role_count == (GapRoleCount {
            adv_set_count: ADV_SET_COUNT,
            periph_role_count: PERIPH_ROLE_COUNT,
            central_role_count: CENTRAL_ROLE_COUNT,
            central_sec_count: CENTRAL_SEC_COUNT,
            qos_channel_survey_role_available: false,
        }),
        config.gap_device_name.write_perm == (ConnSecMode { sm: 0, lv: 0 }),
        config.gap_device_name.vloc == ValueLocation::Stack,
        config.gap_device_name.value == keyboard_name,
        config.gap_device_name.current_len == name_len_field(keyboard_name),
        config.gap_device_name.max_len == name_len_field(keyboard_name),
{
    let len: u16 = (keyboard_name.as_bytes().len() % LENGTH_FIELD_RANGE) as u16;
    BleConfig {
        clock: ClockConfig {
            source: ClockSource::Rc,
            rc_ctiv: RC_CALIBRATION_INTERVAL,
            rc_temp_ctiv: RC_TEMP_CALIBRATION_INTERVAL,
            accuracy: ClockAccuracy::Ppm500,
        },
        conn_gap: GapConnConfig {
            conn_count: MAX_CONNECTIONS,
            event_length: CONNECTION_EVENT_LENGTH,
        },
        conn_gatt: GattConnConfig { att_mtu: ATT_MTU },
        gatts_attr_tab_size: AttrTableSize::StackDefault,
        gap_role_count: GapRoleCount {
            adv_set_count: ADV_SET_COUNT,
            periph_role_count: PERIPH_ROLE_COUNT,
            central_role_count: CENTRAL_ROLE_COUNT,
            central_sec_count: CENTRAL_SEC_COUNT,
            qos_channel_survey_role_available: false,
        },
        gap_device_name: DeviceName {
            write_perm: ConnSecMode { sm: 0, lv: 0 },
            vloc: ValueLocation::Stack,
            value: keyboard_name,
            current_len: len,
            max_len: len,
        },
    }
}

} // verus!
