use vstd::prelude::*;
use crate::registers::Registers;

verus! {

/// Number of bytes the interrupt decoder consumes.
pub const INTERRUPT_BYTES: usize = 3;

/// Number of bytes the sensor-sample decoder consumes.
pub const SAMPLE_BYTES: usize = 6;

/// Reported when a decoder is handed fewer bytes than the register group it
/// decodes spans: a contract violation by the caller, never a partial decode.
#[derive(Clone, Copy, Debug, PartialEq, Eq, Structural)]
pub struct UndersizedBuffer {
    /// How many bytes the decoder needed.
    pub expected: usize,
    /// How many bytes the caller supplied.
    pub got: usize,
}

/// Device status flags, decoded from the status register byte.
#[derive(Clone, Copy, Debug, PartialEq, Eq, Structural)]
pub struct Status {
    /// Data ready (DRDY) for the accelerometer.
    pub drdy_acc: bool,
    /// Data ready (DRDY) for the gyroscope.
    pub drdy_gyr: bool,
    /// Data ready (DRDY) for the magnetometer.
    pub drdy_mag: bool,
    /// NVM controller ready.
    pub nvm_rdy: bool,
    /// Fast offset compensation completed.
    pub foc_rdy: bool,
    /// Manual magnetometer interface operation.
    pub mag_man_op: bool,
    /// Gyroscope self-test completed successfully.
    pub gyr_self_test_ok: bool,
}

/// What each status flag means on the raw status byte, one fixed bit per
/// flag: bits 7 down to 1, in the field order of `Status`.
pub open spec fn spec_status(b: u8) -> Status {
    Status {
        drdy_acc: b & 0x80 != 0,
        drdy_gyr: b & 0x40 != 0,
        drdy_mag: b & 0x20 != 0,
        nvm_rdy: b & 0x10 != 0,
        foc_rdy: b & 0x08 != 0,
        mag_man_op: b & 0x04 != 0,
        gyr_self_test_ok: b & 0x02 != 0,
    }
}

/// Decodes the status register byte. Total: every byte value decodes.
pub fn parse_status(status: u8) -> (r: Status)
    ensures
        r == spec_status(status),
{
    Status {
        drdy_acc: status & 0x80 != 0,
        drdy_gyr: status & 0x40 != 0,
        drdy_mag: status & 0x20 != 0,
        nvm_rdy: status & 0x10 != 0,
        foc_rdy: status & 0x08 != 0,
        mag_man_op: status & 0x04 != 0,
        gyr_self_test_ok: status & 0x02 != 0,
    }
}

/// Accelerometer operating mode.
#[derive(Clone, Copy, Debug, PartialEq, Eq, Structural)]
pub enum AccelerometerPowerMode {
    Suspend,
    LowPower,
    Normal,
}

/// Magnetometer operating mode.
#[derive(Clone, Copy, Debug, PartialEq, Eq, Structural)]
pub enum MagnetometerPowerMode {
    Suspend,
    LowPower,
    Normal,
}

/// Gyroscope operating mode.
#[derive(Clone, Copy, Debug, PartialEq, Eq, Structural)]
pub enum GyroscopePowerMode {
    Suspend,
    Reserved,
    Normal,
    FastStartUp,
}

/// Operating mode of each subsystem, decoded from the power-mode status byte.
#[derive(Clone, Copy, Debug, PartialEq, Eq, Structural)]
pub struct PowerMode {
    pub accelerometer: AccelerometerPowerMode,
    pub magnetometer: MagnetometerPowerMode,
    pub gyroscope: GyroscopePowerMode,
}

/// Decoding table for the accelerometer 2-bit field. The `0b11` code has no
/// distinct documented state in this table and decodes as `Normal`.
pub open spec fn spec_accelerometer_mode(bits: u8) -> AccelerometerPowerMode {
    if bits == 0b00 {
        AccelerometerPowerMode::Suspend
    } else if bits == 0b10 {
        AccelerometerPowerMode::LowPower
    } else {
        AccelerometerPowerMode::Normal
    }
}

/// Decoding table for the magnetometer 2-bit field. The `0b11` code has no
/// distinct documented state in this table and decodes as `Normal`.
pub open spec fn spec_magnetometer_mode(bits: u8) -> MagnetometerPowerMode {
    if bits == 0b00 {
        MagnetometerPowerMode::Suspend
    } else if bits == 0b10 {
        MagnetometerPowerMode::LowPower
    } else {
        MagnetometerPowerMode::Normal
    }
}

/// Decoding table for the gyroscope 2-bit field: all four codes are distinct.
pub open spec fn spec_gyroscope_mode(bits: u8) -> GyroscopePowerMode {
    if bits == 0b00 {
        GyroscopePowerMode::Suspend
    } else if bits == 0b01 {
        GyroscopePowerMode::Normal
    } else if bits == 0b10 {
        GyroscopePowerMode::Reserved
    } else {
        GyroscopePowerMode::FastStartUp
    }
}

/// The power-mode byte split into its three 2-bit fields: bits 5..4 select
/// the accelerometer mode, bits 3..2 the gyroscope mode, bits 1..0 the
/// magnetometer mode.
pub open spec fn spec_power_mode(b: u8) -> PowerMode {
    PowerMode {
        accelerometer: spec_accelerometer_mode((b >> 4) & 0b11),
        magnetometer: spec_magnetometer_mode(b & 0b11),
        gyroscope: spec_gyroscope_mode((b >> 2) & 0b11),
    }
}

/// Decodes the power-mode status byte. Total: every byte value decodes.
pub fn parse_power_mode(power_mode: u8) -> (r: PowerMode)
    ensures
        r == spec_power_mode(power_mode),
{
    let accelerometer_bits: u8 = (power_mode >> 4) & 0b11;
    let magnetometer_bits: u8 = power_mode & 0b11;
    let gyroscope_bits: u8 = (power_mode >> 2) & 0b11;
    PowerMode {
        accelerometer: match accelerometer_bits {
            0b00 => AccelerometerPowerMode::Suspend,
            0b10 => AccelerometerPowerMode::LowPower,
            _ => AccelerometerPowerMode::Normal,
        },
        magnetometer: match magnetometer_bits {
            0b00 => MagnetometerPowerMode::Suspend,
            0b10 => MagnetometerPowerMode::LowPower,
            _ => MagnetometerPowerMode::Normal,
        },
        gyroscope: match gyroscope_bits {
            0b00 => GyroscopePowerMode::Suspend,
            0b01 => GyroscopePowerMode::Normal,
            0b10 => GyroscopePowerMode::Reserved,
            _ => GyroscopePowerMode::FastStartUp,
        },
    }
}

/// One reading from whichever subsystem supplied the bytes: three signed
/// 16-bit axis values.
#[derive(Clone, Copy, Debug, PartialEq, Eq, Structural)]
pub struct SensorData {
    pub x: i16,
    pub y: i16,
    pub z: i16,
}

/// One axis value: the little-endian pair read as an unsigned 16-bit value,
/// then reinterpreted as two's-complement (values at or above 0x8000 become
/// negative).
pub open spec fn spec_axis(lo: u8, hi: u8) -> i16 {
    if lo + 256 * hi < 0x8000 {
        (lo + 256 * hi) as i16
    } else {
        (lo + 256 * hi - 0x10000) as i16
    }
}

/// The first six bytes decoded as three little-endian signed axis values.
pub open spec fn spec_sensor_data(bytes: Seq<u8>) -> SensorData
    recommends
        bytes.len() >= SAMPLE_BYTES,
{
    SensorData {
        x: spec_axis(bytes[0], bytes[1]),
        y: spec_axis(bytes[2], bytes[3]),
        z: spec_axis(bytes[4], bytes[5]),
    }
}

/// Assembles one axis value from its little-endian byte pair, with the
/// two's-complement reinterpretation written out explicitly.
fn axis_from_le(lo: u8, hi: u8) -> (v: i16)
    ensures
        v == spec_axis(lo, hi),
{
    let raw: u16 = lo as u16 + 256 * (hi as u16);
    if raw < 0x8000 {
        raw as i16
    } else {
        ((raw as i32) - 0x10000) as i16
    }
}

/// Decodes a sensor sample from the first six bytes of `data`. Succeeds on
/// exactly the buffers that hold at least six bytes; an undersized buffer is
/// reported as a precondition violation, never read out of bounds.
pub fn parse_sensor_data(data: &[u8]) -> (r: Result<SensorData, UndersizedBuffer>)
    ensures
        r is Ok <==> data@.len() >= SAMPLE_BYTES,
        data@.len() >= SAMPLE_BYTES ==> (r matches Ok(s) && s == spec_sensor_data(data@)),
        r matches Err(e) ==> e.expected == SAMPLE_BYTES && e.got == data@.len(),
{
    if data.len() < SAMPLE_BYTES {
        return Err(UndersizedBuffer { expected: SAMPLE_BYTES, got: data.len() });
    }
    Ok(SensorData {
        x: axis_from_le(data[0], data[1]),
        y: axis_from_le(data[2], data[3]),
        z: axis_from_le(data[4], data[5]),
    })
}

/// Interrupt-engine flags, decoded from the three interrupt status bytes.
#[derive(Clone, Copy, Debug, PartialEq, Eq, Structural)]
pub struct Interupts {
    pub any_motion_x: bool,
    pub any_motion_y: bool,
    pub any_motion_z: bool,
    pub double_tap: bool,
    pub single_tap: bool,
    pub orientation: bool,
    pub flat: bool,
    pub high_g_x: bool,
    pub high_g_y: bool,
    pub high_g_z: bool,
    pub low_g: bool,
    pub drdy: bool,
    pub fifo_full: bool,
    pub fifo_watermark: bool,
    pub no_or_slow_motion_x: bool,
    pub no_or_slow_motion_y: bool,
    pub no_or_slow_motion_z: bool,
    pub step_detector: bool,
}

/// What each interrupt flag means on the raw bytes, one fixed bit per flag:
/// byte 0 carries motion, tap, orientation and flat, byte 1 high-g, low-g,
/// data-ready and FIFO, byte 2 no/slow-motion and the step detector.
pub open spec fn spec_interupts(bytes: Seq<u8>) -> Interupts
    recommends
        bytes.len() >= INTERRUPT_BYTES,
{
    Interupts {
        any_motion_x: bytes[0] & 0b0000_0001 != 0,
        any_motion_y: bytes[0] & 0b0000_0010 != 0,
        any_motion_z: bytes[0] & 0b0000_0100 != 0,
        double_tap: bytes[0] & 0b0001_0000 != 0,
        single_tap: bytes[0] & 0b0010_0000 != 0,
        orientation: bytes[0] & 0b0100_0000 != 0,
        flat: bytes[0] & 0b1000_0000 != 0,
        high_g_x: bytes[1] & 0b0000_0001 != 0,
        high_g_y: bytes[1] & 0b0000_0010 != 0,
        high_g_z: bytes[1] & 0b0000_0100 != 0,
        low_g: bytes[1] & 0b0000_1000 != 0,
        drdy: bytes[1] & 0b0001_0000 != 0,
        fifo_full: bytes[1] & 0b0010_0000 != 0,
        fifo_watermark: bytes[1] & 0b0100_0000 != 0,
        no_or_slow_motion_x: bytes[2] & 0b0000_0001 != 0,
        no_or_slow_motion_y: bytes[2] & 0b0000_0010 != 0,
        no_or_slow_motion_z: bytes[2] & 0b0000_0100 != 0,
        step_detector: bytes[2] & 0b0000_1000 != 0,
    }
}

/// Decodes the interrupt flags from the first three bytes of `data`.
/// Succeeds on exactly the buffers that hold at least three bytes; an
/// undersized buffer is reported as a precondition violation, never read out
/// of bounds.
pub fn parse_interupts(data: &[u8]) -> (r: Result<Interupts, UndersizedBuffer>)
    ensures
        r is Ok <==> data@.len() >= INTERRUPT_BYTES,
        data@.len() >= INTERRUPT_BYTES ==> (r matches Ok(s) && s == spec_interupts(data@)),
        r matches Err(e) ==> e.expected == INTERRUPT_BYTES && e.got == data@.len(),
{
    if data.len() < INTERRUPT_BYTES {
        return Err(UndersizedBuffer { expected: INTERRUPT_BYTES, got: data.len() });
    }
    Ok(Interupts {
        any_motion_x: data[0] & 0b0000_0001 != 0,
        any_motion_y: data[0] & 0b0000_0010 != 0,
        any_motion_z: data[0] & 0b0000_0100 != 0,
        double_tap: data[0] & 0b0001_0000 != 0,
        single_tap: data[0] & 0b0010_0000 != 0,
        orientation: data[0] & 0b0100_0000 != 0,
        flat: data[0] & 0b1000_0000 != 0,
        high_g_x: data[1] & 0b0000_0001 != 0,
        high_g_y: data[1] & 0b0000_0010 != 0,
        high_g_z: data[1] & 0b0000_0100 != 0,
        low_g: data[1] & 0b0000_1000 != 0,
        drdy: data[1] & 0b0001_0000 != 0,
        fifo_full: data[1] & 0b0010_0000 != 0,
        fifo_watermark: data[1] & 0b0100_0000 != 0,
        no_or_slow_motion_x: data[2] & 0b0000_0001 != 0,
        no_or_slow_motion_y: data[2] & 0b0000_0010 != 0,
        no_or_slow_motion_z: data[2] & 0b0000_0100 != 0,
        step_detector: data[2] & 0b0000_1000 != 0,
    })
}

/// The byte span each register group declares in the map equals the input
/// length the matching decoder consumes: the status and power-mode decoders
/// take the one byte their groups span, the interrupt and sensor-sample
/// decoders take exactly the spans of their groups, and the magnetometer
/// group carries a full axis sample before its trailing extra byte.
pub proof fn lemma_spans_match_decoders()
    ensures
        Registers::status_spec().bytes == 1,
        Registers::pmu_status_spec().bytes == 1,
        Registers::int_en_spec().bytes == INTERRUPT_BYTES,
        Registers::acc_spec().bytes == SAMPLE_BYTES,
        Registers::gyr_spec().bytes == SAMPLE_BYTES,
        Registers::mag_spec().bytes > SAMPLE_BYTES,
{
}

} // verus!
