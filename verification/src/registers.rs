use vstd::prelude::*;

verus! {

/// One named group of consecutive device registers: the address of its first
/// register, and how many consecutive bytes must be read from that address to
/// decode the whole group.
#[derive(Clone, Copy, Debug, PartialEq, Eq, Structural)]
pub struct RegisterGroup {
    pub base: u8,
    pub bytes: usize,
}

/// The BMI160 register map: the base address and byte span of every register
/// group this library knows how to decode or address.
pub struct Registers;

impl Registers {
    /// Chip identification byte.
    pub open spec fn chipid_spec() -> RegisterGroup {
        RegisterGroup { base: 0x00, bytes: 1 }
    }

    pub fn chipid() -> (g: RegisterGroup)
        ensures
            g == Self::chipid_spec(),
    {
        RegisterGroup { base: 0x00, bytes: 1 }
    }

    /// Error register.
    pub open spec fn err_reg_spec() -> RegisterGroup {
        RegisterGroup { base: 0x02, bytes: 1 }
    }

    pub fn err_reg() -> (g: RegisterGroup)
        ensures
            g == Self::err_reg_spec(),
    {
        RegisterGroup { base: 0x02, bytes: 1 }
    }

    /// Power-mode status byte, decoded by the power-mode decoder.
    pub open spec fn pmu_status_spec() -> RegisterGroup {
        RegisterGroup { base: 0x03, bytes: 1 }
    }

    pub fn pmu_status() -> (g: RegisterGroup)
        ensures
            g == Self::pmu_status_spec(),
    {
        RegisterGroup { base: 0x03, bytes: 1 }
    }

    /// Magnetometer data: a 6-byte axis sample followed by one extra byte.
    pub open spec fn mag_spec() -> RegisterGroup {
        RegisterGroup { base: 0x04, bytes: 7 }
    }

    pub fn mag() -> (g: RegisterGroup)
        ensures
            g == Self::mag_spec(),
    {
        RegisterGroup { base: 0x04, bytes: 7 }
    }

    /// Gyroscope data, decoded by the sensor-sample decoder.
    pub open spec fn gyr_spec() -> RegisterGroup {
        RegisterGroup { base: 0x0C, bytes: 6 }
    }

    pub fn gyr() -> (g: RegisterGroup)
        ensures
            g == Self::gyr_spec(),
    {
        RegisterGroup { base: 0x0C, bytes: 6 }
    }

    /// Accelerometer data, decoded by the sensor-sample decoder.
    pub open spec fn acc_spec() -> RegisterGroup {
        RegisterGroup { base: 0x12, bytes: 6 }
    }

    pub fn acc() -> (g: RegisterGroup)
        ensures
            g == Self::acc_spec(),
    {
        RegisterGroup { base: 0x12, bytes: 6 }
    }

    /// Sensor-time counter, three bytes, little endian.
    pub open spec fn sensortime_spec() -> RegisterGroup {
        RegisterGroup { base: 0x18, bytes: 3 }
    }

    pub fn sensortime() -> (g: RegisterGroup)
        ensures
            g == Self::sensortime_spec(),
    {
        RegisterGroup { base: 0x18, bytes: 3 }
    }

    /// Device status byte, decoded by the status decoder.
    pub open spec fn status_spec() -> RegisterGroup {
        RegisterGroup { base: 0x1B, bytes: 1 }
    }

    pub fn status() -> (g: RegisterGroup)
        ensures
            g == Self::status_spec(),
    {
        RegisterGroup { base: 0x1B, bytes: 1 }
    }

    /// Interrupt-engine enable block, decoded by the interrupt decoder.
    pub open spec fn int_en_spec() -> RegisterGroup {
        RegisterGroup { base: 0x50, bytes: 3 }
    }

    pub fn int_en() -> (g: RegisterGroup)
        ensures
            g == Self::int_en_spec(),
    {
        RegisterGroup { base: 0x50, bytes: 3 }
    }

    /// Command register, a single write-only byte.
    pub open spec fn cmd_spec() -> RegisterGroup {
        RegisterGroup { base: 0x7E, bytes: 1 }
    }

    pub fn cmd() -> (g: RegisterGroup)
        ensures
            g == Self::cmd_spec(),
    {
        RegisterGroup { base: 0x7E, bytes: 1 }
    }
}

/// A group `a` sits entirely below a group `b` in the register address space.
pub open spec fn precedes(a: RegisterGroup, b: RegisterGroup) -> bool {
    a.base + a.bytes <= b.base
}

/// Every group in the map spans at least one byte, and, taken in address
/// order, no two groups overlap.
pub proof fn lemma_register_map_well_formed()
    ensures
        Registers::chipid_spec().bytes >= 1,
        Registers::err_reg_spec().bytes >= 1,
        Registers::pmu_status_spec().bytes >= 1,
        Registers::mag_spec().bytes >= 1,
        Registers::gyr_spec().bytes >= 1,
        Registers::acc_spec().bytes >= 1,
        Registers::sensortime_spec().bytes >= 1,
        Registers::status_spec().bytes >= 1,
        Registers::int_en_spec().bytes >= 1,
        Registers::cmd_spec().bytes >= 1,
        precedes(Registers::chipid_spec(), Registers::err_reg_spec()),
        precedes(Registers::err_reg_spec(), Registers::pmu_status_spec()),
        precedes(Registers::pmu_status_spec(), Registers::mag_spec()),
        precedes(Registers::mag_spec(), Registers::gyr_spec()),
        precedes(Registers::gyr_spec(), Registers::acc_spec()),
        precedes(Registers::acc_spec(), Registers::sensortime_spec()),
        precedes(Registers::sensortime_spec(), Registers::status_spec()),
        precedes(Registers::status_spec(), Registers::int_en_spec()),
        precedes(Registers::int_en_spec(), Registers::cmd_spec()),
{
}

} // verus!
