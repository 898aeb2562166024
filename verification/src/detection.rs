//! Identification of the gyroscope on the bus from its WHO_AM_I byte.
//!
//! The caller transfers `read_frame(WHO_AM_I)` (0x8F, 0x00) with the chip
//! selected and hands the outcome of the transfer to `detect_gyroscope` or
//! `identify_gryoscope`; the byte received second is the WHO_AM_I value.

use vstd::prelude::*;

verus! {

/// WHO_AM_I value of the I3G4250D.
pub const I3G4250D_ID: u8 = 0xD3;

/// WHO_AM_I value of the L3GD20.
pub const L3GD20_ID: u8 = 0xD4;

/// WHO_AM_I value of the L3GD20H.
pub const L3GD20H_ID: u8 = 0xD7;

/// Identified gyroscope variant.
#[derive(Debug, Clone, Copy, PartialEq, Eq, Structural)]
pub enum GyroVariant {
    I3g4250d,
    L3gd20,
    L3gd20h,
    Unknown(u8),
}

/// The variant that answers WHO_AM_I with `id`.
pub open spec fn variant_of(id: u8) -> GyroVariant {
    if id == I3G4250D_ID {
        GyroVariant::I3g4250d
    } else if id == L3GD20_ID {
        GyroVariant::L3gd20
    } else if id == L3GD20H_ID {
        GyroVariant::L3gd20h
    } else {
        GyroVariant::Unknown(id)
    }
}

/// The name of the device that answers WHO_AM_I with `id`, or the error for
/// an unknown device.
pub open spec fn device_name(id: u8) -> Result<&'static str, &'static str> {
    if id == L3GD20_ID {
        Ok("L3GD20")
    } else if id == I3G4250D_ID {
        Ok("I3G4250D")
    } else if id == L3GD20H_ID {
        Ok("L3GD20H")
    } else {
        Err("Unknown gyroscope device")
    }
}

impl GyroVariant {
    /// The WHO_AM_I byte by which this variant was recognised.
    pub open spec fn who_am_i_value(self) -> u8 {
        match self {
            GyroVariant::I3g4250d => I3G4250D_ID,
            GyroVariant::L3gd20 => L3GD20_ID,
            GyroVariant::L3gd20h => L3GD20H_ID,
            GyroVariant::Unknown(id) => id,
        }
    }

    /// The variant that answers WHO_AM_I with `id`.
    pub fn from_who_am_i(id: u8) -> (v: GyroVariant)
        ensures
            v == variant_of(id),
    {
        if id == I3G4250D_ID {
            GyroVariant::I3g4250d
        } else if id == L3GD20_ID {
            GyroVariant::L3gd20
        } else if id == L3GD20H_ID {
            GyroVariant::L3gd20h
        } else {
            GyroVariant::Unknown(id)
        }
    }
}

/// Identifies the gyroscope from the outcome of the WHO_AM_I transfer: the
/// transfer's error is returned as it is, otherwise the variant named by the
/// second byte received.
pub fn detect_gyroscope<E>(received: Result<&[u8], E>) -> (r: Result<GyroVariant, E>)
    requires
        received matches Ok(rx) ==> rx@.len() >= 2,
    ensures
        match received {
            Ok(rx) => r == Ok::<GyroVariant, E>(variant_of(rx@[1])),
            Err(e) => r == Err::<GyroVariant, E>(e),
        },
{
    match received {
        Ok(rx) => Ok(GyroVariant::from_who_am_i(rx[1])),
        Err(e) => Err(e),
    }
}

/// Names the gyroscope from the outcome of the WHO_AM_I transfer: "L3GD20",
/// "I3G4250D" or "L3GD20H"; the error "Unknown gyroscope device" for any other
/// byte, and "Failed to read WHO_AM_I register" when the transfer failed.
pub fn identify_gryoscope<E>(received: Result<&[u8], E>) -> (r: Result<&'static str, &'static str>)
    requires
        received matches Ok(rx) ==> rx@.len() >= 2,
    ensures
        match received {
            Ok(rx) => r == device_name(rx@[1]),
            Err(_) => r == Err::<&'static str, &'static str>("Failed to read WHO_AM_I register"),
        },
{
    match received {
        Ok(rx) => {
            let id = rx[1];
            if id == L3GD20_ID {
                Ok("L3GD20")
            } else if id == I3G4250D_ID {
                Ok("I3G4250D")
            } else if id == L3GD20H_ID {
                Ok("L3GD20H")
            } else {
                Err("Unknown gyroscope device")
            }
        },
        Err(_) => Err("Failed to read WHO_AM_I register"),
    }
}

/// Identification keeps the byte it was given: the variant found for `id`
/// gives `id` back, so distinct WHO_AM_I bytes give distinct variants.
pub proof fn law_variant_keeps_id(id: u8)
    ensures
        variant_of(id).who_am_i_value() == id,
{
}

/// The two identifications agree: a device has a name exactly when it is one
/// of the three known variants.
pub proof fn law_name_iff_known(id: u8)
    ensures
        device_name(id) is Ok <==> !(variant_of(id) is Unknown),
{
}

/// The identification table: 0xD3 is the I3G4250D, 0xD4 the L3GD20, 0xD7 the
/// L3GD20H, and any other byte is `Unknown` carrying that byte; the names are
/// "I3G4250D", "L3GD20", "L3GD20H", and any other byte is the error
/// "Unknown gyroscope device".
pub proof fn law_identification_table(id: u8)
    ensures
        id == 0xD3 ==> variant_of(id) == GyroVariant::I3g4250d && device_name(id) == Ok::<&'static str, &'static str>("I3G4250D"),
        id == 0xD4 ==> variant_of(id) == GyroVariant::L3gd20 && device_name(id) == Ok::<&'static str, &'static str>("L3GD20"),
        id == 0xD7 ==> variant_of(id) == GyroVariant::L3gd20h && device_name(id) == Ok::<&'static str, &'static str>("L3GD20H"),
        id != 0xD3 && id != 0xD4 && id != 0xD7 ==> variant_of(id) == GyroVariant::Unknown(id)
            && device_name(id) == Err::<&'static str, &'static str>("Unknown gyroscope device"),
{
}

} // verus!
