//! Vision sensor data model: detected objects, colors and sensor settings.
//!
//! The raw object records and color words come from the SDK; the driver
//! layer destructures them into plain values and the functions here check
//! and assemble them.  Color values travel to the hardware packed as
//! `0x00RRGGBB` words.

use crate::error::{spec_port_error_from_errno, PortError, ERRNO_EACCES, ERRNO_EDOM, ERRNO_EHOSTDOWN};
use vstd::prelude::*;

verus! {

/// The signature value a raw object record carries when it is an error
/// marker rather than a detection.
pub const VISION_OBJECT_ERR_SIG: u16 = 255;

/// The lowest valid smart port index.
pub const SMART_PORT_MIN: u8 = 1;

/// The highest valid smart port index.
pub const SMART_PORT_MAX: u8 = 21;

/// Errors that can occur when using a vision sensor.
#[derive(Clone, Copy, PartialEq, Eq, Structural, Debug)]
pub enum VisionError {
    /// The camera could not be read.
    ReadingFailed,
    /// The index specified was higher than the total number of objects seen
    /// by the camera.
    IndexTooHigh,
    /// Port already taken.
    PortTaken,
    /// Generic port related error.
    Port(PortError),
}

/// The vision error a given errno code stands for, if any: the port-level
/// codes take precedence, then the vision-specific ones.
pub open spec fn spec_vision_error_from_errno(errno: i32) -> Option<VisionError> {
    if spec_port_error_from_errno(errno) is Some {
        Some(VisionError::Port(spec_port_error_from_errno(errno)->Some_0))
    } else if errno == ERRNO_EHOSTDOWN {
        Some(VisionError::ReadingFailed)
    } else if errno == ERRNO_EDOM {
        Some(VisionError::IndexTooHigh)
    } else if errno == ERRNO_EACCES {
        Some(VisionError::PortTaken)
    } else {
        None
    }
}

/// Turns an errno code into the vision error it stands for, if it is a
/// known code.
pub fn vision_error_from_errno(errno: i32) -> (r: Option<VisionError>)
    ensures
        r == spec_vision_error_from_errno(errno),
{
    match crate::error::port_error_from_errno(errno) {
        Some(pe) => Some(VisionError::Port(pe)),
        None => {
            if errno == ERRNO_EHOSTDOWN {
                Some(VisionError::ReadingFailed)
            } else if errno == ERRNO_EDOM {
                Some(VisionError::IndexTooHigh)
            } else if errno == ERRNO_EACCES {
                Some(VisionError::PortTaken)
            } else {
                None
            }
        },
    }
}

/// Represents a vision sensor plugged into a smart port.
#[derive(PartialEq, Eq, Structural, Debug)]
pub struct VisionSensor {
    port: u8,
}

impl VisionSensor {
    /// The smart port the sensor sits on.
    pub closed spec fn spec_port(self) -> u8 {
        self.port
    }

    /// Creates a new vision sensor on a valid smart port.  Sending the
    /// chosen origin point to the hardware is the driver layer's part.
    pub fn new(port: u8) -> (r: VisionSensor)
        requires
            SMART_PORT_MIN <= port <= SMART_PORT_MAX,
        ensures
            r.spec_port() == port,
    {
        VisionSensor { port }
    }

    /// The smart port index of the sensor.
    pub fn port_index(&self) -> (r: u8)
        ensures
            r == self.spec_port(),
    {
        self.port
    }
}

/// One object detection, relative to the sensor's configured zero point.
#[derive(Default, Clone, Copy, PartialEq, Eq, Structural, Debug)]
pub struct VisionObject {
    /// Topmost coordinate of the detection box.
    pub top: i16,
    /// Leftmost coordinate of the detection box.
    pub left: i16,
    /// Horizontal center of the detection box.
    pub middle_x: i16,
    /// Vertical center of the detection box.
    pub middle_y: i16,
    /// Width of the detection box.
    pub width: i16,
    /// Height of the detection box.
    pub height: i16,
}

/// The plain fields of one raw object record as the SDK hands it out; the
/// driver layer destructures the SDK's packed struct into this.
#[derive(Default, Clone, Copy, PartialEq, Eq, Structural, Debug)]
pub struct VisionRecord {
    /// The signature the detection matched — or the error marker.
    pub signature: u16,
    /// Topmost coordinate of the detection box.
    pub top_coord: i16,
    /// Leftmost coordinate of the detection box.
    pub left_coord: i16,
    /// Horizontal center of the detection box.
    pub x_middle_coord: i16,
    /// Vertical center of the detection box.
    pub y_middle_coord: i16,
    /// Width of the detection box.
    pub width: i16,
    /// Height of the detection box.
    pub height: i16,
}

/// The detection a valid raw record describes.
pub open spec fn object_of(record: VisionRecord) -> VisionObject {
    VisionObject {
        top: record.top_coord,
        left: record.left_coord,
        middle_x: record.x_middle_coord,
        middle_y: record.y_middle_coord,
        width: record.width,
        height: record.height,
    }
}

/// Checks and assembles one raw object record.  A record carrying the
/// error signature stands for a failed read and surfaces the error that
/// errno holds.
pub fn vision_object_from_raw(record: VisionRecord, errno: i32) -> (r: Result<
    VisionObject,
    VisionError,
>)
    requires
        record.signature == VISION_OBJECT_ERR_SIG ==> spec_vision_error_from_errno(errno) is Some,
    ensures
        record.signature == VISION_OBJECT_ERR_SIG ==> r == Result::<
            VisionObject,
            VisionError,
        >::Err(spec_vision_error_from_errno(errno)->Some_0),
        record.signature != VISION_OBJECT_ERR_SIG ==> r == Result::<
            VisionObject,
            VisionError,
        >::Ok(object_of(record)),
{
    if record.signature == VISION_OBJECT_ERR_SIG {
        match vision_error_from_errno(errno) {
            Some(e) => Err(e),
            None => Err(VisionError::ReadingFailed),  // unreachable under the precondition
        }
    } else {
        Ok(
            VisionObject {
                top: record.top_coord,
                left: record.left_coord,
                middle_x: record.x_middle_coord,
                middle_y: record.y_middle_coord,
                width: record.width,
                height: record.height,
            },
        )
    }
}

/// The detections a whole read hands back: every record that is not an
/// error marker, converted, in the order read — largest first, as the
/// sensor reports them.
pub open spec fn objects_of(records: Seq<VisionRecord>) -> Seq<VisionObject>
    decreases records.len(),
{
    if records.len() == 0 {
        Seq::<VisionObject>::empty()
    } else if records.last().signature != VISION_OBJECT_ERR_SIG {
        objects_of(records.drop_last()).push(object_of(records.last()))
    } else {
        objects_of(records.drop_last())
    }
}

/// Converts a whole read of raw records, keeping order and dropping the
/// error markers among them.
pub fn vision_objects_from_records(records: &Vec<VisionRecord>) -> (r: Vec<VisionObject>)
    ensures
        r@ == objects_of(records@),
{
    let mut objects: Vec<VisionObject> = Vec::new();
    let n = records.len();
    let mut i: usize = 0;
    proof {
        assert(records@.take(0) =~= Seq::<VisionRecord>::empty());
    }
    while i < n
        invariant
            0 <= i <= n,
            n == records@.len(),
            objects@ == objects_of(records@.take(i as int)),
        decreases n - i,
    {
        let record = records[i];
        proof {
            assert(records@.take(i as int + 1).drop_last() =~= records@.take(i as int));
            assert(records@.take(i as int + 1).last() == records@[i as int]);
        }
        if record.signature != VISION_OBJECT_ERR_SIG {
            objects.push(
                VisionObject {
                    top: record.top_coord,
                    left: record.left_coord,
                    middle_x: record.x_middle_coord,
                    middle_y: record.y_middle_coord,
                    width: record.width,
                    height: record.height,
                },
            );
        }
        i += 1;
    }
    proof {
        assert(records@.take(n as int) =~= records@);
    }
    objects
}

/// A red-green-blue color triple.
#[derive(Default, Clone, Copy, PartialEq, Eq, Structural, Debug)]
pub struct Rgb {
    r: u8,
    g: u8,
    b: u8,
}

impl Rgb {
    /// The red component.
    pub closed spec fn red(self) -> u8 {
        self.r
    }

    /// The green component.
    pub closed spec fn green(self) -> u8 {
        self.g
    }

    /// The blue component.
    pub closed spec fn blue(self) -> u8 {
        self.b
    }

    /// A color from its three components.
    pub fn new(r: u8, g: u8, b: u8) -> (c: Rgb)
        ensures
            c.red() == r,
            c.green() == g,
            c.blue() == b,
    {
        Rgb { r, g, b }
    }

    /// Packs the color into a `0x00RRGGBB` word, the form the hardware
    /// takes.
    pub fn to_u32(self) -> (w: u32)
        ensures
            w == self.red() * 0x10000 + self.green() * 0x100 + self.blue(),
    {
        let ru = self.r as u32;
        let gu = self.g as u32;
        let bu = self.b as u32;
        proof {
            assert((ru << 16u32) == ru * 0x10000 && (gu << 8u32) == gu * 0x100) by (bit_vector)
                requires
                    ru <= 255 && gu <= 255,
            ;
        }
        (ru << 16u32) + (gu << 8u32) + bu
    }

    /// Unpacks a `0x00RRGGBB` word into its components; the top byte is
    /// ignored.
    pub fn from_u32(word: u32) -> (c: Rgb)
        ensures
            c.red() == (word >> 16u32) & 0xFF,
            c.green() == (word >> 8u32) & 0xFF,
            c.blue() == word & 0xFF,
    {
        proof {
            assert(((word >> 16u32) & 0xFF) <= 255 && ((word >> 8u32) & 0xFF) <= 255 && (word
                & 0xFF) <= 255) by (bit_vector);
        }
        Rgb {
            r: ((word >> 16u32) & 0xFF) as u8,
            g: ((word >> 8u32) & 0xFF) as u8,
            b: (word & 0xFF) as u8,
        }
    }
}

/// Packing a color and unpacking the word gives the color back: the two
/// conversions are inverse on every component.
pub proof fn lemma_rgb_round_trip(c: Rgb)
    ensures
        ({
            let w = (c.red() * 0x10000 + c.green() * 0x100 + c.blue()) as u32;
            &&& (w >> 16u32) & 0xFF == c.red()
            &&& (w >> 8u32) & 0xFF == c.green()
            &&& w & 0xFF == c.blue()
        }),
{
    let r = c.red();
    let g = c.green();
    let b = c.blue();
    assert(((((r as u32) * 0x10000 + (g as u32) * 0x100 + (b as u32)) as u32) >> 16u32) & 0xFF == r
        as u32) by (bit_vector);
    assert(((((r as u32) * 0x10000 + (g as u32) * 0x100 + (b as u32)) as u32) >> 8u32) & 0xFF == g
        as u32) by (bit_vector);
    assert(((((r as u32) * 0x10000 + (g as u32) * 0x100 + (b as u32)) as u32) & 0xFF) == b as u32)
        by (bit_vector);
}

/// The point object positions are reported relative to.
#[derive(Clone, Copy, PartialEq, Eq, Structural, Debug)]
pub enum VisionOriginPoint {
    /// Positions are relative to the top-left corner of the field of view.
    TopLeft,
    /// Positions are relative to the center of the field of view.
    Center,
}

impl VisionOriginPoint {
    /// The wire code the SDK takes for this origin point.
    pub fn code(self) -> (r: u32)
        ensures
            self is TopLeft ==> r == 0,
            self is Center ==> r == 1,
    {
        match self {
            VisionOriginPoint::TopLeft => 0,
            VisionOriginPoint::Center => 1,
        }
    }
}

/// White balance setting of the sensor.
#[derive(Clone, Copy, PartialEq, Eq, Structural, Debug)]
pub enum WhiteBalance {
    /// A fixed white balance color.
    Rgb(Rgb),
    /// The sensor balances automatically.
    Auto,
}

impl WhiteBalance {
    /// The fixed color word to send, or `None` when the sensor should
    /// balance automatically.
    pub fn fixed_word(self) -> (r: Option<u32>)
        ensures
            self is Auto ==> r is None,
            self is Rgb ==> r == Some::<u32>(
                (self->Rgb_0.red() * 0x10000 + self->Rgb_0.green() * 0x100
                    + self->Rgb_0.blue()) as u32,
            ),
    {
        match self {
            WhiteBalance::Auto => None,
            WhiteBalance::Rgb(c) => Some(c.to_u32()),
        }
    }
}

/// Led state of the sensor.
#[derive(Clone, Copy, PartialEq, Eq, Structural, Debug)]
pub enum LedMode {
    /// The led shows a fixed color.
    On(Rgb),
    /// The led is off.
    Off,
}

impl LedMode {
    /// The color word to send, or `None` when the led should be cleared.
    pub fn color_word(self) -> (r: Option<u32>)
        ensures
            self is Off ==> r is None,
            self is On ==> r == Some::<u32>(
                (self->On_0.red() * 0x10000 + self->On_0.green() * 0x100
                    + self->On_0.blue()) as u32,
            ),
    {
        match self {
            LedMode::Off => None,
            LedMode::On(c) => Some(c.to_u32()),
        }
    }
}

} // verus!
