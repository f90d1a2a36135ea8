//! Tagged pixel storage: the buffer a decoded image owns, the tag that says
//! which sample type it holds, and the hand-over of both.

use vstd::prelude::*;

verus! {

/// Which sample type a pixel buffer holds.
#[derive(Clone, Copy, PartialEq, Eq, Structural, Debug)]
pub enum DataType {
    /// 16-bit integer samples.
    Integer,
    /// 32-bit floating-point samples.
    Float,
}

/// An owned pixel buffer. A floating-point sample is held as the 32 bits of
/// its IEEE 754 encoding.
#[derive(PartialEq, Eq, Debug)]
pub enum PixelData {
    Integer(Vec<u16>),
    Float(Vec<u32>),
}

impl PixelData {
    /// The tag that goes with this buffer.
    pub open spec fn tag(&self) -> DataType {
        match self {
            PixelData::Integer(_) => DataType::Integer,
            PixelData::Float(_) => DataType::Float,
        }
    }

    /// The number of samples in this buffer.
    pub open spec fn count(&self) -> nat {
        match self {
            PixelData::Integer(samples) => samples@.len(),
            PixelData::Float(samples) => samples@.len(),
        }
    }

    /// The tag that goes with this buffer.
    pub fn data_type(&self) -> (tag: DataType)
        ensures
            tag == self.tag(),
    {
        match self {
            PixelData::Integer(_) => DataType::Integer,
            PixelData::Float(_) => DataType::Float,
        }
    }

    /// The number of samples in this buffer.
    pub fn len(&self) -> (count: usize)
        ensures
            count == self.count(),
    {
        match self {
            PixelData::Integer(samples) => samples.len(),
            PixelData::Float(samples) => samples.len(),
        }
    }
}

/// Hands a pixel buffer over: the tag of its sample type, the buffer itself,
/// untouched, and the number of its samples.
pub fn transfer(data: PixelData) -> (published: (DataType, PixelData, usize))
    ensures
        published.0 == data.tag(),
        published.1 == data,
        published.2 == data.count(),
{
    let data_type = data.data_type();
    let data_len = data.len();
    (data_type, data, data_len)
}

} // verus!
