//! Attribute formats: the closed set of field types a vertex record may hold.

pub use bytemuck::Pod;
pub use bytemuck::Zeroable;
use vstd::prelude::*;

verus! {

/// The type of one field of a vertex record.
#[derive(Clone, Copy, Debug, PartialEq, Eq, Structural)]
pub enum Format {
    /// Two 32-bit floats.
    Float32x2,
    /// Three 32-bit floats.
    Float32x3,
}

/// `wgpu::VertexFormat::size` on the wire format that stands for `format`:
/// 8 bytes for two 32-bit floats, 12 bytes for three.
#[verifier::external_body]
fn wire_size(format: Format) -> (bytes: u64)
    ensures
        bytes == format.byte_size(),
{
    let wire: wgpu::VertexFormat = match format {
        Format::Float32x2 => wgpu::VertexFormat::Float32x2,
        Format::Float32x3 => wgpu::VertexFormat::Float32x3,
    };
    wire.size()
}

impl Format {
    /// How many bytes a field of this format occupies.
    pub open spec fn byte_size(self) -> nat {
        match self {
            Format::Float32x2 => 8,
            Format::Float32x3 => 12,
        }
    }

    /// The byte size of the format.
    pub fn size(self) -> (bytes: u64)
        ensures
            bytes == self.byte_size(),
    {
        wire_size(self)
    }
}

/// A type that a field of a vertex record may have.
pub trait Data {
    /// The format of fields of this type.
    fn format() -> Format;
}

} // verus!
