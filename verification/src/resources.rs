//! What the device-side resources look like: the binding table shared with
//! the rendering kernel, the accumulation image, the quad of the display
//! pass, and the choice of a surface format.  The descriptions are plain
//! values; creating the resources from them is left to the caller.

use crate::bytes::{is_memory_image, slice_bytes};
use crate::render::UNIFORM_BLOCK_SIZE;
use vstd::prelude::*;

verus! {

/// The texel formats that occur.
#[derive(Clone, Copy, Debug, PartialEq, Eq)]
pub enum TextureFormat {
    /// Four 8-bit normalised channels, red first.
    Rgba8Unorm,
    /// Four 8-bit normalised channels, blue first.
    Bgra8Unorm,
    /// Four 32-bit floating-point channels.
    Rgba32Float,
    /// Any other format.
    Other,
}

/// What is bound at a slot.
#[derive(Clone, Copy, Debug, PartialEq, Eq)]
pub enum BindingKind {
    /// The uniform block, bound whole from offset zero.
    UniformBlock { size: usize },
    /// A two-dimensional storage image.
    StorageImage { format: TextureFormat, readable: bool, writable: bool },
}

/// One slot of the binding table.
#[derive(Clone, Copy, Debug, PartialEq, Eq)]
pub struct Binding {
    /// The slot number the kernel knows the resource by.
    pub slot: u32,
    /// What is bound there.
    pub kind: BindingKind,
    /// Whether the vertex stage reads it.
    pub vertex_stage: bool,
    /// Whether the fragment stage reads it.
    pub fragment_stage: bool,
}

/// The binding table: slot 0 is the uniform block, read by both stages;
/// slot 1 is the accumulation image, read and written by the fragment stage.
pub open spec fn binding_table() -> Seq<Binding> {
    seq![
        Binding {
            slot: 0,
            kind: BindingKind::UniformBlock { size: UNIFORM_BLOCK_SIZE },
            vertex_stage: true,
            fragment_stage: true,
        },
        Binding {
            slot: 1,
            kind: BindingKind::StorageImage {
                format: TextureFormat::Rgba32Float,
                readable: true,
                writable: true,
            },
            vertex_stage: false,
            fragment_stage: true,
        },
    ]
}

/// The binding table, for the layout of the display pipeline and for the
/// bind group alike.
pub fn display_bindings() -> (bindings: [Binding; 2])
    ensures
        bindings@ == binding_table(),
{
    let bindings = [
        Binding {
            slot: 0,
            kind: BindingKind::UniformBlock { size: UNIFORM_BLOCK_SIZE },
            vertex_stage: true,
            fragment_stage: true,
        },
        Binding {
            slot: 1,
            kind: BindingKind::StorageImage {
                format: TextureFormat::Rgba32Float,
                readable: true,
                writable: true,
            },
            vertex_stage: false,
            fragment_stage: true,
        },
    ];
    assert(bindings@ =~= binding_table());
    bindings
}

/// A two-dimensional image on the device.
#[derive(Clone, Copy, Debug, PartialEq, Eq)]
pub struct ImageDescription {
    pub width: u32,
    pub height: u32,
    pub depth_or_array_layers: u32,
    pub mip_level_count: u32,
    pub sample_count: u32,
    pub format: TextureFormat,
    /// Whether the image can be bound as a texture.
    pub texture_binding: bool,
    /// Whether the image can be bound as a storage image.
    pub storage_binding: bool,
}

/// The accumulation image for an output of the given size: one layer, one mip
/// level, one sample per texel, four 32-bit floating-point channels, bound as
/// a storage image.
pub fn accumulation_image(width: u32, height: u32) -> (image: ImageDescription)
    ensures
        image == (ImageDescription {
            width,
            height,
            depth_or_array_layers: 1,
            mip_level_count: 1,
            sample_count: 1,
            format: TextureFormat::Rgba32Float,
            texture_binding: true,
            storage_binding: true,
        }),
{
    ImageDescription {
        width,
        height,
        depth_or_array_layers: 1,
        mip_level_count: 1,
        sample_count: 1,
        format: TextureFormat::Rgba32Float,
        texture_binding: true,
        storage_binding: true,
    }
}

/// The format the display pass writes.
pub fn display_target_format() -> (format: TextureFormat)
    ensures
        format is Bgra8Unorm,
{
    TextureFormat::Bgra8Unorm
}

/// Number of vertices of the quad that the display pass draws: two triangles.
pub const QUAD_VERTEX_COUNT: u32 = 6;

/// Bytes from one vertex of the quad to the next.
pub const QUAD_VERTEX_STRIDE: usize = 4;

/// The vertices of the quad.  A vertex is nothing but its own number; the
/// vertex stage derives the corner from it.
pub open spec fn quad_vertices() -> Seq<u32> {
    seq![0u32, 1u32, 2u32, 3u32, 4u32, 5u32]
}

/// The contents of the vertex buffer: the vertices of the quad in order, each
/// in the byte order of the machine.
pub fn quad_vertex_bytes() -> (bytes: Vec<u8>)
    ensures
        bytes@.len() == QUAD_VERTEX_COUNT * QUAD_VERTEX_STRIDE,
        is_memory_image(bytes@, quad_vertices()),
{
    let vertices: [u32; 6] = [0, 1, 2, 3, 4, 5];
    assert(vertices@ =~= quad_vertices());
    slice_bytes(vertices.as_slice())
}

/// Whether a surface of this format can show what the display pass writes.
pub open spec fn is_preferred(format: TextureFormat) -> bool {
    format is Rgba8Unorm || format is Bgra8Unorm
}

/// The position of the first preferred format among those a surface offers,
/// or `None` where it offers none.
pub fn first_preferred_format(formats: &[TextureFormat]) -> (found: Option<usize>)
    ensures
        match found {
            Some(i) => {
                &&& i < formats@.len()
                &&& is_preferred(formats@[i as int])
                &&& forall|j: int| 0 <= j < i ==> !is_preferred(#[trigger] formats@[j])
            },
            None => forall|j: int| 0 <= j < formats@.len() ==> !is_preferred(#[trigger] formats@[j]),
        },
{
    let mut i: usize = 0;
    while i < formats.len()
        invariant
            i <= formats@.len(),
            forall|j: int| 0 <= j < i ==> !is_preferred(#[trigger] formats@[j]),
        decreases formats@.len() - i,
    {
        match formats[i] {
            TextureFormat::Rgba8Unorm | TextureFormat::Bgra8Unorm => {
                return Some(i);
            },
            _ => {},
        }
        i = i + 1;
    }
    None
}

} // verus!
