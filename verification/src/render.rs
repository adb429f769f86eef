//! The uniform block and the sample count it carries from frame to frame.

use crate::bytes::{
    block_bytes, is_memory_image, lemma_read_word, read_word, words_as_bytes, ByteOrder,
};
use crate::camera::CameraUniforms;
use vstd::prelude::*;

verus! {

/// Size of the uniform block in bytes.
pub const UNIFORM_BLOCK_SIZE: usize = 80;

/// Byte offset of the output width in the uniform block.
pub const WIDTH_OFFSET: usize = 0;

/// Byte offset of the output height in the uniform block.
pub const HEIGHT_OFFSET: usize = 4;

/// Byte offset of the sample count in the uniform block.
pub const FRAME_COUNT_OFFSET: usize = 8;

/// Byte offset of the reserved word in the uniform block.
pub const RESERVED_OFFSET: usize = 12;

/// Byte offset of the camera's origin slot in the uniform block.
pub const CAMERA_ORIGIN_OFFSET: usize = 16;

/// Byte offset of the camera's `u` slot in the uniform block.
pub const CAMERA_U_OFFSET: usize = 32;

/// Byte offset of the camera's `v` slot in the uniform block.
pub const CAMERA_V_OFFSET: usize = 48;

/// Byte offset of the camera's `w` slot in the uniform block.
pub const CAMERA_W_OFFSET: usize = 64;

/// Everything the rendering kernel is told about one frame.
#[derive(Clone, Copy, Debug, PartialEq, Eq)]
pub struct Uniforms {
    /// Output width in pixels.
    pub width: u32,
    /// Output height in pixels.
    pub height: u32,
    /// Samples accumulated for the current camera pose, this frame included.
    pub frame_count: u32,
    /// The camera block.
    pub camera: CameraUniforms,
}

impl Uniforms {
    /// The twenty words of the uniform block: width, height, sample count, a
    /// reserved zero, then the camera block.
    pub open spec fn words(self) -> Seq<u32> {
        seq![self.width, self.height, self.frame_count, 0u32] + self.camera.words()
    }

    /// The block after one more frame was rendered with the given camera:
    /// the sample count, if below `u32::MAX`, is one higher, and the camera
    /// block is replaced.
    pub open spec fn after_frame(self, camera: CameraUniforms) -> Uniforms {
        Uniforms { frame_count: (self.frame_count + 1) as u32, camera, ..self }
    }

    /// The block after the accumulated samples were discarded: the sample
    /// count is zero, everything else is kept.
    pub open spec fn after_reset(self) -> Uniforms {
        Uniforms { frame_count: 0, ..self }
    }

    /// The block after one frame was rendered for each camera of `cameras`,
    /// in order.
    pub open spec fn after_frames(self, cameras: Seq<CameraUniforms>) -> Uniforms
        decreases cameras.len(),
    {
        if cameras.len() == 0 {
            self
        } else {
            self.after_frames(cameras.drop_last()).after_frame(cameras.last())
        }
    }

    /// The uniform block as an array of words.
    pub fn to_words(&self) -> (words: [u32; 20])
        ensures
            words@ == self.words(),
    {
        let c = &self.camera;
        let words: [u32; 20] = [
            self.width,
            self.height,
            self.frame_count,
            0,
            c.origin[0],
            c.origin[1],
            c.origin[2],
            0,
            c.u[0],
            c.u[1],
            c.u[2],
            0,
            c.v[0],
            c.v[1],
            c.v[2],
            0,
            c.w[0],
            c.w[1],
            c.w[2],
            0,
        ];
        assert(words@ =~= self.words());
        words
    }

    /// The uniform block as the bytes to upload: the words of the block in
    /// order, each in the byte order of the machine.
    pub fn to_bytes(&self) -> (bytes: Vec<u8>)
        ensures
            bytes@.len() == UNIFORM_BLOCK_SIZE,
            is_memory_image(bytes@, self.words()),
    {
        let words = self.to_words();
        block_bytes(&words)
    }
}

/// The host-side state of the renderer: the uniform block of the frame
/// rendered last, and with it the number of samples in the accumulation image.
#[derive(Clone, Copy, Debug, PartialEq, Eq)]
pub struct PathTracer {
    uniforms: Uniforms,
}

impl View for PathTracer {
    type V = Uniforms;

    closed spec fn view(&self) -> Uniforms {
        self.uniforms
    }
}

impl PathTracer {
    /// A renderer for an output of the given size, with no samples
    /// accumulated and a zeroed camera block.
    pub fn new(width: u32, height: u32) -> (tracer: Self)
        ensures
            tracer@.width == width,
            tracer@.height == height,
            tracer@.frame_count == 0,
            tracer@.camera.words() == Seq::new(16, |i: int| 0u32),
    {
        PathTracer {
            uniforms: Uniforms { width, height, frame_count: 0, camera: CameraUniforms::zeroed() },
        }
    }

    /// The uniform block of the frame rendered last.
    pub fn uniforms(&self) -> (uniforms: Uniforms)
        ensures
            uniforms == self@,
    {
        self.uniforms
    }

    /// The number of samples accumulated for the current camera pose.
    pub fn frame_count(&self) -> (count: u32)
        ensures
            count == self@.frame_count,
    {
        self.uniforms.frame_count
    }

    /// Discards the accumulated samples.  To be called after every change of
    /// the camera.
    pub fn reset_samples(&mut self)
        ensures
            final(self)@ == old(self)@.after_reset(),
    {
        self.uniforms.frame_count = 0;
    }

    /// Starts one frame: counts it, takes over the camera block, and returns
    /// the uniform block to upload before the kernel runs.  The first frame
    /// after a reset carries the count one.
    pub fn render_frame(&mut self, camera: &CameraUniforms) -> (block: Vec<u8>)
        requires
            old(self)@.frame_count < u32::MAX,
        ensures
            final(self)@ == old(self)@.after_frame(*camera),
            final(self)@.frame_count == old(self)@.frame_count + 1,
            block@.len() == UNIFORM_BLOCK_SIZE,
            is_memory_image(block@, final(self)@.words()),
    {
        self.uniforms.frame_count = self.uniforms.frame_count + 1;
        self.uniforms.camera = *camera;
        self.uniforms.to_bytes()
    }
}

/// Consecutive frames are counted one by one, and nothing but the sample
/// count and the camera block changes: after `n` frames with no reset in
/// between, the count is `n` higher, the output size is the same, and the
/// camera block is that of the last frame.
pub proof fn lemma_frames_are_counted(start: Uniforms, cameras: Seq<CameraUniforms>)
    requires
        start.frame_count + cameras.len() <= u32::MAX,
    ensures
        start.after_frames(cameras).frame_count == start.frame_count + cameras.len(),
        start.after_frames(cameras).width == start.width,
        start.after_frames(cameras).height == start.height,
        cameras.len() > 0 ==> start.after_frames(cameras).camera == cameras.last(),
    decreases cameras.len(),
{
    if cameras.len() > 0 {
        lemma_frames_are_counted(start, cameras.drop_last());
    }
}

/// After a reset the sample count is zero, and `n` frames later it is `n`,
/// whatever it was before the reset.
pub proof fn lemma_count_since_reset(before: Uniforms, cameras: Seq<CameraUniforms>)
    requires
        cameras.len() <= u32::MAX,
    ensures
        before.after_reset().frame_count == 0,
        before.after_reset().after_frames(cameras).frame_count == cameras.len(),
{
    lemma_frames_are_counted(before.after_reset(), cameras);
}

/// The twenty words of the uniform block, one by one.
proof fn lemma_block_words(uniforms: Uniforms)
    ensures
        uniforms.words().len() == 20,
        uniforms.words()[0] == uniforms.width,
        uniforms.words()[1] == uniforms.height,
        uniforms.words()[2] == uniforms.frame_count,
        uniforms.words()[3] == 0,
        forall|k: int| 0 <= k < 3 ==> #[trigger] uniforms.words()[4 + k] == uniforms.camera.origin[k],
        forall|k: int| 0 <= k < 3 ==> #[trigger] uniforms.words()[8 + k] == uniforms.camera.u[k],
        forall|k: int| 0 <= k < 3 ==> #[trigger] uniforms.words()[12 + k] == uniforms.camera.v[k],
        forall|k: int| 0 <= k < 3 ==> #[trigger] uniforms.words()[16 + k] == uniforms.camera.w[k],
        uniforms.words()[7] == 0,
        uniforms.words()[11] == 0,
        uniforms.words()[15] == 0,
        uniforms.words()[19] == 0,
{
}

/// The layout of the uniform block: eighty bytes, with every field read back
/// at its offset by a reader of the byte order the block was written in, and
/// every reserved word zero.
pub proof fn lemma_uniform_block_layout(uniforms: Uniforms, order: ByteOrder)
    ensures
        ({
            let block = words_as_bytes(uniforms.words(), order);
            let camera = uniforms.camera;
            &&& block.len() == UNIFORM_BLOCK_SIZE
            &&& read_word(block, WIDTH_OFFSET as int, order) == uniforms.width
            &&& read_word(block, HEIGHT_OFFSET as int, order) == uniforms.height
            &&& read_word(block, FRAME_COUNT_OFFSET as int, order) == uniforms.frame_count
            &&& read_word(block, RESERVED_OFFSET as int, order) == 0
            &&& forall|k: int|
                0 <= k < 3 ==> #[trigger] read_word(block, CAMERA_ORIGIN_OFFSET + 4 * k, order)
                    == camera.origin[k]
            &&& forall|k: int|
                0 <= k < 3 ==> #[trigger] read_word(block, CAMERA_U_OFFSET + 4 * k, order)
                    == camera.u[k]
            &&& forall|k: int|
                0 <= k < 3 ==> #[trigger] read_word(block, CAMERA_V_OFFSET + 4 * k, order)
                    == camera.v[k]
            &&& forall|k: int|
                0 <= k < 3 ==> #[trigger] read_word(block, CAMERA_W_OFFSET + 4 * k, order)
                    == camera.w[k]
            &&& read_word(block, CAMERA_ORIGIN_OFFSET + 12, order) == 0
            &&& read_word(block, CAMERA_U_OFFSET + 12, order) == 0
            &&& read_word(block, CAMERA_V_OFFSET + 12, order) == 0
            &&& read_word(block, CAMERA_W_OFFSET + 12, order) == 0
        }),
{
    let words = uniforms.words();
    let block = words_as_bytes(words, order);
    lemma_block_words(uniforms);
    lemma_read_word(words, order, 0);
    lemma_read_word(words, order, 1);
    lemma_read_word(words, order, 2);
    lemma_read_word(words, order, 3);
    lemma_read_word(words, order, 7);
    lemma_read_word(words, order, 11);
    lemma_read_word(words, order, 15);
    lemma_read_word(words, order, 19);
    assert forall|k: int| 0 <= k < 3 implies #[trigger] read_word(
        block,
        CAMERA_ORIGIN_OFFSET + 4 * k,
        order,
    ) == uniforms.camera.origin[k] by {
        lemma_read_word(words, order, 4 + k);
    }
    assert forall|k: int| 0 <= k < 3 implies #[trigger] read_word(
        block,
        CAMERA_U_OFFSET + 4 * k,
        order,
    ) == uniforms.camera.u[k] by {
        lemma_read_word(words, order, 8 + k);
    }
    assert forall|k: int| 0 <= k < 3 implies #[trigger] read_word(
        block,
        CAMERA_V_OFFSET + 4 * k,
        order,
    ) == uniforms.camera.v[k] by {
        lemma_read_word(words, order, 12 + k);
    }
    assert forall|k: int| 0 <= k < 3 implies #[trigger] read_word(
        block,
        CAMERA_W_OFFSET + 4 * k,
        order,
    ) == uniforms.camera.w[k] by {
        lemma_read_word(words, order, 16 + k);
    }
}

} // verus!
