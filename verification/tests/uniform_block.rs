use pathtracer::camera::CameraUniforms;
use pathtracer::render::{
    Uniforms, CAMERA_ORIGIN_OFFSET, CAMERA_U_OFFSET, CAMERA_V_OFFSET, CAMERA_W_OFFSET,
    FRAME_COUNT_OFFSET, HEIGHT_OFFSET, RESERVED_OFFSET, UNIFORM_BLOCK_SIZE, WIDTH_OFFSET,
};

fn word_at(block: &[u8], offset: usize) -> u32 {
    u32::from_ne_bytes([block[offset], block[offset + 1], block[offset + 2], block[offset + 3]])
}

fn bits(values: [f32; 3]) -> [u32; 3] {
    [values[0].to_bits(), values[1].to_bits(), values[2].to_bits()]
}

fn sample_camera() -> CameraUniforms {
    CameraUniforms {
        origin: bits([-2.0, 2.0, 1.0]),
        u: bits([0.125, 0.0, 0.25]),
        v: bits([0.5, 0.75, -0.5]),
        w: bits([0.625, -0.625, -0.5]),
    }
}

#[test]
fn zeroed_camera_block_is_all_zero() {
    let camera = CameraUniforms::zeroed();
    assert_eq!(camera.origin, [0, 0, 0]);
    assert_eq!(camera.u, [0, 0, 0]);
    assert_eq!(camera.v, [0, 0, 0]);
    assert_eq!(camera.w, [0, 0, 0]);
}

#[test]
fn full_hd_first_frame_block_is_eighty_bytes_with_fields_at_their_offsets() {
    let uniforms =
        Uniforms { width: 1920, height: 1080, frame_count: 1, camera: CameraUniforms::zeroed() };
    let block = uniforms.to_bytes();
    assert_eq!(block.len(), 80);
    assert_eq!(UNIFORM_BLOCK_SIZE, 80);
    assert_eq!(&block[0..4], &1920u32.to_ne_bytes());
    assert_eq!(&block[4..8], &1080u32.to_ne_bytes());
    assert_eq!(&block[8..12], &1u32.to_ne_bytes());
    assert_eq!(&block[12..16], &[0u8; 4]);
    assert_eq!(&block[16..80], &[0u8; 64]);
}

#[test]
fn offsets_are_those_of_the_layout_table() {
    assert_eq!(WIDTH_OFFSET, 0);
    assert_eq!(HEIGHT_OFFSET, 4);
    assert_eq!(FRAME_COUNT_OFFSET, 8);
    assert_eq!(RESERVED_OFFSET, 12);
    assert_eq!(CAMERA_ORIGIN_OFFSET, 16);
    assert_eq!(CAMERA_U_OFFSET, 32);
    assert_eq!(CAMERA_V_OFFSET, 48);
    assert_eq!(CAMERA_W_OFFSET, 64);
}

#[test]
fn words_are_header_then_four_padded_vectors() {
    let camera = CameraUniforms {
        origin: [11, 12, 13],
        u: [21, 22, 23],
        v: [31, 32, 33],
        w: [41, 42, 43],
    };
    let uniforms = Uniforms { width: 640, height: 480, frame_count: 7, camera };
    assert_eq!(
        uniforms.to_words(),
        [640, 480, 7, 0, 11, 12, 13, 0, 21, 22, 23, 0, 31, 32, 33, 0, 41, 42, 43, 0]
    );
}

#[test]
fn block_holds_every_word_in_machine_byte_order() {
    let uniforms = Uniforms {
        width: 0x0102_0304,
        height: 0xa0b0_c0d0,
        frame_count: u32::MAX,
        camera: sample_camera(),
    };
    let words = uniforms.to_words();
    let block = uniforms.to_bytes();
    assert_eq!(block.len(), 4 * words.len());
    for (i, word) in words.iter().enumerate() {
        assert_eq!(&block[4 * i..4 * i + 4], &word.to_ne_bytes());
    }
    assert_ne!(&block[0..4], &block[4..8]);
}

#[test]
fn camera_vectors_are_read_back_as_the_single_precision_values_put_in() {
    let uniforms = Uniforms { width: 1920, height: 1080, frame_count: 3, camera: sample_camera() };
    let block = uniforms.to_bytes();
    let read = |offset: usize| -> [f32; 3] {
        [
            f32::from_bits(word_at(&block, offset)),
            f32::from_bits(word_at(&block, offset + 4)),
            f32::from_bits(word_at(&block, offset + 8)),
        ]
    };
    assert_eq!(read(CAMERA_ORIGIN_OFFSET), [-2.0, 2.0, 1.0]);
    assert_eq!(read(CAMERA_U_OFFSET), [0.125, 0.0, 0.25]);
    assert_eq!(read(CAMERA_V_OFFSET), [0.5, 0.75, -0.5]);
    assert_eq!(read(CAMERA_W_OFFSET), [0.625, -0.625, -0.5]);
    for slot in [CAMERA_ORIGIN_OFFSET, CAMERA_U_OFFSET, CAMERA_V_OFFSET, CAMERA_W_OFFSET] {
        assert_eq!(word_at(&block, slot + 12), 0);
    }
    assert_eq!(word_at(&block, WIDTH_OFFSET), 1920);
    assert_eq!(word_at(&block, HEIGHT_OFFSET), 1080);
    assert_eq!(word_at(&block, FRAME_COUNT_OFFSET), 3);
    assert_eq!(word_at(&block, RESERVED_OFFSET), 0);
}
