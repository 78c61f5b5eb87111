use flipbook::shaders::{self, herbivore_geometry_pass, herbivores, lighting_pass, predator_geometry_pass, predators, SpirvError, SpirvModule};

// The SPIR-V magic number 0x0723_0203 in little-endian bytes.
const MAGIC: [u8; 4] = [0x03, 0x02, 0x23, 0x07];

fn module_bytes(extra_words: &[u32]) -> Vec<u8> {
    let mut bytes = MAGIC.to_vec();
    for w in extra_words {
        bytes.extend_from_slice(&w.to_le_bytes());
    }
    bytes
}

#[test]
fn spirv_decodes_le_words() {
    let bytes = module_bytes(&[0x0001_0000, 42]);
    let m = SpirvModule::from_bytes(&bytes).unwrap();
    assert_eq!(m.words, vec![0x0723_0203, 0x0001_0000, 42]);
    assert_eq!(m.word_count(), 3);
}

#[test]
fn spirv_rejects_misaligned_stream() {
    let mut bytes = module_bytes(&[]);
    bytes.push(0);
    assert_eq!(
        SpirvModule::from_bytes(&bytes).unwrap_err(),
        SpirvError::NotWordAligned
    );
}

#[test]
fn spirv_rejects_empty_stream() {
    assert_eq!(
        SpirvModule::from_bytes(&[]).unwrap_err(),
        SpirvError::MissingHeader
    );
}

#[test]
fn spirv_rejects_wrong_magic() {
    let bytes = [0x04, 0x02, 0x23, 0x07, 1, 0, 0, 0];
    assert_eq!(
        SpirvModule::from_bytes(&bytes).unwrap_err(),
        SpirvError::WrongMagic
    );
}

#[test]
fn stage_builders_validate_their_bytes() {
    let good = module_bytes(&[7, 8, 9]);
    let builders: [fn(&[u8]) -> Result<SpirvModule, SpirvError>; 13] = [
        herbivores::pre_run,
        herbivores::simulate,
        herbivores::shuffle,
        predators::pre_run,
        predators::simulate,
        predators::shuffle,
        shaders::update_plane,
        herbivore_geometry_pass::vertex_shader,
        herbivore_geometry_pass::fragment_shader,
        predator_geometry_pass::vertex_shader,
        predator_geometry_pass::fragment_shader,
        lighting_pass::vertex_shader,
        lighting_pass::fragment_shader,
    ];
    for build in builders {
        let m = build(&good).unwrap();
        assert_eq!(m.words, vec![0x0723_0203, 7, 8, 9]);
        assert_eq!(build(&good[..3]).unwrap_err(), SpirvError::NotWordAligned);
        assert_eq!(build(&[]).unwrap_err(), SpirvError::MissingHeader);
        assert_eq!(
            build(&[0u8; 8]).unwrap_err(),
            SpirvError::WrongMagic
        );
    }
}
