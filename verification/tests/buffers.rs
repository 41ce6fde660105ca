use oscuras::binding::BindGroupLayoutEntry;
use oscuras::binding::BindingType;
use oscuras::binding::BufferBindingType;
use oscuras::error::ConstructionError;
use oscuras::gpu_buffer::GPUBuffer;
use oscuras::gpu_buffer::GPUBufferDescription;
use oscuras::usage::BufferUsage;
use oscuras::usage::ShaderStage;
use oscuras::usage::TextureUsage;

fn buffer_of(bits: u32) -> GPUBuffer {
    GPUBuffer::new(GPUBufferDescription {
        contents: None,
        element_count: 4,
        element_size: 16,
        usage: BufferUsage::from_bits(bits),
    })
}

fn compute() -> ShaderStage {
    ShaderStage::from_bits(ShaderStage::COMPUTE)
}

fn entry(binding: u32, visibility: ShaderStage, ty: BufferBindingType) -> BindGroupLayoutEntry {
    BindGroupLayoutEntry {
        binding,
        visibility,
        ty: BindingType::Buffer { ty, has_dynamic_offset: false, min_binding_size: None },
        count: None,
    }
}

#[test]
fn usage_flags_have_the_device_values() {
    assert_eq!(BufferUsage::MAP_READ, 1);
    assert_eq!(BufferUsage::MAP_WRITE, 2);
    assert_eq!(BufferUsage::COPY_SRC, 4);
    assert_eq!(BufferUsage::COPY_DST, 8);
    assert_eq!(BufferUsage::INDEX, 16);
    assert_eq!(BufferUsage::VERTEX, 32);
    assert_eq!(BufferUsage::UNIFORM, 64);
    assert_eq!(BufferUsage::STORAGE, 128);
    assert_eq!(BufferUsage::INDIRECT, 256);
    assert_eq!(ShaderStage::COMPUTE, 4);
    assert_eq!(TextureUsage::SAMPLED | TextureUsage::COPY_DST | TextureUsage::STORAGE, 14);
}

#[test]
fn usage_contains_and_union() {
    let u = BufferUsage::from_bits(BufferUsage::UNIFORM)
        .union(BufferUsage::from_bits(BufferUsage::COPY_DST));
    assert_eq!(u.bits(), 72);
    assert!(u.contains(BufferUsage::UNIFORM));
    assert!(u.contains(BufferUsage::COPY_DST));
    assert!(u.contains(BufferUsage::UNIFORM | BufferUsage::COPY_DST));
    assert!(!u.contains(BufferUsage::STORAGE));
    assert!(!u.contains(BufferUsage::UNIFORM | BufferUsage::STORAGE));
    assert!(TextureUsage::from_bits(14).contains(TextureUsage::STORAGE));
    assert!(!TextureUsage::from_bits(14).contains(TextureUsage::RENDER_ATTACHMENT));
    assert_eq!(TextureUsage::from_bits(14).bits(), 14);
    assert_eq!(compute().bits(), 4);
}

#[test]
fn device_bits_know_one_storage_flag() {
    assert_eq!(BufferUsage::from_bits(BufferUsage::STORAGE_READ_ONLY).device_bits(), 128);
    assert_eq!(BufferUsage::from_bits(BufferUsage::STORAGE).device_bits(), 128);
    assert_eq!(
        BufferUsage::from_bits(BufferUsage::STORAGE_READ_ONLY | BufferUsage::COPY_DST)
            .device_bits(),
        136
    );
    assert_eq!(BufferUsage::from_bits(72).device_bits(), 72);
    assert_eq!(BufferUsage::from_bits(1024 | 32).device_bits(), 32);
    assert_eq!(BufferUsage::from_bits(0).device_bits(), 0);
}

#[test]
fn buffer_size_is_count_times_stride() {
    let b = GPUBuffer::new(GPUBufferDescription {
        contents: None,
        element_count: 1920 * 1080,
        element_size: 32,
        usage: BufferUsage::from_bits(BufferUsage::STORAGE),
    });
    assert_eq!(b.element_count(), 2073600);
    assert_eq!(b.size(), 66355200);
    assert_eq!(b.usage(), BufferUsage::from_bits(128));
    assert!(b.initial_bytes().is_none());
    let empty = GPUBuffer::new(GPUBufferDescription {
        contents: None,
        element_count: 0,
        element_size: 32,
        usage: BufferUsage::from_bits(BufferUsage::STORAGE),
    });
    assert_eq!(empty.size(), 0);
    let big = GPUBuffer::new(GPUBufferDescription {
        contents: None,
        element_count: u32::MAX,
        element_size: 196,
        usage: BufferUsage::from_bits(BufferUsage::STORAGE),
    });
    assert_eq!(big.size(), 4294967295u64 * 196);
}

#[test]
fn buffer_contents_are_the_words_in_memory() {
    let words: Vec<u32> = vec![1, 0x0102_0304, 0xdead_beef];
    let b = GPUBuffer::new(GPUBufferDescription {
        contents: Some(words.clone()),
        element_count: 3,
        element_size: 4,
        usage: BufferUsage::from_bits(BufferUsage::UNIFORM | BufferUsage::COPY_DST),
    });
    let bytes = b.initial_bytes().unwrap();
    assert_eq!(bytes.len(), 12);
    let mut expected: Vec<u8> = Vec::new();
    for w in &words {
        expected.extend_from_slice(&w.to_ne_bytes());
    }
    assert_eq!(bytes, &expected);
    let little: Vec<u8> = words.iter().flat_map(|w| w.to_le_bytes()).collect();
    let big: Vec<u8> = words.iter().flat_map(|w| w.to_be_bytes()).collect();
    assert!(bytes == &little || bytes == &big);
    assert_eq!(b.size(), 12);
}

#[test]
fn writable_storage_is_bound_as_asked() {
    let b = buffer_of(BufferUsage::STORAGE);
    assert_eq!(
        b.as_bgl_entry(1, compute(), false),
        Ok(entry(1, compute(), BufferBindingType::Storage { read_only: false }))
    );
    assert_eq!(
        b.as_bgl_entry(2, compute(), true),
        Ok(entry(2, compute(), BufferBindingType::Storage { read_only: true }))
    );
}

#[test]
fn writable_storage_is_never_a_uniform() {
    for extra in [0, BufferUsage::UNIFORM, BufferUsage::COPY_DST, BufferUsage::VERTEX, 511, 1023] {
        for want in [false, true] {
            let b = buffer_of(BufferUsage::STORAGE | extra);
            assert_eq!(
                b.as_bgl_entry(0, compute(), want),
                Ok(entry(0, compute(), BufferBindingType::Storage { read_only: want }))
            );
        }
    }
}

#[test]
fn read_only_storage_is_bound_read_only() {
    let b = buffer_of(BufferUsage::STORAGE_READ_ONLY);
    for want in [false, true] {
        assert_eq!(
            b.as_bgl_entry(1, compute(), want),
            Ok(entry(1, compute(), BufferBindingType::Storage { read_only: true }))
        );
    }
    let with_uniform = buffer_of(BufferUsage::STORAGE_READ_ONLY | BufferUsage::UNIFORM);
    assert_eq!(
        with_uniform.as_bgl_entry(1, compute(), false),
        Ok(entry(1, compute(), BufferBindingType::Storage { read_only: true }))
    );
}

#[test]
fn uniform_is_bound_as_uniform() {
    let b = buffer_of(BufferUsage::UNIFORM | BufferUsage::COPY_DST);
    let fragment = ShaderStage::from_bits(ShaderStage::FRAGMENT);
    for want in [false, true] {
        assert_eq!(
            b.as_bgl_entry(3, fragment, want),
            Ok(entry(3, fragment, BufferBindingType::Uniform))
        );
    }
}

#[test]
fn vertex_only_usage_has_no_binding() {
    let b = buffer_of(BufferUsage::VERTEX);
    assert_eq!(
        b.as_bgl_entry(0, compute(), true),
        Err(ConstructionError::UnsupportedBindingUsage)
    );
    assert_eq!(
        b.as_bgl_entry(0, compute(), false),
        Err(ConstructionError::UnsupportedBindingUsage)
    );
}

#[test]
fn usage_without_intent_has_no_binding() {
    for bits in [0, 1, 2, 4, 8, 16, 32, 256, 1 | 2 | 4 | 8 | 16 | 32 | 256] {
        assert_eq!(
            buffer_of(bits).as_bgl_entry(7, compute(), true),
            Err(ConstructionError::UnsupportedBindingUsage)
        );
    }
}

#[test]
fn binding_entry_is_the_whole_buffer() {
    let b = buffer_of(BufferUsage::STORAGE);
    let e = b.as_bg_entry(5);
    assert_eq!(e.binding, 5);
    assert_eq!(e.resource.offset, 0);
    assert_eq!(e.resource.size, None);
    assert_eq!(b.contents().offset, 0);
    assert_eq!(b.contents().size, None);
}
