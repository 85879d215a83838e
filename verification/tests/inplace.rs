use lz4a::{CodecCall, InplaceBuffer};
use lz4a::{LZ4_CompressInplaceBufferSize, LZ4_DecompressInplaceBufferSize};
use rand::RngCore;

#[test]
fn test_compression() {
    let mut rng = rand::thread_rng();

    for sz in [600_usize, 1024, 6000, 65000, 650000].iter() {
        let cz: usize = LZ4_CompressInplaceBufferSize(*sz);

        let mut data: Vec<u8> = vec![0; *sz];
        rng.fill_bytes(&mut data[..]);

        let orig = InplaceBuffer::for_compression(&data).unwrap();
        assert_eq!(orig.len(), cz);

        let margin = cz - *sz;
        assert_eq!(orig.offset(), margin);
        assert_eq!(orig.len() - margin, *sz);
        assert_eq!(&orig.as_slice()[margin..], &data[..]);
        assert_eq!(orig.data(), &data[..]);

        let call = orig.compress_call();
        assert_eq!(call.source_size, (orig.len() - margin) as i32);
        assert_eq!(call.dest_capacity, orig.len() as i32);
    }

    assert_eq!(1, 1);
}

#[test]
fn compression_buffer_has_a_zeroed_margin_in_front() {
    let data = [1_u8, 2, 3, 4, 5];
    let buffer = InplaceBuffer::for_compression(&data).unwrap();
    assert_eq!(buffer.len(), 65572);
    assert_eq!(buffer.offset(), 65567);
    assert!(buffer.as_slice()[..65567].iter().all(|byte| *byte == 0));
    assert_eq!(&buffer.as_slice()[65567..], &data[..]);
    assert_eq!(buffer.data(), &data[..]);
}

#[test]
fn compression_buffer_for_no_data_is_all_margin() {
    let buffer = InplaceBuffer::for_compression(&[]).unwrap();
    assert_eq!(buffer.len(), 65567);
    assert_eq!(buffer.offset(), 65567);
    assert_eq!(buffer.data().len(), 0);
    assert_eq!(buffer.compress_call(), CodecCall { source_size: 0, dest_capacity: 65567 });
}

#[test]
fn decompression_buffer_is_right_aligned() {
    for sz in [0_usize, 1, 255, 256, 600, 6000, 65000] {
        let compressed: Vec<u8> = (0..sz).map(|i| (i % 251) as u8 + 1).collect();
        let buffer = InplaceBuffer::for_decompression(&compressed).unwrap();
        let size = LZ4_DecompressInplaceBufferSize(sz);
        assert_eq!(buffer.len(), size);
        assert_eq!(buffer.offset(), size - sz);
        assert_eq!(buffer.offset(), sz / 256 + 32);
        assert!(buffer.as_slice()[..size - sz].iter().all(|byte| *byte == 0));
        assert_eq!(buffer.data(), &compressed[..]);
        assert_eq!(
            buffer.decompress_call(),
            CodecCall { source_size: sz as i32, dest_capacity: size as i32 }
        );
    }
}

#[test]
fn decompression_buffer_exact_layout() {
    let compressed = [9_u8; 600];
    let buffer = InplaceBuffer::for_decompression(&compressed).unwrap();
    assert_eq!(buffer.len(), 634);
    assert_eq!(buffer.offset(), 34);
    assert_eq!(buffer.decompress_call(), CodecCall { source_size: 600, dest_capacity: 634 });
}

#[test]
fn parts_are_the_buffer_and_the_start_of_its_data() {
    let data = [42_u8; 100];
    let buffer = InplaceBuffer::for_compression(&data).unwrap();
    let whole = buffer.as_slice().to_vec();
    let (backing, offset) = buffer.into_parts();
    assert_eq!(backing, whole);
    assert_eq!(offset, 65567);
    assert_eq!(backing.len(), 65667);
    assert_eq!(&backing[offset..], &data[..]);
}

#[test]
fn a_buffer_differs_from_its_data() {
    let data = [42_u8; 8];
    let buffer = InplaceBuffer::for_compression(&data).unwrap();
    assert_ne!(buffer.as_slice(), &data[..]);
    assert_ne!(buffer.as_slice().len(), buffer.data().len());
}

#[test]
fn no_compression_buffer_beyond_the_largest_size_hint() {
    let too_long = vec![0_u8; 2147418081];
    assert_eq!(LZ4_CompressInplaceBufferSize(too_long.len()), 2147483648);
    assert!(InplaceBuffer::for_compression(&too_long).is_none());
}

#[test]
fn no_decompression_buffer_beyond_the_largest_size_hint() {
    let too_long = vec![0_u8; 2139127649];
    assert_eq!(LZ4_DecompressInplaceBufferSize(too_long.len() - 1), 2147483647);
    assert_eq!(LZ4_DecompressInplaceBufferSize(too_long.len()), 2147483648);
    assert!(InplaceBuffer::for_decompression(&too_long).is_none());
}
