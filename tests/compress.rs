use nanomsg::compress::lz4_compress;

#[test]
fn compressed_block_decompresses_to_input() {
    let input: Vec<u8> = b"hello hello hello hello hello hello".to_vec();
    let block = lz4_compress(&input).unwrap();
    assert_ne!(block, input);
    let back = lz4::block::decompress(&block, Some(input.len() as i32)).unwrap();
    assert_eq!(back, input);
}

#[test]
fn repetitive_input_shrinks() {
    let input = vec![0u8; 10_000];
    let block = lz4_compress(&input).unwrap();
    assert!(block.len() < 200);
    let back = lz4::block::decompress(&block, Some(10_000)).unwrap();
    assert_eq!(back, input);
}

#[test]
fn empty_input_compresses() {
    let block = lz4_compress(&[]).unwrap();
    let back = lz4::block::decompress(&block, Some(0)).unwrap();
    assert!(back.is_empty());
}
