use wgpu_shell::{slice_to_array, LoweredScene, LOWERED_SCENE_BYTES, UNIFORM_ALIGNMENT};

#[test]
fn check_bytemuck_stuff() {
    let mut lscene = LoweredScene::default();
    lscene.mv[0] = 1.0f32.to_bits();
    lscene.mv[15] = 15.0f32.to_bits();

    println!("lscene: {lscene:?}");
    let bytes = lscene.to_bytes();
    println!("lscene bytes: {:?}", bytes);

    assert_eq!(bytes.len(), LOWERED_SCENE_BYTES);
    assert_eq!(&bytes[0..4], &1.0f32.to_ne_bytes());
    assert_eq!(&bytes[60..64], &15.0f32.to_ne_bytes());
    assert!(bytes[4..60].iter().all(|b| *b == 0));
    assert!(bytes[64..].iter().all(|b| *b == 0));
}

#[test]
fn default_record_packs_to_zero_bytes() {
    let bytes = LoweredScene::default().to_bytes();
    assert_eq!(bytes.len(), 144);
    assert!(bytes.iter().all(|b| *b == 0));
}

#[test]
fn packed_size_is_fixed_and_aligned() {
    let mv: Vec<u32> = (0..16).map(|i| (i as f32 * 0.5).to_bits()).collect();
    let proj: Vec<u32> = (0..16).map(|i| (100.0 - i as f32).to_bits()).collect();
    let a = LoweredScene::from_parts(&mv, &proj, 3.25f32.to_bits());
    let b = LoweredScene::from_parts(&proj, &mv, f32::MAX.to_bits());
    let ba = a.to_bytes();
    let bb = b.to_bytes();
    assert_eq!(ba.len(), bb.len());
    assert_eq!(ba.len() % UNIFORM_ALIGNMENT, 0);
    assert_eq!(ba.len(), LOWERED_SCENE_BYTES);
}

#[test]
fn packed_layout_places_each_field() {
    let mv: Vec<u32> = (1..=16).collect();
    let proj: Vec<u32> = (101..=116).collect();
    let s = LoweredScene::from_parts(&mv, &proj, 2.0f32.to_bits());
    let words = s.to_words();
    assert_eq!(words.len(), 36);
    assert_eq!(&words[0..16], &mv[..]);
    assert_eq!(&words[16..32], &proj[..]);
    assert_eq!(words[32], 2.0f32.to_bits());
    assert_eq!(&words[33..36], &[0, 0, 0]);

    let bytes = s.to_bytes();
    assert_eq!(&bytes[4..8], &2u32.to_ne_bytes());
    assert_eq!(&bytes[64..68], &101u32.to_ne_bytes());
    assert_eq!(&bytes[128..132], &2.0f32.to_ne_bytes());
    assert_eq!(&bytes[132..144], &[0u8; 12]);
}

#[test]
fn slice_to_array_copies_every_value() {
    let v: Vec<u32> = vec![7, 8, 9, 10];
    let a: [u32; 4] = slice_to_array(&v);
    assert_eq!(a, [7, 8, 9, 10]);
}

#[test]
fn packed_bytes_read_back_as_the_record() {
    let mv: Vec<u32> = (0..16).map(|i| (i as f32 - 7.5).to_bits()).collect();
    let proj: Vec<u32> = (0..16).map(|i| (i as f32 * 1.25).to_bits()).collect();
    let s = LoweredScene::from_parts(&mv, &proj, 42.5f32.to_bits());
    let bytes = s.to_bytes();
    let back: Vec<u32> = bytes
        .chunks(4)
        .map(|c| u32::from_ne_bytes([c[0], c[1], c[2], c[3]]))
        .collect();
    assert_eq!(back, s.to_words());
    assert_eq!(&back[0..16], &mv[..]);
    assert_eq!(&back[16..32], &proj[..]);
    assert_eq!(f32::from_bits(back[32]), 42.5);
    assert!(bytes[132..144].iter().all(|b| *b == 0));
}
