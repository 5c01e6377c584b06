use learnopengl::texture::RgbaTexture;

fn image_2x3() -> Vec<u8> {
    // three rows of two pixels; every byte names its row
    let mut v = Vec::new();
    for row in 0..3u8 {
        for byte in 0..8u8 {
            v.push(row * 16 + byte);
        }
    }
    v
}

#[test]
fn wrong_sizes_are_refused() {
    assert!(RgbaTexture::from_raw(2, 3, vec![0; 23]).is_none());
    assert!(RgbaTexture::from_raw(2, 3, vec![0; 25]).is_none());
    assert!(RgbaTexture::from_raw(2, 3, vec![]).is_none());
    assert!(RgbaTexture::from_raw(u32::MAX, u32::MAX, vec![0; 4]).is_none());
    assert!(RgbaTexture::from_raw(2, 3, vec![0; 24]).is_some());
    assert!(RgbaTexture::from_raw(0, 5, vec![]).is_some());
}

#[test]
fn flipping_reverses_the_rows() {
    let t = RgbaTexture::from_raw(2, 3, image_2x3()).unwrap();
    let f = t.flip_vertical();
    assert_eq!(f.width(), 2);
    assert_eq!(f.height(), 3);
    let p = f.pixels();
    assert_eq!(&p[0..8], &[32, 33, 34, 35, 36, 37, 38, 39]);
    assert_eq!(&p[8..16], &[16, 17, 18, 19, 20, 21, 22, 23]);
    assert_eq!(&p[16..24], &[0, 1, 2, 3, 4, 5, 6, 7]);
}

#[test]
fn flipping_twice_gives_the_image_back() {
    let t = RgbaTexture::from_raw(2, 3, image_2x3()).unwrap();
    let back = t.flip_vertical().flip_vertical();
    assert_eq!(back.pixels(), &image_2x3());
}

#[test]
fn flipping_one_row_changes_nothing() {
    let data: Vec<u8> = (0..12).collect();
    let t = RgbaTexture::from_raw(3, 1, data.clone()).unwrap();
    assert_eq!(t.flip_vertical().pixels(), &data);
}

#[test]
fn flipping_an_empty_image() {
    let t = RgbaTexture::from_raw(0, 0, vec![]).unwrap();
    let f = t.flip_vertical();
    assert!(f.pixels().is_empty());
}
