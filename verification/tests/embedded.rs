use killer::embedded::{embedded_len, next_candidate, LICENSE_SIZE, MIN_TEXT, STRIDE};

fn image_with(text: &[u8], at: usize, total: usize) -> Vec<u8> {
    let mut image = vec![0u8; total];
    image[at..at + text.len()].copy_from_slice(text);
    image
}

#[test]
fn text_ends_at_the_first_zero_byte() {
    assert_eq!(embedded_len(b""), 0);
    assert_eq!(embedded_len(&[0u8; 4096]), 0);
    assert_eq!(embedded_len(b"abc\0def"), 3);
    assert_eq!(embedded_len(b"\0abc"), 0);
    assert_eq!(embedded_len(b"abc"), 3);
    let mut region = [0u8; 4096];
    region[..15].copy_from_slice(b"{\"license\":\"x\"}");
    assert_eq!(embedded_len(&region), 15);
    assert_eq!(embedded_len(&[b'x'; 4096]), 4096);
}

#[test]
fn constants_of_the_search() {
    assert_eq!(LICENSE_SIZE, 4096);
    assert_eq!(STRIDE, 4);
    assert_eq!(MIN_TEXT, 10);
}

#[test]
fn candidate_is_found_at_its_offset() {
    let text = b"{\"license_id\":\"lic_test\"}";
    let image = image_with(text, 128, 10_000);
    assert_eq!(next_candidate(&image, 0), Some((128, text.len())));
    assert_eq!(next_candidate(&image, 128), Some((128, text.len())));
    assert_eq!(next_candidate(&image, 125), Some((128, text.len())));
    assert_eq!(next_candidate(&image, 129), None);
    assert_eq!(next_candidate(&image, 132), None);
}

#[test]
fn candidates_are_found_in_order() {
    let first = b"{\"a\":\"0123456789\"}";
    let second = b"{\"b\":\"abcdefghijklmnop\"}";
    let mut image = image_with(first, 40, 20_000);
    image[8000..8000 + second.len()].copy_from_slice(second);
    assert_eq!(next_candidate(&image, 0), Some((40, first.len())));
    assert_eq!(next_candidate(&image, 44), Some((8000, second.len())));
    assert_eq!(next_candidate(&image, 8004), None);
}

#[test]
fn offsets_off_the_stride_are_passed_over() {
    let text = b"{\"license_id\":\"lic_test\"}";
    for at in [1usize, 2, 3, 129, 130, 131] {
        let image = image_with(text, at, 10_000);
        assert_eq!(next_candidate(&image, 0), None);
    }
}

#[test]
fn short_text_is_no_candidate() {
    let image = image_with(b"{123456789", 16, 10_000);
    assert_eq!(next_candidate(&image, 0), None);
    let image = image_with(b"{1234567890", 16, 10_000);
    assert_eq!(next_candidate(&image, 0), Some((16, 11)));
}

#[test]
fn text_must_open_with_a_brace() {
    let image = image_with(b"[\"license_id\",\"lic_test\"]", 16, 10_000);
    assert_eq!(next_candidate(&image, 0), None);
}

#[test]
fn region_must_end_before_the_image() {
    let text = b"{\"license_id\":\"lic_test\"}";
    let image = image_with(text, 0, 4096);
    assert_eq!(next_candidate(&image, 0), None);
    let image = image_with(text, 0, 4097);
    assert_eq!(next_candidate(&image, 0), Some((0, text.len())));
    let image = image_with(text, 4, 4100);
    assert_eq!(next_candidate(&image, 0), None);
    let image = image_with(text, 4, 4101);
    assert_eq!(next_candidate(&image, 0), Some((4, text.len())));
    assert_eq!(next_candidate(&[], 0), None);
    assert_eq!(next_candidate(&image, 5000), None);
    assert_eq!(next_candidate(&image, usize::MAX), None);
}

#[test]
fn text_that_fills_the_region_is_cut_at_its_end() {
    let image = vec![b'{'; 5000];
    assert_eq!(next_candidate(&image, 0), Some((0, 4096)));
    assert_eq!(next_candidate(&image, 1), Some((4, 4096)));
    assert_eq!(next_candidate(&image, 900), Some((900, 4096)));
    assert_eq!(next_candidate(&image, 897), Some((900, 4096)));
    assert_eq!(next_candidate(&image, 901), None);
    assert_eq!(next_candidate(&image, 904), None);
}
