use audio_output_switcher::icon::{
    choose_entry, read_directory, select_image, IconEntry, IconError, ENTRY_LEN, HEADER_LEN,
    LARGEST_WIDTH,
};

/// A container with one image per width; the image of the entry at position
/// `i` is `i + 1` bytes long, each of which is the stored width.
fn container(stored_widths: &[u8]) -> Vec<u8> {
    let count = stored_widths.len();
    let mut data: Vec<u8> = vec![0, 0, 1, 0];
    data.extend_from_slice(&(count as u16).to_le_bytes());
    let mut offset = (6 + 16 * count) as u32;
    for (i, w) in stored_widths.iter().enumerate() {
        let size = (i + 1) as u32;
        data.extend_from_slice(&[*w, *w, 0, 0, 1, 0, 32, 0]);
        data.extend_from_slice(&size.to_le_bytes());
        data.extend_from_slice(&offset.to_le_bytes());
        offset += size;
    }
    for (i, w) in stored_widths.iter().enumerate() {
        for _ in 0..=i {
            data.push(*w);
        }
    }
    data
}

fn entry(width: u16) -> IconEntry {
    IconEntry { width, size: 0, offset: 0 }
}

fn entries(widths: &[u16]) -> Vec<IconEntry> {
    widths.iter().map(|w| entry(*w)).collect()
}

#[test]
fn an_exact_match_wins() {
    let data = container(&[8, 16, 32, 48, 0]);
    assert_eq!(select_image(&data, 16), Ok(&[16u8, 16][..]));
    assert_eq!(select_image(&data, 8), Ok(&[8u8][..]));
    assert_eq!(select_image(&data, 256), Ok(&[0u8, 0, 0, 0, 0][..]));
    assert_eq!(choose_entry(&entries(&[8, 16, 32, 48, 256]), 16), Some(1));
    assert_eq!(choose_entry(&entries(&[8, 16, 32, 48, 256]), 8), Some(0));
}

#[test]
fn without_an_exact_match_the_narrowest_that_is_wide_enough_wins() {
    let data = container(&[8, 16, 32, 48, 0]);
    assert_eq!(select_image(&data, 20), Ok(&[32u8, 32, 32][..]));
    assert_eq!(select_image(&data, 33), Ok(&[48u8, 48, 48, 48][..]));
    assert_eq!(select_image(&data, 49), Ok(&[0u8, 0, 0, 0, 0][..]));
    assert_eq!(select_image(&data, 1), Ok(&[8u8][..]));
    assert_eq!(select_image(&data, 0), Ok(&[8u8][..]));
    assert_eq!(choose_entry(&entries(&[256, 48, 32, 16, 8]), 20), Some(2));
    assert_eq!(choose_entry(&entries(&[48, 256, 8, 32, 16]), 20), Some(3));
}

#[test]
fn without_an_entry_that_is_wide_enough_the_widest_wins() {
    let data = container(&[8, 16, 32, 48, 0]);
    assert_eq!(select_image(&data, 300), Ok(&[0u8, 0, 0, 0, 0][..]));
    assert_eq!(select_image(&data, 257), Ok(&[0u8, 0, 0, 0, 0][..]));
    assert_eq!(select_image(&data, u32::MAX), Ok(&[0u8, 0, 0, 0, 0][..]));
    let small = container(&[8, 12, 10]);
    assert_eq!(select_image(&small, 16), Ok(&[12u8, 12][..]));
    assert_eq!(choose_entry(&entries(&[8, 12, 10]), 16), Some(1));
}

#[test]
fn a_single_entry_always_wins() {
    for w in [1u8, 16, 255, 0] {
        let data = container(&[w]);
        for target in [0u32, 1, 16, 255, 256, 300] {
            assert_eq!(select_image(&data, target), Ok(&[w][..]));
        }
    }
}

#[test]
fn of_several_exact_matches_the_last_wins() {
    assert_eq!(choose_entry(&entries(&[16, 32, 16, 48, 16, 8]), 16), Some(4));
    let data = container(&[16, 32, 16]);
    assert_eq!(select_image(&data, 16), Ok(&[16u8, 16, 16][..]));
}

#[test]
fn of_several_nearest_entries_the_first_wins() {
    assert_eq!(choose_entry(&entries(&[8, 32, 48, 32, 64]), 20), Some(1));
    assert_eq!(choose_entry(&entries(&[8, 12, 4, 12, 12]), 20), Some(1));
    let data = container(&[32, 32, 8]);
    assert_eq!(select_image(&data, 20), Ok(&[32u8][..]));
}

#[test]
fn choose_entry_of_empty_directory_is_none() {
    let dir: Vec<IconEntry> = Vec::new();
    assert_eq!(choose_entry(&dir, 16), None);
}

#[test]
fn a_stored_width_of_zero_is_the_largest() {
    assert_eq!(LARGEST_WIDTH, 256);
    let data = container(&[0, 255, 1]);
    let dir = read_directory(&data).unwrap();
    assert_eq!(dir.iter().map(|e| e.width).collect::<Vec<u16>>(), vec![256, 255, 1]);
}

#[test]
fn the_directory_is_read_little_endian() {
    let mut data: Vec<u8> = vec![0, 0, 1, 0, 2, 0];
    data.extend_from_slice(&[16, 16, 0, 0, 1, 0, 32, 0, 0x04, 0x03, 0x02, 0x01, 0x0D, 0x0C, 0x0B, 0x0A]);
    data.extend_from_slice(&[0, 0, 0, 0, 1, 0, 32, 0, 0xFF, 0xFF, 0xFF, 0xFF, 0x00, 0x01, 0x00, 0x00]);
    assert_eq!((HEADER_LEN, ENTRY_LEN), (6, 16));
    assert_eq!(
        read_directory(&data),
        Ok(vec![
            IconEntry { width: 16, size: 0x01020304, offset: 0x0A0B0C0D },
            IconEntry { width: 256, size: 0xFFFFFFFF, offset: 0x100 },
        ])
    );
}

#[test]
fn the_count_is_read_little_endian() {
    let mut data: Vec<u8> = vec![0, 0, 1, 0, 0x01, 0x01];
    data.resize(6 + 16 * 257, 7);
    let dir = read_directory(&data).unwrap();
    assert_eq!(dir.len(), 257);
    assert_eq!(dir[256], IconEntry { width: 7, size: 0x07070707, offset: 0x07070707 });
    data.pop();
    assert_eq!(read_directory(&data), Err(IconError::TruncatedDirectory));
}

#[test]
fn a_buffer_shorter_than_the_header_is_refused() {
    for len in 0..6 {
        let data = vec![0u8; len];
        assert_eq!(read_directory(&data), Err(IconError::TruncatedHeader));
        assert_eq!(select_image(&data, 16), Err(IconError::TruncatedHeader));
    }
}

#[test]
fn a_directory_that_is_cut_off_is_refused() {
    let mut data = container(&[16, 32]);
    data.truncate(6 + 16 + 15);
    assert_eq!(read_directory(&data), Err(IconError::TruncatedDirectory));
    assert_eq!(select_image(&data, 16), Err(IconError::TruncatedDirectory));
    assert_eq!(select_image(&[0, 0, 1, 0, 1, 0], 16), Err(IconError::TruncatedDirectory));
}

#[test]
fn a_container_without_entries_has_no_image() {
    let data = container(&[]);
    assert_eq!(read_directory(&data), Ok(Vec::new()));
    assert_eq!(select_image(&data, 16), Err(IconError::Empty));
}

#[test]
fn an_image_outside_the_buffer_is_refused() {
    let mut data = container(&[16, 32]);
    data.pop();
    // The last byte belonged to the image of the second entry.
    assert_eq!(select_image(&data, 32), Err(IconError::ImageOutOfBounds));
    assert_eq!(select_image(&data, 16), Ok(&[16u8][..]));
    let mut far = container(&[16]);
    far[18..22].copy_from_slice(&u32::MAX.to_le_bytes());
    assert_eq!(select_image(&far, 16), Err(IconError::ImageOutOfBounds));
    let mut long = container(&[16]);
    long[14..18].copy_from_slice(&u32::MAX.to_le_bytes());
    assert_eq!(select_image(&long, 16), Err(IconError::ImageOutOfBounds));
}

#[test]
fn an_image_may_end_with_the_buffer_and_may_be_empty() {
    let mut data = container(&[16]);
    assert_eq!(select_image(&data, 16), Ok(&[16u8][..]));
    data[14..18].copy_from_slice(&0u32.to_le_bytes());
    assert_eq!(select_image(&data, 16), Ok(&[][..]));
    let end = data.len() as u32;
    data[18..22].copy_from_slice(&end.to_le_bytes());
    assert_eq!(select_image(&data, 16), Ok(&[][..]));
}
