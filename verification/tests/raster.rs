use printer_service::bitmap::Bitmap;
use printer_service::error::PrintError;
use printer_service::qr::{
    can_render, can_resize, generate_qr, qr_code_command, qr_to_escpos, MAX_QR_VERSION,
    MAX_SYMBOL_SIDE,
};
use printer_service::raster::{fits_header, pack_raster};

const HEADER_200: [u8; 8] = [0x1D, 0x76, 0x30, 0x00, 25, 0, 200, 0];

#[test]
fn bitmap_needs_one_byte_per_pixel() {
    assert!(Bitmap::new(2, 2, vec![0; 4]).is_some());
    assert!(Bitmap::new(2, 2, vec![0; 3]).is_none());
    assert!(Bitmap::new(2, 2, vec![0; 5]).is_none());
    assert!(Bitmap::new(0, 7, Vec::new()).is_some());
    assert!(Bitmap::new(0, 7, vec![1]).is_none());
}

#[test]
fn bitmap_accessors() {
    let b = Bitmap::new(3, 2, vec![10, 20, 30, 40, 50, 60]).unwrap();
    assert_eq!(b.width(), 3);
    assert_eq!(b.height(), 2);
    assert_eq!(b.pixels(), &vec![10, 20, 30, 40, 50, 60]);
    assert_eq!(b.get_pixel(0, 0), 10);
    assert_eq!(b.get_pixel(2, 0), 30);
    assert_eq!(b.get_pixel(0, 1), 40);
    assert_eq!(b.get_pixel(2, 1), 60);
}

#[test]
fn pack_one_full_byte() {
    let b = Bitmap::new(8, 1, vec![0, 255, 0, 255, 255, 0, 0, 0]).unwrap();
    assert_eq!(pack_raster(&b), vec![0x1D, 0x76, 0x30, 0x00, 1, 0, 1, 0, 0b1010_0111]);
}

#[test]
fn threshold_is_128() {
    let b = Bitmap::new(4, 1, vec![127, 128, 0, 255]).unwrap();
    assert_eq!(pack_raster(&b), vec![0x1D, 0x76, 0x30, 0x00, 1, 0, 1, 0, 0b1010_0000]);
}

#[test]
fn unused_bits_of_the_last_byte_are_zero() {
    // Three columns of ink: only the three leading bits may be set.
    let b = Bitmap::new(3, 2, vec![0; 6]).unwrap();
    assert_eq!(pack_raster(&b), vec![0x1D, 0x76, 0x30, 0x00, 1, 0, 2, 0, 0b1110_0000, 0b1110_0000]);
    // Ten columns: the second byte of each row uses two bits.
    let b = Bitmap::new(10, 1, vec![0; 10]).unwrap();
    assert_eq!(pack_raster(&b), vec![0x1D, 0x76, 0x30, 0x00, 2, 0, 1, 0, 0xFF, 0b1100_0000]);
}

#[test]
fn rows_follow_each_other() {
    let b = Bitmap::new(2, 3, vec![0, 255, 255, 0, 255, 255]).unwrap();
    assert_eq!(
        pack_raster(&b),
        vec![0x1D, 0x76, 0x30, 0x00, 1, 0, 3, 0, 0b1000_0000, 0b0100_0000, 0]
    );
}

#[test]
fn header_is_little_endian() {
    // 2056 columns give 257 bytes per row; 258 rows.
    let b = Bitmap::new(2056, 258, vec![255; 2056 * 258]).unwrap();
    let bytes = pack_raster(&b);
    assert_eq!(&bytes[..8], &[0x1D, 0x76, 0x30, 0x00, 0x01, 0x01, 0x02, 0x01]);
    assert_eq!(bytes.len(), 8 + 257 * 258);
    assert!(bytes[8..].iter().all(|b| *b == 0));
}

#[test]
fn header_limits_what_can_be_packed() {
    assert!(fits_header(&Bitmap::new(8 * 0xFFFF, 1, vec![0; 8 * 0xFFFF]).unwrap()));
    assert!(!fits_header(&Bitmap::new(8 * 0xFFFF + 1, 1, vec![0; 8 * 0xFFFF + 1]).unwrap()));
    assert!(fits_header(&Bitmap::new(1, 0xFFFF, vec![0; 0xFFFF]).unwrap()));
    assert!(!fits_header(&Bitmap::new(1, 0x10000, vec![0; 0x10000]).unwrap()));
}

#[test]
fn widest_row_uses_the_whole_length_field() {
    let b = Bitmap::new(8 * 0xFFFF, 1, vec![255; 8 * 0xFFFF]).unwrap();
    let bytes = pack_raster(&b);
    assert_eq!(&bytes[..8], &[0x1D, 0x76, 0x30, 0x00, 0xFF, 0xFF, 0x01, 0x00]);
    assert_eq!(bytes.len(), 8 + 0xFFFF);
}

#[test]
fn ordinary_images_can_be_resized() {
    assert!(can_resize(&Bitmap::new(0, 0, Vec::new()).unwrap()));
    assert!(can_resize(&Bitmap::new(1480, 1, vec![0; 1480]).unwrap()));
    assert!(can_resize(&generate_qr("HELLO").unwrap()));
}

#[test]
fn empty_image_packs_to_a_bare_header() {
    let b = Bitmap::new(0, 0, Vec::new()).unwrap();
    assert_eq!(pack_raster(&b), vec![0x1D, 0x76, 0x30, 0x00, 0, 0, 0, 0]);
}

#[test]
fn any_bitmap_is_printed_as_200_by_200() {
    for (w, h) in [(1u32, 1u32), (2, 2), (3, 7), (200, 200), (232, 232), (640, 10)] {
        let b = Bitmap::new(w, h, vec![0; (w * h) as usize]).unwrap();
        let bytes = qr_to_escpos(b);
        assert_eq!(&bytes[..8], &HEADER_200);
        assert_eq!(bytes.len(), 8 + 25 * 200);
        assert!(bytes[8..].iter().all(|b| *b == 0xFF));
    }
}

#[test]
fn white_bitmap_prints_no_ink() {
    let b = Bitmap::new(5, 5, vec![255; 25]).unwrap();
    let bytes = qr_to_escpos(b);
    assert_eq!(&bytes[..8], &HEADER_200);
    assert!(bytes[8..].iter().all(|b| *b == 0));
}

#[test]
fn resize_keeps_hard_edges() {
    // Left half black, right half white.
    let b = Bitmap::new(2, 1, vec![0, 255]).unwrap();
    let bytes = qr_to_escpos(b);
    for row in 0..200 {
        let data = &bytes[8 + row * 25..8 + (row + 1) * 25];
        // Columns 0..100 are ink: twelve full bytes, then four bits.
        assert!(data[..12].iter().all(|b| *b == 0xFF));
        assert_eq!(data[12], 0xF0);
        assert!(data[13..].iter().all(|b| *b == 0));
    }
}

#[test]
fn resize_maps_quadrants() {
    // Top left and bottom right black.
    let b = Bitmap::new(2, 2, vec![0, 255, 255, 0]).unwrap();
    let bytes = qr_to_escpos(b);
    let top = &bytes[8..8 + 25];
    let bottom = &bytes[8 + 199 * 25..8 + 200 * 25];
    assert_eq!(top[0], 0xFF);
    assert_eq!(top[12], 0xF0);
    assert_eq!(top[24], 0x00);
    assert_eq!(bottom[0], 0x00);
    assert_eq!(bottom[12], 0x0F);
    assert_eq!(bottom[24], 0xFF);
}

#[test]
fn qr_symbol_is_rendered_with_border() {
    // "HELLO" fits the smallest symbol: 21 modules and a border of 4 on each
    // side, at 8 pixels per module.
    let image = generate_qr("HELLO").unwrap();
    assert_eq!(image.width(), 232);
    assert_eq!(image.height(), 232);
    assert_eq!(image.pixels().len(), 232 * 232);
    // The border is white, the corner of the finder pattern is black.
    assert_eq!(image.get_pixel(0, 0), 255);
    assert_eq!(image.get_pixel(31, 31), 255);
    assert_eq!(image.get_pixel(32, 32), 0);
    assert_eq!(image.get_pixel(39, 39), 0);
    // Inside the finder pattern's ring the second module is white.
    assert_eq!(image.get_pixel(40, 40), 255);
    assert!(image.pixels().iter().all(|p| *p == 0 || *p == 255));
}

#[test]
fn qr_of_empty_payload_is_a_symbol() {
    let image = generate_qr("").unwrap();
    assert_eq!(image.width(), 232);
}

#[test]
fn larger_payload_gives_larger_symbol() {
    let small = generate_qr("1").unwrap();
    let large = generate_qr(&"x".repeat(60)).unwrap();
    assert_eq!(small.width(), 232);
    // 60 bytes need the symbol of 33 modules.
    assert_eq!(large.width(), (33 + 8) * 8);
    assert_eq!(large.height(), large.width());
}

#[test]
fn too_long_payload_cannot_be_encoded() {
    assert_eq!(generate_qr(&"a".repeat(3000)).err(), Some(PrintError::EncodingError));
    assert_eq!(qr_code_command(&"a".repeat(3000)), Err(PrintError::EncodingError));
}

#[test]
fn seventy_three_letters_get_the_symbol_of_37_modules() {
    // 73 letters need the symbol of 37 modules.
    let image = generate_qr(&"a".repeat(73)).unwrap();
    assert_eq!(image.width(), (37 + 8) * 8);
    assert_eq!(qr_code_command(&"a".repeat(73)).unwrap().len(), 5008);
}

#[test]
fn largest_printed_symbol_is_version_12() {
    assert_eq!(MAX_QR_VERSION, 12);
    assert_eq!(MAX_SYMBOL_SIDE, (65 + 8) * 8);
    // Version 12 holds 287 bytes, or 691 digits.
    assert!(can_render(&"a".repeat(287)));
    assert_eq!(generate_qr(&"a".repeat(287)).unwrap().width(), 584);
    assert!(can_render(&"7".repeat(691)));
    assert_eq!(generate_qr(&"7".repeat(691)).unwrap().width(), 584);
    // One more needs version 13, which is not printed.
    assert!(!can_render(&"a".repeat(288)));
    assert_eq!(generate_qr(&"a".repeat(288)).err(), Some(PrintError::EncodingError));
    assert_eq!(qr_code_command(&"a".repeat(288)), Err(PrintError::EncodingError));
    assert!(!can_render(&"7".repeat(692)));
    assert_eq!(generate_qr(&"7".repeat(692)).err(), Some(PrintError::EncodingError));
}

#[test]
fn can_render_tells_what_generate_qr_does() {
    assert!(can_render(""));
    assert!(can_render("HELLO"));
    assert!(!can_render(&"a".repeat(3000)));
    for n in [0usize, 1, 14, 15, 100, 286, 287, 288, 289, 1000] {
        let payload = "é".repeat(n / 2) + &"x".repeat(n % 2);
        assert_eq!(can_render(&payload), generate_qr(&payload).is_ok(), "{} bytes", n);
    }
}

#[test]
fn symbol_side_follows_the_version() {
    // Byte capacity of versions 1 to 12 at the default level.
    let capacity = [14usize, 26, 42, 62, 84, 106, 122, 152, 180, 213, 251, 287];
    for (i, bytes) in capacity.iter().enumerate() {
        let version = i as u32 + 1;
        let image = generate_qr(&"a".repeat(*bytes)).unwrap();
        assert_eq!(image.width(), 8 * (4 * version + 25), "version {}", version);
        assert_eq!(image.height(), image.width());
        if version < 12 {
            let next = generate_qr(&"a".repeat(*bytes + 1)).unwrap();
            assert_eq!(next.width(), 8 * (4 * (version + 1) + 25), "version {}", version + 1);
        }
    }
}

#[test]
fn regular_payloads_are_rendered() {
    let mut payloads: Vec<String> = Vec::new();
    for n in [1usize, 17, 72, 150] {
        for unit in ["\0", "U", "a", "3", "<", "\u{7f}", "é", "€", "a1234", "1a", "A1b2", "\0U"] {
            let mut s = unit.repeat(n / unit.len() + 1);
            while s.len() > n {
                s.pop();
            }
            payloads.push(s);
        }
    }
    payloads.push("https://example.com/receipts/0123456789abcdef?till=3".to_string());
    for payload in payloads {
        assert!(can_render(&payload), "{:?}", payload);
        let image = generate_qr(&payload).unwrap();
        assert!(image.width() >= 232 && image.width() <= MAX_SYMBOL_SIDE, "{:?}", payload);
        assert_eq!((image.width() / 8 - 25) % 4, 0);
        assert_eq!(image.width(), image.height());
        assert!(image.pixels().iter().all(|p| *p == 0 || *p == 255));
        assert_eq!(qr_code_command(&payload).unwrap().len(), 5008);
    }
}

#[test]
fn qr_command_is_the_printed_symbol() {
    let direct = qr_to_escpos(generate_qr("HELLO").unwrap());
    let command = qr_code_command("HELLO").unwrap();
    assert_eq!(command, direct);
    assert_eq!(&command[..8], &HEADER_200);
    assert_eq!(command.len(), 5008);
    // The first rows lie in the white border.
    assert!(command[8..8 + 25].iter().all(|b| *b == 0));
    // The finder pattern starts at pixel 32 of 232, that is column 27 of 200:
    // (27 + 0.5) * 1.16 = 31.9 is border, (28 + 0.5) * 1.16 = 33.06 is ink.
    let row = &command[8 + 28 * 25..8 + 29 * 25];
    assert_eq!(row[3], 0b0000_1111);
}
