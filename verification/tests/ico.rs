use cap_ime_switch::ico::ico_largest_image;

/// "C" glyph, 5x7 dots.
const C_GLYPH: [&[u8; 5]; 7] = [
    b" ### ",
    b"#    ",
    b"#    ",
    b"#    ",
    b"#    ",
    b"#    ",
    b" ### ",
];

/// The application icon (16/32/48) as the program draws it.
fn build_ico(sizes: &[u32]) -> Vec<u8> {
    let images: Vec<Vec<u8>> = sizes.iter().map(|s| build_image(*s)).collect();
    let mut out = Vec::new();
    out.extend_from_slice(&[0, 0, 1, 0, sizes.len() as u8, 0]);
    let mut offset: u32 = 6 + 16 * sizes.len() as u32;
    for (i, img) in images.iter().enumerate() {
        let s = sizes[i];
        out.push(s as u8);
        out.push(s as u8);
        out.extend_from_slice(&[0, 0]);
        out.extend_from_slice(&1u16.to_le_bytes());
        out.extend_from_slice(&32u16.to_le_bytes());
        out.extend_from_slice(&(img.len() as u32).to_le_bytes());
        out.extend_from_slice(&offset.to_le_bytes());
        offset += img.len() as u32;
    }
    for img in images {
        out.extend_from_slice(&img);
    }
    out
}

fn build_image(size: u32) -> Vec<u8> {
    let xor_len = (size * size * 4) as usize;
    let and_row = (size.div_ceil(32) * 4) as usize;
    let and_len = and_row * size as usize;
    let mut out = Vec::with_capacity(40 + xor_len + and_len);
    out.extend_from_slice(&40u32.to_le_bytes());
    out.extend_from_slice(&size.to_le_bytes());
    out.extend_from_slice(&(size * 2).to_le_bytes());
    out.extend_from_slice(&1u16.to_le_bytes());
    out.extend_from_slice(&32u16.to_le_bytes());
    out.extend_from_slice(&0u32.to_le_bytes());
    out.extend_from_slice(&((xor_len + and_len) as u32).to_le_bytes());
    out.extend_from_slice(&[0u8; 16]);
    let glyph_scale = ((size as f32 * 0.72 / 7.0).round() as u32).max(1);
    let glyph_w = 5 * glyph_scale;
    let glyph_h = 7 * glyph_scale;
    let gx = (size.saturating_sub(glyph_w)) / 2;
    let gy = (size.saturating_sub(glyph_h)) / 2;
    for row in 0..size {
        let y = size - 1 - row;
        for x in 0..size {
            out.extend_from_slice(&pixel(x, y, size, gx, gy, glyph_scale));
        }
    }
    out.extend(std::iter::repeat_n(0u8, and_len));
    out
}

fn pixel(x: u32, y: u32, size: u32, gx: u32, gy: u32, scale: u32) -> [u8; 4] {
    let s = size as f32;
    let (fx, fy) = (x as f32 + 0.5, y as f32 + 0.5);
    let r = s * 0.18;
    let cx = fx.clamp(r, s - r);
    let cy = fy.clamp(r, s - r);
    let (dx, dy) = (fx - cx, fy - cy);
    if dx * dx + dy * dy > r * r {
        return [0, 0, 0, 0];
    }
    let t = fy / s;
    let r_ch = lerp(0x2D, 0x0F, t);
    let g_ch = lerp(0x9E, 0x63, t);
    let b_ch = lerp(0xFF, 0xE5, t);
    if x >= gx && x < gx + 5 * scale && y >= gy && y < gy + 7 * scale {
        let glyph_x = ((x - gx) / scale) as usize;
        let glyph_y = ((y - gy) / scale) as usize;
        if C_GLYPH[glyph_y][glyph_x] == b'#' {
            return [255, 255, 255, 255];
        }
    }
    if size >= 24 {
        let bar_y = (s * 0.84) as u32;
        let bar_h = (s * 0.045).max(1.5) as u32;
        let bar_x0 = (s * 0.28) as u32;
        let bar_x1 = (s * 0.72) as u32;
        if y >= bar_y && y < bar_y + bar_h && x >= bar_x0 && x <= bar_x1 {
            return [235, 235, 235, 255];
        }
    }
    [b_ch, g_ch, r_ch, 255]
}

fn lerp(a: u8, b: u8, t: f32) -> u8 {
    (a as f32 + (b as f32 - a as f32) * t).round() as u8
}

#[test]
fn ico_parses_largest_image() {
    // the application icon: 3 entries, 16/32/48 (largest 48x48: offset=5446, len=9640)
    let app_icon = build_ico(&[16, 32, 48]);
    let (off, len) = ico_largest_image(&app_icon).expect("the icon parses");
    assert_eq!(off, 5446);
    assert_eq!(len, 9640);
    assert!(off + len as usize <= app_icon.len());
}

#[test]
fn ico_picks_largest_entry() {
    // in-memory ICO: 16x16 first, 32x32 second
    let mut ico = Vec::new();
    ico.extend_from_slice(&[0, 0, 1, 0, 2, 0]);
    let mut body_offsets = Vec::new();
    for &(w, body_len) in &[(16u32, 100usize), (32, 200)] {
        let entry = 6 + 16 * body_offsets.len();
        ico.push(w as u8);
        ico.push(w as u8);
        ico.extend_from_slice(&[0, 0]);
        ico.extend_from_slice(&1u16.to_le_bytes());
        ico.extend_from_slice(&32u16.to_le_bytes());
        ico.extend_from_slice(&(body_len as u32).to_le_bytes());
        ico.extend_from_slice(&((22 + entry) as u32).to_le_bytes());
        body_offsets.push(22 + entry);
    }
    ico.extend(std::iter::repeat_n(0u8, body_offsets[1] + 200));
    let (off, len) = ico_largest_image(&ico).expect("parses");
    assert_eq!(off, body_offsets[1], "the 32x32 image is chosen");
    assert_eq!(len, 200);
}

fn entry(w: u8, h: u8, len: u32, off: u32) -> Vec<u8> {
    let mut e = vec![w, h, 0, 0, 1, 0, 32, 0];
    e.extend_from_slice(&len.to_le_bytes());
    e.extend_from_slice(&off.to_le_bytes());
    e
}

#[test]
fn ico_edge_cases() {
    assert_eq!(ico_largest_image(&[0, 0, 1, 0, 1]), None, "too short");
    assert_eq!(ico_largest_image(&[0, 0, 1, 0, 0, 0]), None, "no image");
    // width byte 0 means 256 and wins
    let mut ico = vec![0, 0, 1, 0, 2, 0];
    ico.extend(entry(48, 48, 4, 38));
    ico.extend(entry(0, 0, 4, 42));
    ico.extend(vec![0u8; 8]);
    assert_eq!(ico_largest_image(&ico), Some((42, 4)));
    // an image reaching past the end is skipped
    let mut ico = vec![0, 0, 1, 0, 2, 0];
    ico.extend(entry(16, 16, 4, 38));
    ico.extend(entry(32, 32, 100, 38));
    ico.extend(vec![0u8; 4]);
    assert_eq!(ico_largest_image(&ico), Some((38, 4)));
    // ties keep the first; the larger of width and height counts
    let mut ico = vec![0, 0, 1, 0, 3, 0];
    ico.extend(entry(16, 32, 1, 54));
    ico.extend(entry(32, 16, 1, 55));
    ico.extend(entry(24, 24, 1, 56));
    ico.extend(vec![0u8; 3]);
    assert_eq!(ico_largest_image(&ico), Some((54, 1)));
    // a count larger than the directory stops at the end of the data
    let mut ico = vec![0, 0, 1, 0, 9, 0];
    ico.extend(entry(16, 16, 2, 22));
    ico.extend(vec![0u8; 2]);
    assert_eq!(ico_largest_image(&ico), Some((22, 2)));
}
