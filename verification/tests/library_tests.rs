use petals::images::{
    decode_file, PairScan, RgbPixels,
    classify_entry, contains_str, pair_ids, EntryError, EntryRoles, ImageID, MissingImage,
    FIRST_IMAGE_MARK, SECOND_IMAGE_MARK,
};
use petals::panes::labeller::{
    handle_mouse, BBox, LabelState, LabelTool, Labels, MouseOutcome, WARP_OUTPUT_SIZE,
};
use petals::panes::overlay::{next_petal, overlay_region, petal_count, white_black_order};
use petals::panes::renderer::{atlas_layout, ATLAS_ROW_LEN};
use petals::panes::{tab_title_for_pane, Pane};
use petals::wgpu::render::combine_uniform_bytes;
use petals::wgpu::{workgroups_for, WORKGROUP_EDGE};

type P = (i32, i32);

fn bbox_state() -> LabelState {
    LabelState::default()
}

#[test]
fn image_id_text_names_directory_and_position() {
    let a = ImageID::new("pair_a".to_string(), true);
    let b = ImageID::new("pair_a".to_string(), false);
    assert_eq!(a.to_string(), "pair_a-0");
    assert_eq!(b.to_string(), "pair_a-1");
    assert_eq!(a.directory(), "pair_a");
    assert!(a.is_first());
    assert!(!b.is_first());
}

#[test]
fn image_id_texts_differ_for_different_images() {
    let a = ImageID::new("x-1".to_string(), true);
    let b = ImageID::new("x".to_string(), false);
    let c = ImageID::new("x-1".to_string(), false);
    assert_ne!(a.to_string(), b.to_string());
    assert_ne!(a.to_string(), c.to_string());
    assert_eq!(b.to_string(), "x-1");
    assert_eq!(a.to_string(), "x-1-0");
}

#[test]
fn image_ids_order_and_equality() {
    let a = ImageID::new("d".to_string(), true);
    let a2 = ImageID::new("d".to_string(), true);
    let b = ImageID::new("d".to_string(), false);
    assert!(a == a2);
    assert!(a != b);
    // Ordered by directory, then by position flag (false before true).
    assert!(b < a);
    assert!(ImageID::new("c".to_string(), true) < b);
}

#[test]
fn contains_str_finds_runs() {
    assert!(contains_str("photos/image0.png", "image0"));
    assert!(!contains_str("photos/image1.png", "image0"));
    assert!(contains_str("abc", ""));
    assert!(contains_str("", ""));
    assert!(!contains_str("", "a"));
    assert!(!contains_str("ima", "image"));
    assert!(contains_str("image", "image"));
    assert!(contains_str("aab", "ab"));
    assert!(contains_str("ünïcödé image1", "image1"));
}

#[test]
fn classify_entry_marks_first_and_second() {
    assert_eq!(
        classify_entry("d/image0.jpg", true),
        Ok(EntryRoles { first: true, second: false })
    );
    assert_eq!(
        classify_entry("d/image1.jpg", true),
        Ok(EntryRoles { first: false, second: true })
    );
    assert_eq!(
        classify_entry("d/image0_image1.jpg", true),
        Ok(EntryRoles { first: true, second: true })
    );
    assert_eq!(
        classify_entry("d/notes.txt", true),
        Ok(EntryRoles { first: false, second: false })
    );
    // The whole path counts, the directory's name included.
    assert_eq!(
        classify_entry("image0s/other.png", true),
        Ok(EntryRoles { first: true, second: false })
    );
    assert_eq!(FIRST_IMAGE_MARK, "image0");
    assert_eq!(SECOND_IMAGE_MARK, "image1");
}

#[test]
fn classify_entry_refuses_non_files() {
    assert_eq!(classify_entry("d/image0.jpg", false), Err(EntryError::NotAFile));
    assert_eq!(classify_entry("d/sub", false), Err(EntryError::NotAFile));
}

#[test]
fn pair_ids_reports_missing_images_in_order() {
    assert!(matches!(pair_ids("d".to_string(), false, false), Err(MissingImage::First)));
    assert!(matches!(pair_ids("d".to_string(), false, true), Err(MissingImage::First)));
    assert!(matches!(pair_ids("d".to_string(), true, false), Err(MissingImage::Second)));
    let ids = pair_ids("d".to_string(), true, true).ok().unwrap();
    assert_eq!(ids[0].to_string(), "d-0");
    assert_eq!(ids[1].to_string(), "d-1");
}

#[test]
fn pane_titles() {
    assert_eq!(tab_title_for_pane(&Pane::Shader), "Shader");
    assert_eq!(tab_title_for_pane(&Pane::Controls), "Controls");
    assert_eq!(tab_title_for_pane(&Pane::Labeller(LabelTool::Corner)), "Label Corner");
    assert_eq!(tab_title_for_pane(&Pane::Labeller(LabelTool::BBox)), "Label BBox");
    assert_eq!(Pane::default(), Pane::Shader);
}

#[test]
fn label_state_defaults() {
    let s = LabelState::default();
    assert_eq!(s.pair_index, 0);
    assert_eq!(s.corner_index, 0);
    assert_eq!(s.bbox_index, 0);
    assert!(!s.bbox_dragging);
    assert!(s.bbox_white_background);
}

#[test]
fn corner_advance_cycles_through_four() {
    let mut s = LabelState::default();
    let mut seen = vec![];
    for _ in 0..4 {
        s.advance(LabelTool::Corner);
        seen.push(s.corner_index);
    }
    assert_eq!(seen, vec![1, 2, 3, 0]);
    s.corner_index = 4;
    s.advance(LabelTool::Corner);
    assert_eq!(s.corner_index, 1);
    assert_eq!(s.bbox_index, 0);
}

#[test]
fn box_advance_counts_up() {
    let mut s = LabelState::default();
    s.advance(LabelTool::BBox);
    s.advance(LabelTool::BBox);
    assert_eq!(s.bbox_index, 2);
    assert_eq!(s.corner_index, 0);
}

#[test]
fn new_labels_are_empty() {
    let l: Labels<P> = Labels::new((0, 0));
    assert_eq!(l.corners, [(0, 0); 4]);
    assert!(l.bounding_boxes.is_empty());
}

#[test]
fn corner_click_moves_current_corner_and_asks_for_warp() {
    let mut s = LabelState::default();
    s.corner_index = 2;
    let mut l: Labels<P> = Labels::new((0, 0));
    let out = handle_mouse(&mut s, &mut l, LabelTool::Corner, true, true, false, true, (5, 7), (0, 0));
    assert_eq!(out, MouseOutcome::Warp);
    assert_eq!(l.corners, [(0, 0), (0, 0), (5, 7), (0, 0)]);
    assert!(l.bounding_boxes.is_empty());
    assert!(!s.bbox_dragging);
    assert!(s.bbox_white_background);
}

#[test]
fn corner_without_click_changes_nothing() {
    let mut s = LabelState::default();
    let mut l: Labels<P> = Labels::new((0, 0));
    let out = handle_mouse(&mut s, &mut l, LabelTool::Corner, false, true, true, false, (5, 7), (0, 0));
    assert_eq!(out, MouseOutcome::Idle);
    assert_eq!(l.corners, [(0, 0); 4]);
}

#[test]
fn box_press_drag_release() {
    let mut s = bbox_state();
    s.bbox_index = 2;
    let mut l: Labels<P> = Labels::new((0, 0));
    // Press with shift held: white background, box starts at the point, list padded.
    let out = handle_mouse(&mut s, &mut l, LabelTool::BBox, false, true, false, true, (10, 20), (0, 0));
    assert_eq!(out, MouseOutcome::Idle);
    assert!(s.bbox_dragging);
    assert!(s.bbox_white_background);
    assert_eq!(l.bounding_boxes.len(), 3);
    for i in 0..2 {
        assert!(!l.bounding_boxes[i].0);
        assert_eq!((l.bounding_boxes[i].1.min, l.bounding_boxes[i].1.max), ((0, 0), (0, 0)));
    }
    assert!(l.bounding_boxes[2].0);
    assert_eq!((l.bounding_boxes[2].1.min, l.bounding_boxes[2].1.max), ((10, 20), (10, 20)));
    // Drag: far corner follows the pointer.
    let out = handle_mouse(&mut s, &mut l, LabelTool::BBox, false, false, false, false, (30, 25), (0, 0));
    assert_eq!(out, MouseOutcome::Idle);
    assert!(s.bbox_dragging);
    assert!(s.bbox_white_background);
    assert_eq!((l.bounding_boxes[2].1.min, l.bounding_boxes[2].1.max), ((10, 20), (30, 25)));
    // Release.
    let out = handle_mouse(&mut s, &mut l, LabelTool::BBox, false, false, true, false, (31, 26), (0, 0));
    assert_eq!(out, MouseOutcome::BoxReleased(2));
    assert!(!s.bbox_dragging);
    assert_eq!((l.bounding_boxes[2].1.min, l.bounding_boxes[2].1.max), ((10, 20), (31, 26)));
    assert_eq!(l.corners, [(0, 0); 4]);
}

#[test]
fn box_press_over_existing_box_restarts_it() {
    let mut s = bbox_state();
    let mut l: Labels<P> = Labels::new((0, 0));
    l.bounding_boxes.push((true, BBox { min: (1, 1), max: (2, 2) }));
    l.bounding_boxes.push((true, BBox { min: (3, 3), max: (4, 4) }));
    let out = handle_mouse(&mut s, &mut l, LabelTool::BBox, false, true, true, false, (9, 9), (0, 0));
    assert_eq!(out, MouseOutcome::BoxReleased(0));
    assert!(!s.bbox_dragging);
    assert!(!s.bbox_white_background);
    assert_eq!(l.bounding_boxes.len(), 2);
    assert!(!l.bounding_boxes[0].0);
    assert_eq!((l.bounding_boxes[0].1.min, l.bounding_boxes[0].1.max), ((9, 9), (9, 9)));
    assert!(l.bounding_boxes[1].0);
    assert_eq!((l.bounding_boxes[1].1.min, l.bounding_boxes[1].1.max), ((3, 3), (4, 4)));
}

#[test]
fn box_tool_idle_without_press_or_drag() {
    let mut s = bbox_state();
    let mut l: Labels<P> = Labels::new((0, 0));
    let out = handle_mouse(&mut s, &mut l, LabelTool::BBox, true, false, true, true, (9, 9), (0, 0));
    assert_eq!(out, MouseOutcome::Idle);
    assert!(l.bounding_boxes.is_empty());
    assert!(s.bbox_white_background);
}

#[test]
fn white_background_indices_lists_white_boxes() {
    let mut l: Labels<P> = Labels::new((0, 0));
    let b = BBox { min: (0, 0), max: (1, 1) };
    l.bounding_boxes = vec![(true, b), (false, b), (true, b), (false, b)];
    assert_eq!(l.white_background_indices(), vec![0, 2]);
    l.bounding_boxes.clear();
    assert!(l.white_background_indices().is_empty());
}

#[test]
fn petal_count_is_fewest_labelled_boxes() {
    assert_eq!(petal_count(&[]), 0);
    assert_eq!(petal_count(&[None, None]), 0);
    assert_eq!(petal_count(&[Some(3), None]), 3);
    assert_eq!(petal_count(&[Some(3), Some(2)]), 2);
    assert_eq!(petal_count(&[Some(0), Some(5)]), 0);
}

#[test]
fn next_petal_cycles() {
    let mut i = 0;
    let mut seen = vec![];
    for _ in 0..3 {
        i = next_petal(i, 3);
        seen.push(i);
    }
    assert_eq!(seen, vec![1, 2, 0]);
    assert_eq!(next_petal(0, 1), 0);
}

#[test]
fn white_image_goes_underneath() {
    assert_eq!(white_black_order(true), (0, 1));
    assert_eq!(white_black_order(false), (1, 0));
}

#[test]
fn overlay_region_offset_and_size() {
    assert_eq!(overlay_region((3, 4), (10, 20)), ((3, 4), (7, 16)));
    assert_eq!(overlay_region((5, 5), (5, 5)), ((5, 5), (0, 0)));
}

#[test]
fn atlas_layout_rows_of_ten() {
    assert_eq!(ATLAS_ROW_LEN, 10);
    let empty = atlas_layout(0, (4, 3));
    assert_eq!(empty.size, (40, 0));
    assert!(empty.offsets.is_empty());

    let one = atlas_layout(1, (4, 3));
    assert_eq!(one.size, (40, 3));
    assert_eq!(one.offsets, vec![(0, 0)]);

    let ten = atlas_layout(10, (4, 3));
    assert_eq!(ten.size, (40, 3));
    assert_eq!(ten.offsets[9], (36, 0));

    let l = atlas_layout(23, (4, 3));
    assert_eq!(l.size, (40, 9));
    assert_eq!(l.offsets.len(), 23);
    assert_eq!(l.offsets[10], (0, 3));
    assert_eq!(l.offsets[22], (8, 6));
    for (j, a) in l.offsets.iter().enumerate() {
        assert!(a.0 + 4 <= l.size.0 && a.1 + 3 <= l.size.1);
        for (k, b) in l.offsets.iter().enumerate() {
            if j != k {
                assert!(a.0 + 4 <= b.0 || b.0 + 4 <= a.0 || a.1 + 3 <= b.1 || b.1 + 3 <= a.1);
            }
        }
    }
}

#[test]
fn workgroups_cover_target() {
    assert_eq!(WORKGROUP_EDGE, 16);
    assert_eq!(workgroups_for(0, 0), (1, 1, 1));
    assert_eq!(workgroups_for(15, 16), (1, 2, 1));
    assert_eq!(workgroups_for(680, 880), (43, 56, 1));
}

#[test]
fn warp_output_is_a_page() {
    assert_eq!(WARP_OUTPUT_SIZE, (680, 880));
}

#[test]
fn combine_uniforms_pad_offset_to_four_words() {
    let b = combine_uniform_bytes((0x0102_0304, 7));
    assert_eq!(b.len(), 16);
    let mut expected = vec![];
    for w in [0x0102_0304u32, 7, 0, 0] {
        expected.extend_from_slice(&w.to_ne_bytes());
    }
    assert_eq!(b, expected);
}

fn png_bytes(width: u32, height: u32, data: Vec<u8>) -> Vec<u8> {
    let img = image::RgbImage::from_raw(width, height, data).unwrap();
    let mut buf = std::io::Cursor::new(Vec::new());
    img.write_to(&mut buf, image::ImageFormat::Png).unwrap();
    buf.into_inner()
}

fn pixels(width: u32, height: u32, data: Vec<u8>) -> RgbPixels {
    RgbPixels { width, height, data }
}

#[test]
fn pair_scan_decodes_marked_files() {
    let bytes0 = png_bytes(2, 1, vec![1, 2, 3, 4, 5, 6]);
    let bytes1 = png_bytes(1, 1, vec![9, 8, 7]);
    let mut scan = PairScan::new();
    let roles0 = classify_entry("d/image0.png", true).unwrap();
    let roles1 = classify_entry("d/image1.png", true).unwrap();
    assert!(scan.accept("d/image0.png", roles0, &bytes0).is_ok());
    assert!(scan.accept("d/image1.png", roles1, &bytes1).is_ok());
    let (ids, a, b) = scan.finish("d".to_string()).ok().unwrap();
    assert_eq!(ids[0].to_string(), "d-0");
    assert_eq!(ids[1].to_string(), "d-1");
    assert_eq!((a.width, a.height, a.data), (2, 1, vec![1, 2, 3, 4, 5, 6]));
    assert_eq!((b.width, b.height, b.data), (1, 1, vec![9, 8, 7]));
}

#[test]
fn pair_scan_file_with_both_marks_is_both_images() {
    let bytes = png_bytes(1, 1, vec![4, 5, 6]);
    let mut scan = PairScan::new();
    let roles = classify_entry("d/image0image1.png", true).unwrap();
    assert!(scan.accept("d/image0image1.png", roles, &bytes).is_ok());
    let (_, a, b) = scan.finish("d".to_string()).ok().unwrap();
    assert_eq!(a.data, vec![4, 5, 6]);
    assert_eq!(b.data, vec![4, 5, 6]);
}

#[test]
fn pair_scan_later_file_wins() {
    let mut scan = PairScan::new();
    let first = EntryRoles { first: true, second: false };
    let second = EntryRoles { first: false, second: true };
    assert!(scan.record(first, Ok(pixels(1, 1, vec![1, 1, 1]))).is_ok());
    assert!(scan.record(first, Ok(pixels(1, 1, vec![2, 2, 2]))).is_ok());
    assert!(scan.record(second, Ok(pixels(1, 1, vec![3, 3, 3]))).is_ok());
    let (_, a, b) = scan.finish("d".to_string()).ok().unwrap();
    assert_eq!(a.data, vec![2, 2, 2]);
    assert_eq!(b.data, vec![3, 3, 3]);
}

#[test]
fn pair_scan_decoding_error_leaves_scan_unchanged() {
    let mut scan = PairScan::new();
    let first = EntryRoles { first: true, second: false };
    let neither = EntryRoles { first: false, second: false };
    assert!(scan.record(first, Ok(pixels(1, 1, vec![1, 1, 1]))).is_ok());
    assert_eq!(scan.record(first, Err("bad".to_string())), Err("bad".to_string()));
    assert_eq!(scan.record(neither, Err("ignored".to_string())), Ok(()));
    assert!(scan.record(EntryRoles { first: false, second: true }, Ok(pixels(1, 1, vec![7, 7, 7]))).is_ok());
    let (_, a, _) = scan.finish("d".to_string()).ok().unwrap();
    assert_eq!(a.data, vec![1, 1, 1]);
}

#[test]
fn pair_scan_rejects_undecodable_files() {
    let mut scan = PairScan::new();
    let roles = classify_entry("d/image0.png", true).unwrap();
    assert!(scan.accept("d/image0.png", roles, &[1, 2, 3]).is_err());
    // An extension that names no image format cannot be decoded either.
    let bytes = png_bytes(1, 1, vec![1, 2, 3]);
    let roles = classify_entry("d/image0.notimage", true).unwrap();
    assert!(scan.accept("d/image0.notimage", roles, &bytes).is_err());
    assert!(matches!(scan.finish("d".to_string()), Err(MissingImage::First)));
}

#[test]
fn pair_scan_reports_missing_images() {
    assert!(matches!(PairScan::new().finish("d".to_string()), Err(MissingImage::First)));
    let mut scan = PairScan::new();
    assert!(scan.record(EntryRoles { first: true, second: false }, Ok(pixels(1, 1, vec![0, 0, 0]))).is_ok());
    assert!(matches!(scan.finish("d".to_string()), Err(MissingImage::Second)));
    let mut scan = PairScan::new();
    assert!(scan.record(EntryRoles { first: false, second: true }, Ok(pixels(1, 1, vec![0, 0, 0]))).is_ok());
    assert!(matches!(scan.finish("d".to_string()), Err(MissingImage::First)));
}

#[test]
fn decode_file_uses_the_extension() {
    let bytes = png_bytes(1, 2, vec![1, 2, 3, 4, 5, 6]);
    let ok = decode_file("d/image0.png", &bytes).ok().unwrap();
    assert_eq!((ok.width, ok.height, ok.data), (1, 2, vec![1, 2, 3, 4, 5, 6]));
    // Upper-case extensions name the same format.
    assert!(decode_file("d/image0.PNG", &bytes).is_ok());
}

#[test]
fn decode_file_empty_extension_names_no_format() {
    let bytes = png_bytes(1, 1, vec![1, 2, 3]);
    let expected = image::ImageReader::new(std::io::Cursor::new(&bytes))
        .decode()
        .err()
        .unwrap()
        .to_string();
    assert_eq!(decode_file("d/image0.", &bytes).err(), Some(expected.clone()));
    // A path without any extension reports the same.
    assert_eq!(decode_file("d/image0", &bytes).err(), Some(expected));
}

#[test]
fn decode_file_unknown_extension_is_reported() {
    let bytes = png_bytes(1, 1, vec![1, 2, 3]);
    let expected = image::ImageFormat::from_path("d/image0.xyz").err().unwrap().to_string();
    assert_eq!(decode_file("d/image0.xyz", &bytes).err(), Some(expected));
}

#[test]
fn decode_file_empty_extension_message() {
    assert_eq!(
        decode_file("d/image1.", &[1, 2, 3]).err(),
        Some("The image format could not be determined".to_string())
    );
}
