use einkvnc::processing::{
    streamline_pixel_color, ContrastCurve, PostProcBin, PostProcConfig, SOURCE_BYTES_PER_PIXEL,
};

fn ramp() -> [u8; 256] {
    let mut samples = [0u8; 256];
    for i in 0..256usize {
        samples[i] = (i / 2) as u8;
    }
    samples
}

#[test]
fn table_without_contrast_is_identity_up_to_cutoff() {
    for cutoff in [0u8, 1, 100, 224, 225, 254, 255] {
        let bin = PostProcBin::new(&PostProcConfig { contrast: None, white_cutoff: cutoff });
        for i in 0..=255u8 {
            let expected = if i > cutoff { 255 } else { i };
            assert_eq!(bin.data[i as usize], expected);
        }
    }
}

#[test]
fn table_keeps_gray_point_below_cutoff() {
    for gray in [0u8, 1, 128, 224, 255] {
        for cutoff in [gray, 255] {
            let curve = ContrastCurve { gray_point: Some(gray), samples: ramp() };
            let bin =
                PostProcBin::new(&PostProcConfig { contrast: Some(curve), white_cutoff: cutoff });
            assert_eq!(bin.data[gray as usize], gray);
        }
    }
}

#[test]
fn table_applies_curve_then_cutoff() {
    let curve = ContrastCurve { gray_point: Some(200), samples: ramp() };
    let bin = PostProcBin::new(&PostProcConfig { contrast: Some(curve), white_cutoff: 100 });
    assert_eq!(bin.data[0], 0);
    assert_eq!(bin.data[50], 25);
    assert_eq!(bin.data[201], 100);
    assert_eq!(bin.data[202], 255);
    assert_eq!(bin.data[255], 255);
    // The gray point is above the cutoff here, so it turns white.
    assert_eq!(bin.data[200], 255);
    // A gray point between two intensities anchors nothing.
    let curve = ContrastCurve { gray_point: None, samples: ramp() };
    let bin = PostProcBin::new(&PostProcConfig { contrast: Some(curve), white_cutoff: 255 });
    for i in 0..256usize {
        assert_eq!(bin.data[i], (i / 2) as u8);
    }
}

#[test]
fn single_channel_panel_takes_every_fourth_byte() {
    // Known inaccuracy: the other three bytes of each pixel are dropped, no
    // luminance is computed.
    let bin = PostProcBin::new(&PostProcConfig { contrast: None, white_cutoff: 200 });
    assert_eq!(SOURCE_BYTES_PER_PIXEL, 4);
    let pixels = vec![10, 99, 99, 99, 201, 0, 0, 0, 30, 1, 2, 3];
    assert_eq!(streamline_pixel_color(&pixels, &bin, 1), vec![10, 255, 30]);
    assert_eq!(streamline_pixel_color(&vec![], &bin, 1), Vec::<u8>::new());
    assert_eq!(streamline_pixel_color(&vec![7], &bin, 1), vec![7]);
    assert_eq!(streamline_pixel_color(&vec![7, 8, 9, 10], &bin, 1), vec![7]);
    assert_eq!(streamline_pixel_color(&vec![7, 8, 9, 10, 11], &bin, 1), vec![7, 11]);
}

#[test]
fn colour_panel_takes_every_byte() {
    let bin = PostProcBin::new(&PostProcConfig { contrast: None, white_cutoff: 200 });
    let pixels = vec![10, 201, 30, 200];
    assert_eq!(streamline_pixel_color(&pixels, &bin, 3), vec![10, 255, 30, 200]);
    assert_eq!(streamline_pixel_color(&pixels, &bin, 0), vec![10, 255, 30, 200]);
}
