use sync_demos::control::RunControl;
use sync_demos::screenshot::{
    encode, flatten, saved_line, KeyEffects, Pixel, ScreenshotError, ScreenshotState,
};

fn pixel(n: u8) -> Pixel {
    Pixel { r: n, g: n + 1, b: n + 2, a: n + 3 }
}

#[test]
fn pixels_are_laid_out_in_fours() {
    assert_eq!(flatten(&vec![pixel(1), pixel(10)]), vec![1, 2, 3, 4, 10, 11, 12, 13]);
    assert_eq!(flatten(&Vec::new()), Vec::<u8>::new());
}

#[test]
fn files_are_png_and_read_back() {
    let pixels = vec![pixel(0), pixel(20), pixel(40), pixel(60), pixel(80), pixel(100)];
    let file = match encode(3, 2, &pixels) {
        Ok(file) => file,
        Err(_) => panic!("a full image is encoded"),
    };
    assert_eq!(&file[..8], &[137, 80, 78, 71, 13, 10, 26, 10]);
    let decoder = png::Decoder::new(&file[..]);
    let mut reader = decoder.read_info().unwrap();
    assert_eq!((reader.info().width, reader.info().height), (3, 2));
    assert_eq!(reader.info().color_type, png::ColorType::Rgba);
    assert_eq!(reader.info().bit_depth, png::BitDepth::Eight);
    let mut samples = vec![0; reader.output_buffer_size()];
    let frame = reader.next_frame(&mut samples).unwrap();
    assert_eq!(&samples[..frame.buffer_size()], &flatten(&pixels)[..]);
}

#[test]
fn the_file_is_the_encoders_own() {
    let pixels = vec![pixel(7); 12];
    let mut expected: Vec<u8> = Vec::new();
    {
        let mut encoder = png::Encoder::new(&mut expected, 4, 3);
        encoder.set_color(png::ColorType::Rgba);
        encoder.set_depth(png::BitDepth::Eight);
        let mut writer = encoder.write_header().unwrap();
        writer.write_image_data(&flatten(&pixels)).unwrap();
    }
    assert_eq!(encode(4, 3, &pixels).unwrap(), expected);
}

#[test]
fn same_images_give_same_files() {
    let pixels = vec![pixel(7); 4];
    assert_eq!(encode(2, 2, &pixels).unwrap(), encode(2, 2, &pixels).unwrap());
    assert_ne!(encode(2, 2, &pixels).unwrap(), encode(4, 1, &pixels).unwrap());
}

#[test]
fn images_without_extent_have_no_header() {
    assert!(matches!(encode(0, 2, &Vec::new()), Err(ScreenshotError::Header(_))));
    assert!(matches!(encode(2, 0, &Vec::new()), Err(ScreenshotError::Header(_))));
    assert!(matches!(encode(0, 0, &vec![pixel(1)]), Err(ScreenshotError::Header(_))));
}

#[test]
fn images_must_be_filled() {
    assert!(matches!(encode(2, 2, &vec![pixel(1); 3]), Err(ScreenshotError::Write(_))));
    assert!(matches!(encode(2, 2, &vec![pixel(1); 5]), Err(ScreenshotError::Write(_))));
    assert!(matches!(encode(2, 2, &Vec::new()), Err(ScreenshotError::Write(_))));
}

#[test]
fn files_are_numbered() {
    let mut control = RunControl::new(false);
    let mut shots = ScreenshotState::new();
    assert_eq!(shots.image_arrived("reader_writer"), None);
    for expected in ["reader_writer01.png", "reader_writer02.png"] {
        let effects = shots.keys(false, true, &mut control);
        assert_eq!(effects, KeyEffects { request_image: true, wake: false });
        assert!(control.is_paused());
        assert_eq!(shots.image_arrived("reader_writer"), Some(expected.to_string()));
        assert_eq!(shots.image_arrived("reader_writer"), None);
    }
    assert_eq!(shots.counter, 2);
    assert_eq!(saved_line("reader_writer01.png"), "Screenshot saved: reader_writer01.png");
}

#[test]
fn numbers_grow_past_two_digits() {
    let mut shots = ScreenshotState { counter: 100, taken: 99 };
    assert_eq!(shots.image_arrived("dining_philosophers"),
        Some("dining_philosophers100.png".to_string()));
}

#[test]
fn the_space_bar_resumes_after_a_screenshot() {
    let mut control = RunControl::new(false);
    let mut shots = ScreenshotState::new();
    shots.keys(false, true, &mut control);
    assert!(control.is_paused());
    let effects = shots.keys(true, false, &mut control);
    assert_eq!(effects, KeyEffects { request_image: false, wake: true });
    assert!(!control.is_paused());
    assert_eq!((shots.counter, shots.taken), (1, 0));
}

#[test]
fn both_keys_in_one_frame_cancel_out() {
    let mut control = RunControl::new(false);
    let mut shots = ScreenshotState::new();
    let effects = shots.keys(true, true, &mut control);
    assert_eq!(effects, KeyEffects { request_image: true, wake: true });
    assert!(!control.is_paused());
}

#[test]
fn the_space_bar_steps_in_step_mode() {
    let mut control = RunControl::new(true);
    let mut shots = ScreenshotState::new();
    let effects = shots.keys(true, false, &mut control);
    assert_eq!(effects, KeyEffects { request_image: false, wake: true });
    assert_eq!(control.step_epoch, 1);
    assert_eq!(shots.keys(false, false, &mut control),
        KeyEffects { request_image: false, wake: false });
}

#[test]
fn every_press_gets_its_file() {
    let mut control = RunControl::new(false);
    let mut shots = ScreenshotState::new();
    shots.keys(false, true, &mut control);
    shots.keys(false, false, &mut control);
    shots.keys(false, true, &mut control);
    assert_eq!(shots.counter, 2);
    assert_eq!(shots.image_arrived("reader_writer"), Some("reader_writer01.png".to_string()));
    shots.keys(false, true, &mut control);
    assert_eq!(shots.image_arrived("reader_writer"), Some("reader_writer02.png".to_string()));
    assert_eq!(shots.image_arrived("reader_writer"), Some("reader_writer03.png".to_string()));
    assert_eq!(shots.image_arrived("reader_writer"), None);
    assert_eq!((shots.counter, shots.taken), (3, 3));
}
