use std::cell::RefCell;
use std::rc::Rc;

use media_converter::converter::{ConvertError, MediaConverter, ProgressObserver};
use media_converter::options::ConversionOptions;

struct Recorder {
    log: Rc<RefCell<Vec<u32>>>,
}

impl ProgressObserver for Recorder {
    fn on_progress(&self, percent: u32) -> Result<(), ()> {
        self.log.borrow_mut().push(percent);
        Ok(())
    }
}

struct Grumpy;

impl ProgressObserver for Grumpy {
    fn on_progress(&self, _percent: u32) -> Result<(), ()> {
        Err(())
    }
}

fn tiny_png() -> Vec<u8> {
    let buffer = image::RgbaImage::from_raw(1, 1, vec![10, 20, 30, 255]).unwrap();
    let img = image::DynamicImage::ImageRgba8(buffer);
    let mut out: Vec<u8> = Vec::new();
    img.write_to(&mut std::io::Cursor::new(&mut out), image::ImageFormat::Png)
        .unwrap();
    out
}

fn observed(format: &str) -> (MediaConverter<Recorder>, Rc<RefCell<Vec<u32>>>) {
    let options = ConversionOptions::from_parts(format.to_string(), 80, None, None, None);
    let mut c = MediaConverter::new(options);
    let log = Rc::new(RefCell::new(Vec::new()));
    c.set_progress_callback(Recorder { log: log.clone() });
    (c, log)
}

#[test]
fn png_conversion_reports_the_generic_checkpoints() {
    let (mut c, log) = observed("png");
    c.convert_image(tiny_png()).unwrap();
    assert_eq!(*log.borrow(), vec![0, 30, 60, 100]);
}

#[test]
fn jpg_conversion_reports_the_generic_checkpoints() {
    let (mut c, log) = observed("jpg");
    c.convert_image(tiny_png()).unwrap();
    assert_eq!(*log.borrow(), vec![0, 30, 60, 100]);
}

#[test]
fn webp_conversion_reports_the_generic_checkpoints() {
    let (mut c, log) = observed("webp");
    c.convert_image(tiny_png()).unwrap();
    assert_eq!(*log.borrow(), vec![0, 30, 60, 100]);
}

#[test]
fn gif_conversion_reports_its_own_checkpoints() {
    let (mut c, log) = observed("gif");
    c.convert_image(tiny_png()).unwrap();
    assert_eq!(*log.borrow(), vec![0, 30, 50, 70, 90, 100]);
}

#[test]
fn decode_failure_stops_after_the_first_checkpoint() {
    let (mut c, log) = observed("png");
    let r = c.convert_image(vec![9u8; 12]);
    assert!(matches!(r, Err(ConvertError::Decode(_))));
    assert_eq!(*log.borrow(), vec![0]);
}

#[test]
fn unknown_format_stops_after_the_second_checkpoint() {
    let (mut c, log) = observed("bmp");
    let r = c.convert_image(tiny_png());
    assert_eq!(r.unwrap_err(), ConvertError::UnsupportedFormat);
    assert_eq!(*log.borrow(), vec![0, 30]);
}

#[test]
fn a_failing_observer_does_not_abort_the_conversion() {
    let options = ConversionOptions::from_parts("png".to_string(), 80, None, None, None);
    let mut c = MediaConverter::new(options);
    c.set_progress_callback(Grumpy);
    let out = c.convert_image(tiny_png()).unwrap();
    assert!(!out.is_empty());
}

#[test]
fn a_new_observer_replaces_the_old_one() {
    let (mut c, first) = observed("png");
    let second = Rc::new(RefCell::new(Vec::new()));
    c.set_progress_callback(Recorder {
        log: second.clone(),
    });
    c.convert_image(tiny_png()).unwrap();
    assert!(first.borrow().is_empty());
    assert_eq!(*second.borrow(), vec![0, 30, 60, 100]);
}

#[test]
fn without_an_observer_conversion_still_succeeds() {
    let options = ConversionOptions::from_parts("png".to_string(), 80, None, None, None);
    let mut c: MediaConverter<Recorder> = MediaConverter::new(options);
    let out = c.convert_image(tiny_png()).unwrap();
    assert!(!out.is_empty());
}

#[test]
fn convert_video_never_reports_progress() {
    let (mut c, log) = observed("gif");
    let r = c.convert_video(vec![1u8, 2, 3]);
    assert_eq!(r.unwrap_err(), ConvertError::NotImplemented);
    assert!(log.borrow().is_empty());
}
