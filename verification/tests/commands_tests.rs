use deckpanel::commands::{
    directives_for, handle_set_image, plan_set_image, Controller, Directive, ImageCommand,
    SetImageEvent,
};
use deckpanel::pipeline::{DecodedImage, ImageError, NativeBitmap, RenderTarget};
use deckpanel::registry::{Kind, LogicalPosition};

fn png_url(width: u32, height: u32) -> String {
    let picture = image::RgbImage::from_raw(width, height, vec![90u8; (width * height * 3) as usize])
        .unwrap();
    let mut out = std::io::Cursor::new(Vec::new());
    picture.write_to(&mut out, image::ImageFormat::Png).unwrap();
    let mut url = String::from("data:image/png,");
    for b in out.into_inner() {
        url.push_str(&format!("%{:02X}", b));
    }
    url
}

fn shape(ds: &[Directive<NativeBitmap>]) -> Vec<String> {
    ds.iter()
        .map(|d| match d {
            Directive::Write(i, b) => format!("write {} {}x{}", i, b.width, b.height),
            Directive::Blank(i) => format!("blank {}", i),
            Directive::Flush => "flush".to_string(),
            Directive::Brightness(p) => format!("brightness {}", p),
            Directive::PowerOff => "off".to_string(),
        })
        .collect()
}

fn event(controller: Controller, position: Option<u8>, image: Option<String>) -> SetImageEvent {
    SetImageEvent { controller, position, image }
}

#[test]
fn key_image_is_written_then_flushed() {
    let profile = Kind::N4.profile();
    let evt = event(Controller::Keypad, Some(2), Some(png_url(8, 8)));
    let ds = handle_set_image(&profile, &evt).unwrap();
    assert_eq!(shape(&ds), vec!["write 12 112x112", "flush"]);
    let evt = event(Controller::Keypad, Some(9), Some(png_url(8, 8)));
    assert_eq!(shape(&handle_set_image(&profile, &evt).unwrap()), vec!["write 9 112x112", "flush"]);
}

#[test]
fn touch_zone_image_is_written_then_flushed() {
    let profile = Kind::N4.profile();
    let evt = event(Controller::Encoder, Some(3), Some(png_url(8, 8)));
    let ds = handle_set_image(&profile, &evt).unwrap();
    assert_eq!(shape(&ds), vec!["write 3 184x120", "flush"]);
}

#[test]
fn strip_image_is_split_then_flushed() {
    let profile = Kind::N4.profile();
    let evt = event(Controller::Encoder, None, Some(png_url(401, 4)));
    let ds = handle_set_image(&profile, &evt).unwrap();
    assert_eq!(
        shape(&ds),
        vec!["write 0 184x120", "write 1 184x120", "write 2 184x120", "write 3 184x120", "flush"]
    );
}

#[test]
fn clearing_one_position() {
    let profile = Kind::N4.profile();
    let ds = handle_set_image(&profile, &event(Controller::Keypad, Some(0), None)).unwrap();
    assert_eq!(shape(&ds), vec!["blank 10", "flush"]);
    let ds = handle_set_image(&profile, &event(Controller::Encoder, Some(1), None)).unwrap();
    assert_eq!(shape(&ds), vec!["blank 1", "flush"]);
}

#[test]
fn clearing_everything_blanks_every_covered_index() {
    let profile = Kind::N4.profile();
    let ds = handle_set_image(&profile, &event(Controller::Keypad, None, None)).unwrap();
    let want: Vec<String> = [10, 11, 12, 13, 14, 5, 6, 7, 8, 9, 0, 1, 2, 3]
        .iter()
        .map(|i| format!("blank {}", i))
        .chain(["flush".to_string()])
        .collect();
    assert_eq!(shape(&ds), want);
}

#[test]
fn clearing_everything_may_leave_the_zones() {
    let mut profile = Kind::N4.profile();
    profile.clear_covers_zones = false;
    let ds = directives_for(ImageCommand::ClearAll, &profile);
    let want: Vec<String> = [10, 11, 12, 13, 14, 5, 6, 7, 8, 9]
        .iter()
        .map(|i| format!("blank {}", i))
        .chain(["flush".to_string()])
        .collect();
    assert_eq!(shape(&ds), want);
}

#[test]
fn clearing_the_strip_blanks_the_zones() {
    let profile = Kind::Akp05.profile();
    let ds = handle_set_image(&profile, &event(Controller::Encoder, None, None)).unwrap();
    assert_eq!(shape(&ds), vec!["blank 0", "blank 1", "blank 2", "blank 3", "flush"]);
}

#[test]
fn positions_outside_the_layout_only_flush() {
    let profile = Kind::N4.profile();
    let ds = handle_set_image(&profile, &event(Controller::Keypad, Some(10), None)).unwrap();
    assert_eq!(shape(&ds), vec!["flush"]);
    let evt = event(Controller::Encoder, Some(9), Some(png_url(4, 4)));
    assert_eq!(shape(&handle_set_image(&profile, &evt).unwrap()), vec!["flush"]);
}

#[test]
fn an_image_for_the_whole_keypad_does_nothing() {
    let profile = Kind::N4.profile();
    let evt = event(Controller::Keypad, None, Some(png_url(4, 4)));
    assert!(handle_set_image(&profile, &evt).unwrap().is_empty());
    assert!(plan_set_image(&evt).unwrap().is_none());
}

#[test]
fn a_refused_image_sends_nothing() {
    let profile = Kind::N4.profile();
    let gif = "data:image/gif;base64,R0lGODlhAQABAAAAACwAAAAAAQABAAACAkQBADs=".to_string();
    let evt = event(Controller::Keypad, Some(1), Some(gif.clone()));
    assert_eq!(handle_set_image(&profile, &evt).err(), Some(ImageError::UnsupportedFormat));
    let evt = event(Controller::Keypad, None, Some(gif));
    assert_eq!(handle_set_image(&profile, &evt).err(), Some(ImageError::UnsupportedFormat));
    let evt = event(Controller::Encoder, Some(1), Some("garbage".to_string()));
    assert_eq!(handle_set_image(&profile, &evt).err(), Some(ImageError::BadPayload));
}

#[test]
fn plans_name_the_target() {
    let evt = event(Controller::Encoder, None, Some(png_url(2, 2)));
    match plan_set_image(&evt).unwrap().unwrap() {
        ImageCommand::SetImage(target, image) => {
            assert_eq!(target, RenderTarget::Strip);
            assert_eq!((image.width(), image.height()), (2, 2));
        }
        _ => panic!("wrong command"),
    }
    match plan_set_image(&event(Controller::Keypad, Some(4), None)).unwrap().unwrap() {
        ImageCommand::Clear(pos) => assert_eq!(pos, LogicalPosition::Key(4)),
        _ => panic!("wrong command"),
    }
    assert!(matches!(
        plan_set_image(&event(Controller::Keypad, None, None)).unwrap().unwrap(),
        ImageCommand::ClearAll
    ));
    assert!(matches!(
        plan_set_image(&event(Controller::Encoder, None, None)).unwrap().unwrap(),
        ImageCommand::ClearStrip
    ));
}

#[test]
fn every_command_ends_with_a_flush() {
    let profile = Kind::N4.profile();
    let image = DecodedImage::from_rgb(2, 2, vec![1; 12]).unwrap();
    let commands = vec![
        ImageCommand::SetImage(RenderTarget::Position(LogicalPosition::Key(3)), image.clone()),
        ImageCommand::SetImage(RenderTarget::Strip, image),
        ImageCommand::Clear(LogicalPosition::Encoder(0)),
        ImageCommand::Clear(LogicalPosition::Key(77)),
        ImageCommand::ClearAll,
        ImageCommand::ClearStrip,
    ];
    for command in commands {
        let ds = directives_for(command, &profile);
        assert!(matches!(ds.last(), Some(Directive::Flush)));
        let flushes = ds.iter().filter(|d| matches!(d, Directive::Flush)).count();
        assert_eq!(flushes, 1);
    }
}
