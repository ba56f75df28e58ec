use alarm_clock::frame::DrawPrimitive;
use alarm_clock::ui::{Environment, Model, Msg};

fn texts(frame: &[DrawPrimitive]) -> Vec<(i32, i32, String)> {
    frame
        .iter()
        .filter_map(|p| match p {
            DrawPrimitive::Text { x, y, text } => Some((*x, *y, text.clone())),
            _ => None,
        })
        .collect()
}

fn rects(frame: &[DrawPrimitive]) -> Vec<(i32, i32, i32, i32)> {
    frame
        .iter()
        .filter_map(|p| match p {
            DrawPrimitive::Rect { x1, y1, x2, y2 } => Some((*x1, *y1, *x2, *y2)),
            _ => None,
        })
        .collect()
}

#[test]
fn boot_frame_header() {
    let model = Model::init();
    let frame = model.view();
    let t = texts(&frame);
    // date and weekday, top left
    assert_eq!(t[0], (0, 0, "1970-01-01 Thursday".to_string()));
    // no alarm is set at boot
    assert_eq!(t[1], (0, 112, "No alarm".to_string()));
    // pressure readout, right-aligned: "0.00hPa" is 7 characters
    assert_eq!(t[2], (295 - 8 * 7, 112, "0.00hPa".to_string()));
    // temperature readout: "0.00°C" is 6 characters
    assert_eq!(t[3], (295 - 8 * 6, 0, "0.00°C".to_string()));
    // the seconds in small type beside the digits
    assert!(t.contains(&(272, 17, ":00".to_string())));
}

#[test]
fn header_with_environment() {
    let mut model = Model::init();
    model.update(Msg::Environment(Environment {
        pressure: 101325_00,
        temperature: 2150,
        humidity: 45,
    }));
    let frame = model.view();
    let t = texts(&frame);
    assert_eq!(t[2], (295 - 8 * 12, 112, "101325.00hPa".to_string()));
    assert_eq!(t[3], (295 - 8 * 14, 0, "45%RH  21.50°C".to_string()));
    // after two failed readings the staleness counter is shown
    model.update(Msg::FailEnvironment);
    model.update(Msg::FailEnvironment);
    let t = texts(&model.view());
    assert_eq!(t[2].2, "(2s) 101325.00hPa");
}

#[test]
fn clock_digits_drawn() {
    let mut model = Model::init();
    // 1970-01-01 08:01:00: one digit blanked, colon shown (even second)
    model.update(Msg::DateTime(alarm_clock::datetime::DateTime::new(8 * 3600 + 60)));
    let frame = model.view();
    let r = rects(&frame);
    // the hour's tens digit is blanked; the 8 lights all seven
    // segments, the colon adds two dots, the minutes' 0 and 1 light six
    // and two
    assert_eq!(r.len(), 7 + 2 + 6 + 2);
    // the top bar of the hour's units digit (an 8 at pen position 65,18)
    assert!(r.contains(&(65, 18, 65 + 51, 18 + 11)));
}

#[test]
fn menu_frame_lists_entries() {
    let mut model = Model::init();
    model.update(Msg::ButtonOk);
    let t = texts(&model.view());
    assert!(t.contains(&(4, 16, "Menu:".to_string())));
    assert!(t.contains(&(28, 32, "Main screen".to_string())));
    assert!(t.contains(&(28, 48, "Set clock".to_string())));
    assert!(t.contains(&(28, 64, "Manage alarms".to_string())));
    // the cursor arrow beside the first entry
    assert!(t.contains(&(12, 32, ">".to_string())));
}

#[test]
fn alarm_list_frame() {
    let mut model = Model::init();
    model.update(Msg::ButtonOk);
    model.update(Msg::ButtonPlus);
    model.update(Msg::ButtonPlus);
    model.update(Msg::ButtonOk);
    let t = texts(&model.view());
    assert!(t.contains(&(4, 16, "Select alarm:".to_string())));
    // five default slots, all reading the same
    for i in 0..5 {
        assert!(t.contains(&(28, 32 + 16 * i, "Off 12:00 Mo Tu We Th Fr".to_string())));
    }
}

#[test]
fn repeat_list_paginates() {
    let mut model = Model::init();
    model.update(Msg::ButtonOk);
    model.update(Msg::ButtonPlus);
    model.update(Msg::ButtonPlus);
    model.update(Msg::ButtonOk); // alarm list
    model.update(Msg::ButtonOk); // editor on slot 0
    model.update(Msg::ButtonMinus);
    model.update(Msg::ButtonMinus); // cursor on "Manage repeat"
    model.update(Msg::ButtonOk); // repeat list, cursor on Monday
    let t = texts(&model.view());
    // eight entries: the first page shows five and the page indicator
    assert!(t.contains(&(267, 96, "1/2".to_string())));
    assert!(t.contains(&(28, 32, "Remove Monday".to_string())));
    assert!(t.contains(&(28, 96, "Remove Friday".to_string())));
    // walking the cursor past the fifth entry turns the page
    model.update(Msg::ButtonMinus); // wraps to "Back", index 7
    let t = texts(&model.view());
    assert!(t.contains(&(267, 96, "2/2".to_string())));
    assert!(t.contains(&(28, 32, "Add Saturday".to_string())));
    assert!(t.contains(&(28, 48, "Add Sunday".to_string())));
    assert!(t.contains(&(28, 64, "Back".to_string())));
    // the cursor sits on the third entry of the second page
    assert!(t.contains(&(12, 64, ">".to_string())));
}

#[test]
fn set_clock_frame() {
    let mut model = Model::init();
    model.update(Msg::DateTime(alarm_clock::datetime::DateTime::new(1540052501)));
    model.update(Msg::ButtonOk);
    model.update(Msg::ButtonPlus);
    model.update(Msg::ButtonOk);
    let t = texts(&model.view());
    assert!(t.contains(&(4, 16, "Edit: 2018-10-20 16:21".to_string())));
    assert!(t.contains(&(28, 32, "Set year".to_string())));
}
