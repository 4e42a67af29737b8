//! Round-trip tests: each catalog command, encoded by the library and
//! decoded by the OSC codec, yields exactly the catalog's address and
//! argument list.

use organelle::command;
use organelle::command::OscCommand;
use organelle::wire;
use rosc::{OscMessage, OscPacket, OscType};

fn decoded(buf: &[u8]) -> OscMessage {
    match rosc::decoder::decode_udp(buf).expect("datagram must decode").1 {
        OscPacket::Message(m) => m,
        OscPacket::Bundle(_) => panic!("expected a single message"),
    }
}

fn round_trip(cmd: &OscCommand) -> OscMessage {
    decoded(&wire::command_datagram(cmd))
}

#[test]
fn round_trip_clear_screen() {
    let m = round_trip(&command::oled_clear());
    assert_eq!(m.addr, "/oled/gClear");
    assert_eq!(m.args, vec![OscType::Int(3), OscType::Int(1)]);
}

#[test]
fn round_trip_flip_screen() {
    let m = round_trip(&command::oled_update());
    assert_eq!(m.addr, "/oled/gFlip");
    assert_eq!(m.args, vec![OscType::Int(3), OscType::Int(1)]);
}

#[test]
fn round_trip_show_info_bar() {
    let m = round_trip(&command::oled_showinfobar(true));
    assert_eq!(m.addr, "/oled/gShowInfoBar");
    assert_eq!(m.args, vec![OscType::Int(3), OscType::Int(1)]);
}

#[test]
fn round_trip_hide_info_bar() {
    let m = round_trip(&command::oled_showinfobar(false));
    assert_eq!(m.addr, "/oled/gShowInfoBar");
    assert_eq!(m.args, vec![OscType::Int(3), OscType::Int(0)]);
}

#[test]
fn round_trip_patch_loaded() {
    let m = round_trip(&command::patchloaded(1));
    assert_eq!(m.addr, "/patchLoaded");
    assert_eq!(m.args, vec![OscType::Int(1)]);
}

#[test]
fn round_trip_fill_area() {
    let m = round_trip(&command::oled_fillarea(1, 2, 30, 40, 1));
    assert_eq!(m.addr, "/oled/gFillArea");
    assert_eq!(
        m.args,
        vec![
            OscType::Int(3),
            OscType::Int(1),
            OscType::Int(2),
            OscType::Int(30),
            OscType::Int(40),
            OscType::Int(1),
        ]
    );
}

#[test]
fn round_trip_box() {
    let m = round_trip(&command::oled_box(5, 6, 70, 80, 0));
    assert_eq!(m.addr, "/oled/gBox");
    assert_eq!(
        m.args,
        vec![
            OscType::Int(3),
            OscType::Int(5),
            OscType::Int(6),
            OscType::Int(70),
            OscType::Int(80),
            OscType::Int(0),
        ]
    );
}

#[test]
fn round_trip_line() {
    let m = round_trip(&command::oled_line(0, 10, 127, 10));
    assert_eq!(m.addr, "/oled/gLine");
    assert_eq!(
        m.args,
        vec![
            OscType::Int(3),
            OscType::Int(0),
            OscType::Int(10),
            OscType::Int(127),
            OscType::Int(10),
            OscType::Int(1),
        ]
    );
}

#[test]
fn round_trip_println() {
    let m = round_trip(&command::oled_println(0, 14, 8, "hello".to_string()));
    assert_eq!(m.addr, "/oled/gPrintln");
    assert_eq!(
        m.args,
        vec![
            OscType::Int(3),
            OscType::Int(0),
            OscType::Int(14),
            OscType::Int(8),
            OscType::Int(1),
            OscType::String("hello".to_string()),
        ]
    );
}

#[test]
fn round_trip_enable_patch_submenu() {
    let m = round_trip(&command::enable_patch_submenu(0));
    assert_eq!(m.addr, "/enablepatchsub");
    assert_eq!(m.args, vec![OscType::Int(0)]);
}

#[test]
fn round_trip_go_home() {
    let m = round_trip(&command::go_home());
    assert_eq!(m.addr, "/gohome");
    assert_eq!(m.args, vec![OscType::Int(1)]);
}

#[test]
fn round_trip_reload() {
    let m = round_trip(&command::reload());
    assert_eq!(m.addr, "/reload");
    assert_eq!(m.args, vec![OscType::Int(1)]);
}

#[test]
fn round_trip_led() {
    let m = round_trip(&command::led(7));
    assert_eq!(m.addr, "/led");
    assert_eq!(m.args, vec![OscType::Int(7)]);
}

#[test]
fn initialize_sends_three_messages_in_order() {
    let cmds = command::oled_initialize();
    assert_eq!(cmds.len(), 3);
    let first = round_trip(&cmds[0]);
    assert_eq!(first.addr, "/patchLoaded");
    assert_eq!(first.args, vec![OscType::Int(1)]);
    let second = round_trip(&cmds[1]);
    assert_eq!(second.addr, "/oled/gClear");
    assert_eq!(second.args, vec![OscType::Int(3), OscType::Int(1)]);
    let third = round_trip(&cmds[2]);
    assert_eq!(third.addr, "/oled/gShowInfoBar");
    assert_eq!(third.args, vec![OscType::Int(3), OscType::Int(0)]);
}

#[test]
fn it_works() {
    let cmds = command::oled_initialize();
    assert_eq!(cmds.len(), 3);
    let first_line = round_trip(&command::oled_line(0, 10, 127, 10));
    assert_eq!(first_line.addr, "/oled/gLine");
    let second_line = round_trip(&command::oled_line(0, 24, 127, 24));
    assert_eq!(second_line.args[4], OscType::Int(24));
    let text = round_trip(&command::oled_println(0, 14, 8, "This is a RUST test".to_string()));
    assert_eq!(text.args[5], OscType::String("This is a RUST test".to_string()));
}
