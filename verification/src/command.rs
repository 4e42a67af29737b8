//! The outbound command catalog: every message this library sends to the
//! device, as an address string plus an ordered argument list.

use vstd::prelude::*;

verus! {

/// The screen-selector integer that the device firmware expects as the first
/// argument of every drawing command.
pub const SCREEN_SELECTOR: i32 = 3;

/// The fixed local UDP port on which the device's input events arrive.
pub const LOCAL_RECEIVE_PORT: u16 = 4000;

/// The fixed remote UDP port to which outbound commands are sent.
pub const REMOTE_SEND_PORT: u16 = 4001;

/// One argument of an outbound OSC message: the catalog uses 32-bit integers
/// and, for text drawing, a single UTF-8 string.
#[derive(Clone, Debug, PartialEq)]
pub enum OscArg {
    Int(i32),
    Str(String),
}

/// Mathematical model of one outbound argument.
pub enum OscArgV {
    Int(i32),
    Str(Seq<char>),
}

impl View for OscArg {
    type V = OscArgV;

    open spec fn view(&self) -> OscArgV {
        match self {
            OscArg::Int(i) => OscArgV::Int(*i),
            OscArg::Str(s) => OscArgV::Str(s@),
        }
    }
}

/// An outbound command: an OSC address plus its ordered arguments.
#[derive(Clone, Debug, PartialEq)]
pub struct OscCommand {
    pub addr: String,
    pub args: Vec<OscArg>,
}

/// Mathematical model of an outbound command.
#[verifier::ext_equal]
pub struct CommandV {
    pub addr: Seq<char>,
    pub args: Seq<OscArgV>,
}

impl View for OscCommand {
    type V = CommandV;

    open spec fn view(&self) -> CommandV {
        CommandV { addr: self.addr@, args: self.args@.map_values(|a: OscArg| a@) }
    }
}

/// The clear-screen command of the catalog.
pub open spec fn clear_screen_cmd() -> CommandV {
    CommandV {
        addr: "/oled/gClear"@,
        args: seq![OscArgV::Int(SCREEN_SELECTOR), OscArgV::Int(1)],
    }
}

/// The flip/update-screen command of the catalog.
pub open spec fn flip_screen_cmd() -> CommandV {
    CommandV {
        addr: "/oled/gFlip"@,
        args: seq![OscArgV::Int(SCREEN_SELECTOR), OscArgV::Int(1)],
    }
}

/// The show/hide-info-bar command: the status argument is 1 to show the bar
/// and 0 to hide it.
pub open spec fn show_info_bar_cmd(status: bool) -> CommandV {
    CommandV {
        addr: "/oled/gShowInfoBar"@,
        args: seq![OscArgV::Int(SCREEN_SELECTOR), OscArgV::Int(if status { 1 } else { 0 })],
    }
}

/// The set-patch-loaded-flag command of the catalog.
pub open spec fn patch_loaded_cmd(status: i32) -> CommandV {
    CommandV { addr: "/patchLoaded"@, args: seq![OscArgV::Int(status)] }
}

/// The fill-rectangle command of the catalog.
pub open spec fn fill_area_cmd(pos_x: i32, pos_y: i32, width: i32, height: i32, color: i32) -> CommandV {
    CommandV {
        addr: "/oled/gFillArea"@,
        args: seq![
            OscArgV::Int(SCREEN_SELECTOR),
            OscArgV::Int(pos_x),
            OscArgV::Int(pos_y),
            OscArgV::Int(width),
            OscArgV::Int(height),
            OscArgV::Int(color),
        ],
    }
}

/// The draw-rectangle-outline command of the catalog.
pub open spec fn box_cmd(pos_x: i32, pos_y: i32, width: i32, height: i32, color: i32) -> CommandV {
    CommandV {
        addr: "/oled/gBox"@,
        args: seq![
            OscArgV::Int(SCREEN_SELECTOR),
            OscArgV::Int(pos_x),
            OscArgV::Int(pos_y),
            OscArgV::Int(width),
            OscArgV::Int(height),
            OscArgV::Int(color),
        ],
    }
}

/// The draw-line command of the catalog.
pub open spec fn line_cmd(x_start: i32, y_start: i32, x_stop: i32, y_stop: i32) -> CommandV {
    CommandV {
        addr: "/oled/gLine"@,
        args: seq![
            OscArgV::Int(SCREEN_SELECTOR),
            OscArgV::Int(x_start),
            OscArgV::Int(y_start),
            OscArgV::Int(x_stop),
            OscArgV::Int(y_stop),
            OscArgV::Int(1),
        ],
    }
}

/// The draw-text-line command of the catalog.
pub open spec fn println_cmd(pos_x: i32, pos_y: i32, size: i32, text: Seq<char>) -> CommandV {
    CommandV {
        addr: "/oled/gPrintln"@,
        args: seq![
            OscArgV::Int(SCREEN_SELECTOR),
            OscArgV::Int(pos_x),
            OscArgV::Int(pos_y),
            OscArgV::Int(size),
            OscArgV::Int(1),
            OscArgV::Str(text),
        ],
    }
}

/// The enable/disable-patch-submenu command of the catalog.
pub open spec fn enable_patch_sub_cmd(status: i32) -> CommandV {
    CommandV { addr: "/enablepatchsub"@, args: seq![OscArgV::Int(status)] }
}

/// The navigate-to-home-screen command of the catalog.
pub open spec fn go_home_cmd() -> CommandV {
    CommandV { addr: "/gohome"@, args: seq![OscArgV::Int(1)] }
}

/// The reload-current-patch command of the catalog.
pub open spec fn reload_cmd() -> CommandV {
    CommandV { addr: "/reload"@, args: seq![OscArgV::Int(1)] }
}

/// The set-status-LED-color command of the catalog.
pub open spec fn led_cmd(color: i32) -> CommandV {
    CommandV { addr: "/led"@, args: seq![OscArgV::Int(color)] }
}

/// Builds a command whose arguments are exactly the given integers, in order.
fn int_command(addr: String, vals: &Vec<i32>) -> (c: OscCommand)
    ensures
        c@.addr == addr@,
        c@.args == vals@.map_values(|i: i32| OscArgV::Int(i)),
{
    let mut args: Vec<OscArg> = Vec::new();
    let mut k: usize = 0;
    while k < vals.len()
        invariant
            k <= vals.len(),
            args@.len() == k,
            forall|j: int| 0 <= j < k ==> args@[j] == OscArg::Int(vals@[j]),
        decreases vals.len() - k,
    {
        args.push(OscArg::Int(vals[k]));
        k += 1;
    }
    let c = OscCommand { addr, args };
    proof {
        assert(c@.args =~= vals@.map_values(|i: i32| OscArgV::Int(i)));
    }
    c
}

/// Selects between the two fixed-argument screen commands.
#[derive(Clone, Copy, Debug, PartialEq, Eq, Structural)]
pub enum OledMsg {
    Clear,
    Update,
}

/// The message that one [`OledMsg`] selector stands for.
pub open spec fn oled_cmd(msg_type: OledMsg) -> CommandV {
    match msg_type {
        OledMsg::Clear => clear_screen_cmd(),
        OledMsg::Update => flip_screen_cmd(),
    }
}

/// Builds the clear or flip screen command selected by `msg_type`.
pub fn oled(msg_type: OledMsg) -> (c: OscCommand)
    ensures
        c@ == oled_cmd(msg_type),
{
    let addr: String = match msg_type {
        OledMsg::Clear => "/oled/gClear".to_owned(),
        OledMsg::Update => "/oled/gFlip".to_owned(),
    };
    let mut vals: Vec<i32> = Vec::new();
    vals.push(SCREEN_SELECTOR);
    vals.push(1);
    let c = int_command(addr, &vals);
    proof {
        assert(c@.args =~= oled_cmd(msg_type).args);
        assert(c@ =~= oled_cmd(msg_type));
    }
    c
}

/// Builds the clear-screen command.
pub fn oled_clear() -> (c: OscCommand)
    ensures
        c@ == clear_screen_cmd(),
{
    oled(OledMsg::Clear)
}

/// Builds the flip/update-screen command.
pub fn oled_update() -> (c: OscCommand)
    ensures
        c@ == flip_screen_cmd(),
{
    oled(OledMsg::Update)
}

/// Builds the show/hide-info-bar command; `status` is encoded as 1 or 0.
pub fn oled_showinfobar(status: bool) -> (c: OscCommand)
    ensures
        c@ == show_info_bar_cmd(status),
{
    let mut vals: Vec<i32> = Vec::new();
    vals.push(SCREEN_SELECTOR);
    vals.push(if status { 1 } else { 0 });
    let c = int_command("/oled/gShowInfoBar".to_owned(), &vals);
    proof {
        assert(c@.args =~= show_info_bar_cmd(status).args);
        assert(c@ =~= show_info_bar_cmd(status));
    }
    c
}

/// Builds the set-patch-loaded-flag command.
pub fn patchloaded(status: i32) -> (c: OscCommand)
    ensures
        c@ == patch_loaded_cmd(status),
{
    let mut vals: Vec<i32> = Vec::new();
    vals.push(status);
    let c = int_command("/patchLoaded".to_owned(), &vals);
    proof {
        assert(c@.args =~= patch_loaded_cmd(status).args);
        assert(c@ =~= patch_loaded_cmd(status));
    }
    c
}

/// Builds, in order, the three commands that initialize the display:
/// set patch-loaded(1), clear the screen, hide the info bar.
pub fn oled_initialize() -> (r: Vec<OscCommand>)
    ensures
        r@.len() == 3,
        r@[0]@ == patch_loaded_cmd(1),
        r@[1]@ == clear_screen_cmd(),
        r@[2]@ == show_info_bar_cmd(false),
{
    let mut r: Vec<OscCommand> = Vec::new();
    r.push(patchloaded(1));
    r.push(oled_clear());
    r.push(oled_showinfobar(false));
    r
}

/// Builds the fill-rectangle command.
pub fn oled_fillarea(pos_x: i32, pos_y: i32, width: i32, height: i32, color: i32) -> (c: OscCommand)
    ensures
        c@ == fill_area_cmd(pos_x, pos_y, width, height, color),
{
    let mut vals: Vec<i32> = Vec::new();
    vals.push(SCREEN_SELECTOR);
    vals.push(pos_x);
    vals.push(pos_y);
    vals.push(width);
    vals.push(height);
    vals.push(color);
    let c = int_command("/oled/gFillArea".to_owned(), &vals);
    proof {
        assert(c@.args =~= fill_area_cmd(pos_x, pos_y, width, height, color).args);
        assert(c@ =~= fill_area_cmd(pos_x, pos_y, width, height, color));
    }
    c
}

/// Builds the draw-rectangle-outline command.
pub fn oled_box(pos_x: i32, pos_y: i32, width: i32, height: i32, color: i32) -> (c: OscCommand)
    ensures
        c@ == box_cmd(pos_x, pos_y, width, height, color),
{
    let mut vals: Vec<i32> = Vec::new();
    vals.push(SCREEN_SELECTOR);
    vals.push(pos_x);
    vals.push(pos_y);
    vals.push(width);
    vals.push(height);
    vals.push(color);
    let c = int_command("/oled/gBox".to_owned(), &vals);
    proof {
        assert(c@.args =~= box_cmd(pos_x, pos_y, width, height, color).args);
        assert(c@ =~= box_cmd(pos_x, pos_y, width, height, color));
    }
    c
}

/// Builds the draw-line command.
pub fn oled_line(x_start: i32, y_start: i32, x_stop: i32, y_stop: i32) -> (c: OscCommand)
    ensures
        c@ == line_cmd(x_start, y_start, x_stop, y_stop),
{
    let mut vals: Vec<i32> = Vec::new();
    vals.push(SCREEN_SELECTOR);
    vals.push(x_start);
    vals.push(y_start);
    vals.push(x_stop);
    vals.push(y_stop);
    vals.push(1);
    let c = int_command("/oled/gLine".to_owned(), &vals);
    proof {
        assert(c@.args =~= line_cmd(x_start, y_start, x_stop, y_stop).args);
        assert(c@ =~= line_cmd(x_start, y_start, x_stop, y_stop));
    }
    c
}

/// Builds the draw-text-line command.
pub fn oled_println(pos_x: i32, pos_y: i32, size: i32, text: String) -> (c: OscCommand)
    ensures
        c@ == println_cmd(pos_x, pos_y, size, text@),
{
    let ghost text_view: Seq<char> = text@;
    let mut args: Vec<OscArg> = Vec::new();
    args.push(OscArg::Int(SCREEN_SELECTOR));
    args.push(OscArg::Int(pos_x));
    args.push(OscArg::Int(pos_y));
    args.push(OscArg::Int(size));
    args.push(OscArg::Int(1));
    args.push(OscArg::Str(text));
    let c = OscCommand { addr: "/oled/gPrintln".to_owned(), args };
    proof {
        assert(c@.args =~= println_cmd(pos_x, pos_y, size, text_view).args);
        assert(c@ =~= println_cmd(pos_x, pos_y, size, text_view));
    }
    c
}

/// Builds the enable/disable-patch-submenu command.
pub fn enable_patch_submenu(status: i32) -> (c: OscCommand)
    ensures
        c@ == enable_patch_sub_cmd(status),
{
    let mut vals: Vec<i32> = Vec::new();
    vals.push(status);
    let c = int_command("/enablepatchsub".to_owned(), &vals);
    proof {
        assert(c@.args =~= enable_patch_sub_cmd(status).args);
        assert(c@ =~= enable_patch_sub_cmd(status));
    }
    c
}

/// Builds the navigate-to-home-screen command.
pub fn go_home() -> (c: OscCommand)
    ensures
        c@ == go_home_cmd(),
{
    let mut vals: Vec<i32> = Vec::new();
    vals.push(1);
    let c = int_command("/gohome".to_owned(), &vals);
    proof {
        assert(c@.args =~= go_home_cmd().args);
        assert(c@ =~= go_home_cmd());
    }
    c
}

/// Builds the reload-current-patch command.
pub fn reload() -> (c: OscCommand)
    ensures
        c@ == reload_cmd(),
{
    let mut vals: Vec<i32> = Vec::new();
    vals.push(1);
    let c = int_command("/reload".to_owned(), &vals);
    proof {
        assert(c@.args =~= reload_cmd().args);
        assert(c@ =~= reload_cmd());
    }
    c
}

/// Builds the set-status-LED-color command.
pub fn led(color: i32) -> (c: OscCommand)
    ensures
        c@ == led_cmd(color),
{
    let mut vals: Vec<i32> = Vec::new();
    vals.push(color);
    let c = int_command("/led".to_owned(), &vals);
    proof {
        assert(c@.args =~= led_cmd(color).args);
        assert(c@ =~= led_cmd(color));
    }
    c
}

/// Clamps `input` to the closed range from `min` to `max`; a general numeric
/// helper with no protocol meaning.
pub fn constrain(input: &i32, min: &i32, max: &i32) -> (result: i32)
    ensures
        result == (if *input < *min {
            *min
        } else if *input > *max {
            *max
        } else {
            *input
        }),
{
    let mut result: i32 = *input;
    if result < *min {
        result = *min;
    } else if result > *max {
        result = *max;
    }
    result
}

} // verus!
