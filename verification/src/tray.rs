//! The tray icon: its picture, its menu, and what clicks do to the window.

use crate::text::same_text;
use vstd::prelude::*;

verus! {

/// What is asked of the main window.
#[derive(Debug, Clone, Copy, PartialEq, Eq, Structural)]
pub enum WindowCommand {
    Show,
    Focus,
    Hide,
    Close,
    /// Stay open although asked to close.
    CancelClose,
}

/// The identifier of the menu item that opens the window.
pub const OPEN_ITEM: &'static str = "open";

/// The identifier of the menu item that ends the program.
pub const EXIT_ITEM: &'static str = "exit";

/// What choosing a menu item does.
#[derive(Debug)]
pub struct MenuOutcome {
    /// Whether the program is to end. From that moment on the window may close.
    pub exit: bool,
    pub commands: Vec<WindowCommand>,
}

/// What brings the window to the front.
pub open spec fn showing() -> Seq<WindowCommand> {
    seq![WindowCommand::Show, WindowCommand::Focus]
}

/// Whether choosing a menu item ends the program, and what it does to the window.
pub open spec fn menu_outcome(id: Seq<char>) -> (bool, Seq<WindowCommand>) {
    if id == OPEN_ITEM@ {
        (false, showing())
    } else if id == EXIT_ITEM@ {
        (true, seq![WindowCommand::Show, WindowCommand::Close])
    } else {
        (false, Seq::empty())
    }
}

/// Brings the window to the front.
pub fn show_window() -> (commands: Vec<WindowCommand>)
    ensures
        commands@ == showing(),
        commands@ == seq![WindowCommand::Show, WindowCommand::Focus],
{
    vec![WindowCommand::Show, WindowCommand::Focus]
}

/// A menu item was chosen.
pub fn menu_chosen(id: &str) -> (outcome: MenuOutcome)
    ensures
        (outcome.exit, outcome.commands@) == menu_outcome(id@),
        outcome.exit <==> id@ == "exit"@,
        id@ == "exit"@ ==> outcome.commands@ == seq![WindowCommand::Show, WindowCommand::Close],
        id@ == "open"@ ==> outcome.commands@ == seq![WindowCommand::Show, WindowCommand::Focus],
        id@ != "open"@ && id@ != "exit"@ ==> outcome.commands@.len() == 0,
{
    proof {
        reveal_strlit("open");
        reveal_strlit("exit");
        assert("open"@[0] != "exit"@[0]);
    }
    if same_text(id, OPEN_ITEM) {
        MenuOutcome { exit: false, commands: show_window() }
    } else if same_text(id, EXIT_ITEM) {
        MenuOutcome { exit: true, commands: vec![WindowCommand::Show, WindowCommand::Close] }
    } else {
        MenuOutcome { exit: false, commands: Vec::new() }
    }
}

#[derive(Debug, Clone, Copy, PartialEq, Eq, Structural)]
pub enum MouseButton {
    Left,
    Right,
    Middle,
}

/// What the mouse does on the icon.
#[derive(Debug, Clone, Copy, PartialEq, Eq, Structural)]
pub enum IconEvent {
    Pressed(MouseButton),
    Released(MouseButton),
    DoubleClick(MouseButton),
    /// The pointer comes, moves or goes.
    Pointer,
}

/// The events that open the window.
pub open spec fn opens_window(event: IconEvent) -> bool {
    event == IconEvent::Released(MouseButton::Left) || event == IconEvent::DoubleClick(
        MouseButton::Left,
    )
}

/// The mouse did something on the icon.
pub fn icon_event(event: IconEvent) -> (commands: Vec<WindowCommand>)
    ensures
        commands@ == (if opens_window(event) {
            showing()
        } else {
            Seq::empty()
        }),
        commands@ == (match event {
            IconEvent::Released(MouseButton::Left) => seq![
                WindowCommand::Show,
                WindowCommand::Focus,
            ],
            IconEvent::DoubleClick(MouseButton::Left) => seq![
                WindowCommand::Show,
                WindowCommand::Focus,
            ],
            _ => Seq::empty(),
        }),
{
    match event {
        IconEvent::Released(MouseButton::Left) => show_window(),
        IconEvent::DoubleClick(MouseButton::Left) => show_window(),
        _ => Vec::new(),
    }
}

/// What becomes of a request to close the window: unless the program is to end, it is hidden.
pub open spec fn close_outcome(exiting: bool) -> Seq<WindowCommand> {
    if exiting {
        Seq::empty()
    } else {
        seq![WindowCommand::CancelClose, WindowCommand::Hide]
    }
}

/// The window was asked to close.
pub fn close_requested(exiting: bool) -> (commands: Vec<WindowCommand>)
    ensures
        commands@ == close_outcome(exiting),
        exiting ==> commands@.len() == 0,
        !exiting ==> commands@ == seq![WindowCommand::CancelClose, WindowCommand::Hide],
{
    if exiting {
        Vec::new()
    } else {
        vec![WindowCommand::CancelClose, WindowCommand::Hide]
    }
}

/// The window closes for good only once the exit item of the menu was chosen; until then a request
/// to close it leaves it open and hidden.
pub proof fn only_the_menu_ends_the_program(id: Seq<char>, exiting: bool)
    ensures
        menu_outcome(id).0 <==> id == EXIT_ITEM@,
        menu_outcome(id).1.contains(WindowCommand::Close) <==> menu_outcome(id).0,
        close_outcome(exiting).contains(WindowCommand::CancelClose) <==> !exiting,
        close_outcome(exiting).contains(WindowCommand::Hide) <==> !exiting,
{
    reveal_strlit("open");
    reveal_strlit("exit");
    assert("open"@[0] != "exit"@[0]);
    if menu_outcome(id).0 {
        assert(menu_outcome(id).1[1] == WindowCommand::Close);
    }
    if !exiting {
        assert(close_outcome(exiting)[0] == WindowCommand::CancelClose);
        assert(close_outcome(exiting)[1] == WindowCommand::Hide);
    }
}

/// The width and the height of the icon.
pub const ICON_SIZE: usize = 32;

/// Whether a pixel lies on the disc: at most half the size less one from the middle of the icon,
/// both counted in half pixels here.
pub open spec fn on_disc(x: int, y: int) -> bool {
    let dx = 2 * x - (ICON_SIZE - 1);
    let dy = 2 * y - (ICON_SIZE - 1);
    let radius = ICON_SIZE - 2;
    dx * dx + dy * dy <= radius * radius
}

/// The colour of a pixel as red, green, blue and opacity: the disc is blue, the rest transparent.
pub open spec fn pixel(x: int, y: int) -> Seq<u8> {
    if on_disc(x, y) {
        seq![30u8, 120u8, 220u8, 255u8]
    } else {
        seq![0u8, 0u8, 0u8, 0u8]
    }
}

/// Row by row, each pixel in four bytes.
pub open spec fn icon_bytes() -> Seq<u8> {
    Seq::new(
        (ICON_SIZE * ICON_SIZE * 4) as nat,
        |i: int| pixel(i / 4 % (ICON_SIZE as int), i / 4 / (ICON_SIZE as int))[i % 4],
    )
}

/// Whether a pixel lies on the disc.
fn disc_covers(x: usize, y: usize) -> (result: bool)
    requires
        x < ICON_SIZE,
        y < ICON_SIZE,
    ensures
        result == on_disc(x as int, y as int),
{
    let dx: i64 = 2 * x as i64 - 31;
    let dy: i64 = 2 * y as i64 - 31;
    proof {
        assert(0 <= dx * dx <= 1000) by (nonlinear_arith)
            requires
                -31 <= dx <= 31,
        ;
        assert(0 <= dy * dy <= 1000) by (nonlinear_arith)
            requires
                -31 <= dy <= 31,
        ;
    }
    dx * dx + dy * dy <= 900
}

/// The picture of the icon, a disc of one colour.
pub fn make_icon() -> (rgba: Vec<u8>)
    ensures
        rgba@ == icon_bytes(),
{
    let mut rgba: Vec<u8> = Vec::new();
    let mut y: usize = 0;
    while y < ICON_SIZE
        invariant
            y <= ICON_SIZE,
            rgba@.len() == y * ICON_SIZE * 4,
            forall|i: int| 0 <= i < rgba@.len() ==> #[trigger] rgba@[i] == icon_bytes()[i],
        decreases ICON_SIZE - y,
    {
        let mut x: usize = 0;
        while x < ICON_SIZE
            invariant
                x <= ICON_SIZE,
                y < ICON_SIZE,
                rgba@.len() == (y * ICON_SIZE + x) * 4,
                forall|i: int| 0 <= i < rgba@.len() ==> #[trigger] rgba@[i] == icon_bytes()[i],
            decreases ICON_SIZE - x,
        {
            let ghost n = rgba@.len();
            if disc_covers(x, y) {
                rgba.push(30);
                rgba.push(120);
                rgba.push(220);
                rgba.push(255);
            } else {
                rgba.push(0);
                rgba.push(0);
                rgba.push(0);
                rgba.push(0);
            }
            proof {
                let at = y * ICON_SIZE + x;
                assert forall|k: int| 0 <= k < 4 implies #[trigger] icon_bytes()[n + k] == pixel(
                    x as int,
                    y as int,
                )[k] by {
                    assert((n + k) / 4 == at && (n + k) % 4 == k);
                    assert(at % 32 == x && at / 32 == y);
                }
                assert forall|i: int| n <= i < n + 4 implies #[trigger] rgba@[i]
                    == icon_bytes()[i] by {
                    let k = i - n;
                    assert(icon_bytes()[n + k] == pixel(x as int, y as int)[k]);
                }
            }
            x = x + 1;
        }
        y = y + 1;
    }
    proof {
        assert(rgba@ =~= icon_bytes());
    }
    rgba
}

/// The menu opens the window with one item and ends the program with another. Only letting go of the
/// left button over the icon, or clicking it twice, opens the window too. A request to close hides
/// the window unless the program is to end.
pub proof fn menu_and_icon_open_the_window(id: Seq<char>, event: IconEvent)
    ensures
        menu_outcome("open"@) == (false, seq![WindowCommand::Show, WindowCommand::Focus]),
        menu_outcome("exit"@) == (true, seq![WindowCommand::Show, WindowCommand::Close]),
        id != "open"@ && id != "exit"@ ==> !menu_outcome(id).0 && menu_outcome(id).1.len() == 0,
        opens_window(event) <==> (event matches IconEvent::Released(button) && button
            == MouseButton::Left) || (event matches IconEvent::DoubleClick(button) && button
            == MouseButton::Left),
        close_outcome(true).len() == 0,
        close_outcome(false) == seq![WindowCommand::CancelClose, WindowCommand::Hide],
{
    reveal_strlit("open");
    reveal_strlit("exit");
    assert("open"@[0] != "exit"@[0]);
}

/// Each pixel takes four bytes, row by row: blue and opaque within fifteen pixels of the middle,
/// nothing elsewhere.
pub proof fn icon_is_a_blue_disc(x: int, y: int)
    requires
        0 <= x < 32,
        0 <= y < 32,
    ensures
        ({
            let at = 4 * (32 * y + x);
            let within = (2 * x - 31) * (2 * x - 31) + (2 * y - 31) * (2 * y - 31) <= 900;
            &&& icon_bytes().len() == 4096
            &&& icon_bytes()[at] == (if within {
                30u8
            } else {
                0u8
            })
            &&& icon_bytes()[at + 1] == (if within {
                120u8
            } else {
                0u8
            })
            &&& icon_bytes()[at + 2] == (if within {
                220u8
            } else {
                0u8
            })
            &&& icon_bytes()[at + 3] == (if within {
                255u8
            } else {
                0u8
            })
        }),
{
    let at = 4 * (32 * y + x);
    assert(at / 4 == 32 * y + x && (at + 1) / 4 == 32 * y + x && (at + 2) / 4 == 32 * y + x && (at
        + 3) / 4 == 32 * y + x);
    assert((32 * y + x) % 32 == x && (32 * y + x) / 32 == y);
}

} // verus!
