//! The state of one notification window and what it does on each message.

use vstd::prelude::*;
use crate::icon::{get_hicon_from_32bpp_rgba, icon_image, IconImage, IconImageView};
use crate::layout::{body_area, body_rect, close_btn_rect, close_button, NIS, NM, SC, TC, WC};
use crate::notification::{Notification, NotificationView};
use crate::util::{
    encode_wide,
    rect_contains,
    signed_low_word,
    wide,
    Rect,
    GET_X_LPARAM,
    GET_Y_LPARAM,
};

verus! {

/// The font family of every text.
pub const FONT_FACE: &'static str = "Segeo UI";

/// Font height of the application name.
pub const APPNAME_SIZE: i32 = 15;

/// Font height of the summary and the body.
pub const TEXT_SIZE: i32 = 17;

/// Font weight of the application name and the body.
pub const NORMAL: i32 = 400;

/// Font weight of the summary.
pub const BOLD: i32 = 700;

/// Pen width of the close button's two strokes.
pub const CLOSE_BTN_PEN: i32 = 2;

/// What a window keeps for its lifetime: its handle, a copy of the
/// notification it shows, and whether the pointer is over the close button.
#[derive(Debug)]
pub struct WindowData {
    pub window: isize,
    pub notification: Notification,
    pub mouse_hovering_close_btn: bool,
}

/// A `WindowData` as plain values.
pub struct WindowDataView {
    pub window: isize,
    pub notification: NotificationView,
    pub mouse_hovering_close_btn: bool,
}

impl View for WindowData {
    type V = WindowDataView;

    open spec fn view(&self) -> WindowDataView {
        WindowDataView {
            window: self.window,
            notification: self.notification@,
            mouse_hovering_close_btn: self.mouse_hovering_close_btn,
        }
    }
}

/// The messages that a notification window acts on.
#[derive(Debug, Copy, Clone, PartialEq, Eq, Structural)]
pub enum Message {
    /// The window is about to be created: the first message that carries the
    /// creation parameter.
    NcCreate,
    /// The size of the client area is asked for.
    NcCalcSize,
    /// The window was created.
    Create,
    /// The window has to be drawn.
    Paint,
    /// The pointer moved over the window.
    MouseMove,
    /// The primary button went down over the window.
    LButtonDown,
    /// The window is being destroyed.
    Destroy,
    /// Any other message.
    Other,
}

/// The shapes of the pointer.
#[derive(Debug, Copy, Clone, PartialEq, Eq, Structural)]
pub enum Cursor {
    /// The standard arrow.
    Arrow,
    /// The hand that marks something to click on.
    Hand,
}

/// One step of drawing a notification.
#[derive(Debug, PartialEq, Eq)]
pub enum DrawCommand {
    /// Set the background colour of text.
    Background { color: u32 },
    /// Draw the icon, scaled to the given size.
    Icon { image: IconImage, x: i32, y: i32, width: i32, height: i32 },
    /// Draw the two diagonals of the rectangle with a solid pen.
    CloseGlyph { rect: Rect, color: u32, pen_width: i32 },
    /// Draw one line of text with its top left corner at the given point.
    Text { x: i32, y: i32, color: u32, size: i32, weight: i32, text: Vec<u16> },
    /// Draw text left-aligned into the rectangle, broken at word boundaries.
    Paragraph { rect: Rect, color: u32, size: i32, weight: i32, text: Vec<u16> },
}

/// A `DrawCommand` as plain values.
pub enum DrawOp {
    Background { color: u32 },
    Icon { image: IconImageView, x: i32, y: i32, width: i32, height: i32 },
    CloseGlyph { rect: Rect, color: u32, pen_width: i32 },
    Text { x: i32, y: i32, color: u32, size: i32, weight: i32, text: Seq<u16> },
    Paragraph { rect: Rect, color: u32, size: i32, weight: i32, text: Seq<u16> },
}

impl View for DrawCommand {
    type V = DrawOp;

    open spec fn view(&self) -> DrawOp {
        match *self {
            DrawCommand::Background { color } => DrawOp::Background { color },
            DrawCommand::Icon { image, x, y, width, height } => DrawOp::Icon {
                image: image@,
                x,
                y,
                width,
                height,
            },
            DrawCommand::CloseGlyph { rect, color, pen_width } => DrawOp::CloseGlyph {
                rect,
                color,
                pen_width,
            },
            DrawCommand::Text { x, y, color, size, weight, text } => DrawOp::Text {
                x,
                y,
                color,
                size,
                weight,
                text: text@,
            },
            DrawCommand::Paragraph { rect, color, size, weight, text } => DrawOp::Paragraph {
                rect,
                color,
                size,
                weight,
                text: text@,
            },
        }
    }
}

/// A list of drawing steps as plain values.
pub open spec fn draw_ops(commands: Seq<DrawCommand>) -> Seq<DrawOp> {
    commands.map_values(|command: DrawCommand| command@)
}

/// What the window asks of the platform in answer to a message. After every
/// action but `Borderless` the message goes on to the default window
/// procedure, whose answer is the answer to the message.
#[derive(Debug, PartialEq, Eq)]
pub enum Action {
    /// Keep the creation parameter as the window's data.
    Attach,
    /// Answer 0 and skip the default procedure: the window then has no frame.
    Borderless,
    /// Draw these steps in order, between the begin and the end of painting.
    Draw(Vec<DrawCommand>),
    /// Show this cursor, and redraw the window if `redraw` is set.
    Hover { cursor: Cursor, redraw: bool },
    /// Close the notification.
    Close,
    /// Release the window's data.
    Release,
    /// Nothing but the default procedure.
    Pass,
}

/// An `Action` as plain values.
pub enum ActionView {
    Attach,
    Borderless,
    Draw(Seq<DrawOp>),
    Hover { cursor: Cursor, redraw: bool },
    Close,
    Release,
    Pass,
}

impl View for Action {
    type V = ActionView;

    open spec fn view(&self) -> ActionView {
        match *self {
            Action::Attach => ActionView::Attach,
            Action::Borderless => ActionView::Borderless,
            Action::Draw(commands) => ActionView::Draw(draw_ops(commands@)),
            Action::Hover { cursor, redraw } => ActionView::Hover { cursor, redraw },
            Action::Close => ActionView::Close,
            Action::Release => ActionView::Release,
            Action::Pass => ActionView::Pass,
        }
    }
}

/// Whether the pointer position packed into `lparam` is strictly inside the
/// close button.
pub open spec fn over_close_button(lparam: int) -> bool {
    close_btn_rect().strictly_contains(
        signed_low_word(lparam),
        signed_low_word(lparam / 0x1_0000),
    )
}

/// The drawing of a window: the background, the icon if there is one, the
/// close button in the colour of its hover state, the application name, the
/// summary in bold, and the body wrapped into the space that is left.
pub open spec fn drawing(data: WindowDataView) -> Seq<DrawOp> {
    let notification = data.notification;
    let icon = match notification.icon {
        Some(rgba) => seq![
            DrawOp::Icon {
                image: icon_image(rgba, notification.icon_width, notification.icon_height),
                x: 16,
                y: 16,
                width: 16,
                height: 16,
            },
        ],
        None => Seq::empty(),
    };
    seq![DrawOp::Background { color: WC }] + icon + seq![
        DrawOp::CloseGlyph {
            rect: close_btn_rect(),
            color: if data.mouse_hovering_close_btn {
                TC
            } else {
                SC
            },
            pen_width: 2,
        },
        DrawOp::Text {
            x: 40,
            y: 16,
            color: TC,
            size: 15,
            weight: 400,
            text: wide(notification.appname),
        },
        DrawOp::Text {
            x: 16,
            y: 40,
            color: TC,
            size: 17,
            weight: 700,
            text: wide(notification.summary),
        },
        DrawOp::Paragraph {
            rect: body_rect(),
            color: SC,
            size: 17,
            weight: 400,
            text: wide(notification.body),
        },
    ]
}

/// The window's state after a message: creation records the handle, a
/// pointer move records whether the pointer is over the close button, and
/// nothing else changes anything.
pub open spec fn next_state(
    data: WindowDataView,
    hwnd: isize,
    msg: Message,
    lparam: int,
) -> WindowDataView {
    match msg {
        Message::Create => WindowDataView { window: hwnd, ..data },
        Message::MouseMove => WindowDataView {
            mouse_hovering_close_btn: over_close_button(lparam),
            ..data
        },
        _ => data,
    }
}

/// What a window with the given data does on a message.
pub open spec fn reaction(data: WindowDataView, msg: Message, lparam: int) -> ActionView {
    match msg {
        Message::NcCreate => ActionView::Pass,
        Message::NcCalcSize => ActionView::Borderless,
        Message::Create => ActionView::Pass,
        Message::Paint => ActionView::Draw(drawing(data)),
        Message::MouseMove => ActionView::Hover {
            cursor: if over_close_button(lparam) {
                Cursor::Hand
            } else {
                Cursor::Arrow
            },
            redraw: over_close_button(lparam) != data.mouse_hovering_close_btn,
        },
        Message::LButtonDown => if over_close_button(lparam) {
            ActionView::Close
        } else {
            ActionView::Pass
        },
        Message::Destroy => ActionView::Release,
        Message::Other => ActionView::Pass,
    }
}

/// What a window does on a message while it has no data: it takes its data
/// on `NcCreate`, has no frame, and closes on a press of the close button;
/// there is nothing to draw, to update or to release.
pub open spec fn reaction_without_data(msg: Message, lparam: int) -> ActionView {
    match msg {
        Message::NcCreate => ActionView::Attach,
        Message::NcCalcSize => ActionView::Borderless,
        Message::LButtonDown => if over_close_button(lparam) {
            ActionView::Close
        } else {
            ActionView::Pass
        },
        _ => ActionView::Pass,
    }
}

impl WindowData {
    /// The data of a window that is about to be created for `notification`:
    /// a copy of the notification, no handle yet, the pointer elsewhere.
    pub fn new(notification: &Notification) -> (data: WindowData)
        ensures
            data@ == (WindowDataView {
                window: 0,
                notification: notification@,
                mouse_hovering_close_btn: false,
            }),
    {
        WindowData {
            window: 0,
            mouse_hovering_close_btn: false,
            notification: notification.clone(),
        }
    }
}

/// Whether the pointer position packed into `lparam` hits the close button.
pub fn hits_close_button(lparam: isize) -> (hit: bool)
    ensures
        hit == over_close_button(lparam as int),
{
    let x: i16 = GET_X_LPARAM(lparam);
    let y: i16 = GET_Y_LPARAM(lparam);
    rect_contains(close_button(), x as i32, y as i32)
}

/// The steps that draw the window.
pub fn paint(data: &WindowData) -> (commands: Vec<DrawCommand>)
    ensures
        draw_ops(commands@) == drawing(data@),
{
    let notification = &data.notification;
    let mut commands: Vec<DrawCommand> = Vec::new();
    commands.push(DrawCommand::Background { color: WC });
    match notification.icon_rgba() {
        Some(rgba) => {
            let (width, height) = notification.icon_size();
            let image = get_hicon_from_32bpp_rgba(rgba.clone(), width, height);
            commands.push(DrawCommand::Icon { image, x: NM, y: NM, width: NIS, height: NIS });
        },
        None => {},
    }
    let color: u32 = if data.mouse_hovering_close_btn {
        TC
    } else {
        SC
    };
    commands.push(
        DrawCommand::CloseGlyph { rect: close_button(), color, pen_width: CLOSE_BTN_PEN },
    );
    commands.push(
        DrawCommand::Text {
            x: NM + NIS + (NM / 2),
            y: NM,
            color: TC,
            size: APPNAME_SIZE,
            weight: NORMAL,
            text: encode_wide(notification.app_name()),
        },
    );
    commands.push(
        DrawCommand::Text {
            x: NM,
            y: NM + NIS + (NM / 2),
            color: TC,
            size: TEXT_SIZE,
            weight: BOLD,
            text: encode_wide(notification.title()),
        },
    );
    commands.push(
        DrawCommand::Paragraph {
            rect: body_area(),
            color: SC,
            size: TEXT_SIZE,
            weight: NORMAL,
            text: encode_wide(notification.text()),
        },
    );
    assert(draw_ops(commands@) =~= drawing(data@));
    commands
}

/// The window procedure's decisions: takes the window's data, if the window
/// has its data yet, and a message, updates the data and says what the
/// platform has to do.
pub fn window_proc(
    data: Option<&mut WindowData>,
    hwnd: isize,
    msg: Message,
    wparam: usize,
    lparam: isize,
) -> (action: Action)
    ensures
        match data {
            Some(state) => {
                &&& final(state)@ == next_state(state@, hwnd, msg, lparam as int)
                &&& action@ == reaction(state@, msg, lparam as int)
            },
            None => action@ == reaction_without_data(msg, lparam as int),
        },
{
    match data {
        Some(state) => match msg {
            Message::NcCalcSize => Action::Borderless,
            Message::Create => {
                state.window = hwnd;
                Action::Pass
            },
            Message::Paint => Action::Draw(paint(state)),
            Message::MouseMove => {
                let hit = hits_close_button(lparam);
                let cursor = if hit {
                    Cursor::Hand
                } else {
                    Cursor::Arrow
                };
                let redraw = hit != state.mouse_hovering_close_btn;
                state.mouse_hovering_close_btn = hit;
                Action::Hover { cursor, redraw }
            },
            Message::LButtonDown => {
                if hits_close_button(lparam) {
                    Action::Close
                } else {
                    Action::Pass
                }
            },
            Message::Destroy => Action::Release,
            Message::NcCreate | Message::Other => Action::Pass,
        },
        None => match msg {
            Message::NcCreate => Action::Attach,
            Message::NcCalcSize => Action::Borderless,
            Message::LButtonDown => {
                if hits_close_button(lparam) {
                    Action::Close
                } else {
                    Action::Pass
                }
            },
            _ => Action::Pass,
        },
    }
}

} // verus!
