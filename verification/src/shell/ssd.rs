//! The decorations that the compositor draws around windows: the header bar
//! with its buttons, and the border.
use vstd::prelude::*;
use crate::config::{
    border_color, inactive_border_color, opaque_black, opaque_grey, Color, CornerRadius,
    ShadowConfig,
};
use crate::float::{F32, F64};
use crate::render_helpers::border::{colors_equal, same_color};

verus! {

/// A filled rectangle.
#[derive(Clone, Copy, Debug, PartialEq, Eq, Structural)]
pub struct Fill {
    pub w: i32,
    pub h: i32,
    pub color: Color,
}

pub open spec fn bits_color(r: u32, g: u32, b: u32, a: u32) -> Color {
    Color { r: F32 { bits: r }, g: F32 { bits: g }, b: F32 { bits: b }, a: F32 { bits: a } }
}

fn color(r: u32, g: u32, b: u32, a: u32) -> (c: Color)
    ensures
        c == bits_color(r, g, b, a),
{
    Color { r: F32 { bits: r }, g: F32 { bits: g }, b: F32 { bits: b }, a: F32 { bits: a } }
}

/// Nothing drawn yet.
pub open spec fn blank() -> Fill {
    Fill { w: 0, h: 0, color: bits_color(0, 0, 0, 0) }
}

fn no_fill() -> (f: Fill)
    ensures
        f == blank(),
{
    Fill { w: 0, h: 0, color: color(0, 0, 0, 0) }
}

/// Height of the header bar, in logical pixels.
pub const HEADER_BAR_HEIGHT: i32 = 32;

/// Width of each of its buttons.
pub const BUTTON_WIDTH: u32 = 32;

/// 0.75, 0.9, 0.78, 1.
pub open spec fn bar_color() -> Color {
    bits_color(0x3F40_0000, 0x3F66_6666, 0x3F47_AE14, 0x3F80_0000)
}

/// 1, 0.66, 0.612, 1; and 0.75, 0.11, 0.016, 1 under the pointer.
pub open spec fn close_color(hover: bool) -> Color {
    if hover {
        bits_color(0x3F40_0000, 0x3DE1_47AE, 0x3C83_126F, 0x3F80_0000)
    } else {
        bits_color(0x3F80_0000, 0x3F28_F5C3, 0x3F1C_AC08, 0x3F80_0000)
    }
}

/// 1, 0.965, 0.71, 1; and 0.71, 0.624, 0, 1 under the pointer.
pub open spec fn maximize_color(hover: bool) -> Color {
    if hover {
        bits_color(0x3F35_C28F, 0x3F1F_BE77, 0, 0x3F80_0000)
    } else {
        bits_color(0x3F80_0000, 0x3F77_0A3D, 0x3F35_C28F, 0x3F80_0000)
    }
}

/// A button of the header bar.
pub open spec fn button(color: Color) -> Fill {
    Fill { w: 32, h: 32, color }
}

/// Where the pointer is on a header bar.
#[derive(Clone, Copy, Debug, PartialEq, Eq, Structural)]
pub enum Zone {
    Close,
    Maximize,
    /// On the bar, beside the buttons.
    Bar,
    /// Not on the bar.
    Away,
}

/// What a press or a touch on a header bar asks for.
#[derive(Clone, Copy, Debug, PartialEq, Eq, Structural)]
pub enum BarAction {
    Close,
    Maximize,
    Move,
    Nothing,
}

/// The header bar of a window.
#[derive(Clone, Copy, Debug, PartialEq, Eq, Structural)]
pub struct HeaderBar {
    /// Where the pointer is, if it is on the bar: the distance from the left.
    pub pointer_loc: Option<F64>,
    pub width: u32,
    pub close_button_hover: bool,
    pub maximize_button_hover: bool,
    pub background: Fill,
    pub close_button: Fill,
    pub maximize_button: Fill,
}

/// Whether the pointer is over the close button of a bar, the one at its right
/// end.
pub open spec fn over_close(pointer: Option<F64>, width: u32) -> bool {
    match pointer {
        Some(x) => F64::of_int(width - 32).at_most(x),
        None => false,
    }
}

/// Whether the pointer is over the maximize button, the one to its left. On the
/// line between them it is over both.
pub open spec fn over_maximize(pointer: Option<F64>, width: u32) -> bool {
    match pointer {
        Some(x) => F64::of_int(width - 64).at_most(x) && x.at_most(F64::of_int(width - 32)),
        None => false,
    }
}

impl HeaderBar {
    /// A bar that was not drawn yet.
    pub open spec fn empty() -> HeaderBar {
        HeaderBar {
            pointer_loc: None,
            width: 0,
            close_button_hover: false,
            maximize_button_hover: false,
            background: blank(),
            close_button: blank(),
            maximize_button: blank(),
        }
    }

    pub fn new() -> (b: HeaderBar)
        ensures
            b == HeaderBar::empty(),
    {
        HeaderBar {
            pointer_loc: None,
            width: 0,
            close_button_hover: false,
            maximize_button_hover: false,
            background: no_fill(),
            close_button: no_fill(),
            maximize_button: no_fill(),
        }
    }

    /// The bar is wide enough for the buttons that the pointer is tested
    /// against.
    pub open spec fn has_room(self) -> bool {
        match self.pointer_loc {
            Some(x) => self.width >= 32 && (F64::of_int(self.width - 32).at_most(x) || self.width
                >= 64),
            None => true,
        }
    }

    pub open spec fn zone(self) -> Zone {
        match self.pointer_loc {
            None => Zone::Away,
            Some(x) => if F64::of_int(self.width - 32).at_most(x) {
                Zone::Close
            } else if F64::of_int(self.width - 64).at_most(x) {
                Zone::Maximize
            } else {
                Zone::Bar
            },
        }
    }

    fn find_zone(&self) -> (z: Zone)
        requires
            self.has_room(),
        ensures
            z == self.zone(),
    {
        match self.pointer_loc {
            None => Zone::Away,
            Some(x) => {
                if F64::from_u32(self.width - BUTTON_WIDTH).le(x) {
                    return Zone::Close;
                }
                if F64::from_u32(self.width - BUTTON_WIDTH * 2).le(x) {
                    Zone::Maximize
                } else {
                    Zone::Bar
                }
            },
        }
    }

    pub fn pointer_enter(&mut self, x: F64)
        ensures
            *final(self) == (HeaderBar { pointer_loc: Some(x), ..*old(self) }),
    {
        self.pointer_loc = Some(x);
    }

    pub fn pointer_leave(&mut self)
        ensures
            *final(self) == (HeaderBar { pointer_loc: None, ..*old(self) }),
    {
        self.pointer_loc = None;
    }

    /// A press of a pointer button: the buttons do what they say, and the rest
    /// of the bar moves the window.
    pub fn clicked(&self) -> (a: BarAction)
        requires
            self.has_room(),
        ensures
            a == (match self.zone() {
                Zone::Close => BarAction::Close,
                Zone::Maximize => BarAction::Maximize,
                Zone::Bar => BarAction::Move,
                Zone::Away => BarAction::Nothing,
            }),
    {
        match self.find_zone() {
            Zone::Close => BarAction::Close,
            Zone::Maximize => BarAction::Maximize,
            Zone::Bar => BarAction::Move,
            Zone::Away => BarAction::Nothing,
        }
    }

    /// A finger comes down: beside the buttons it moves the window.
    pub fn touch_down(&self) -> (a: BarAction)
        requires
            self.has_room(),
        ensures
            a == (if self.zone() == Zone::Bar {
                BarAction::Move
            } else {
                BarAction::Nothing
            }),
    {
        match self.find_zone() {
            Zone::Bar => BarAction::Move,
            _ => BarAction::Nothing,
        }
    }

    /// A finger goes up: on a button it does what the button says.
    pub fn touch_up(&self) -> (a: BarAction)
        requires
            self.has_room(),
        ensures
            a == (match self.zone() {
                Zone::Close => BarAction::Close,
                Zone::Maximize => BarAction::Maximize,
                _ => BarAction::Nothing,
            }),
    {
        match self.find_zone() {
            Zone::Close => BarAction::Close,
            Zone::Maximize => BarAction::Maximize,
            _ => BarAction::Nothing,
        }
    }

    /// The bar drawn with a width. A button is painted anew where its colour or
    /// the width changes; a bar without a width only forgets its own.
    pub open spec fn redrawn(self, width: u32) -> HeaderBar {
        if width == 0 {
            HeaderBar { width: 0, ..self }
        } else {
            let close = over_close(self.pointer_loc, width);
            let maximize = over_maximize(self.pointer_loc, width);
            HeaderBar {
                pointer_loc: self.pointer_loc,
                width,
                close_button_hover: close,
                maximize_button_hover: maximize,
                background: Fill { w: width as i32, h: HEADER_BAR_HEIGHT, color: bar_color() },
                close_button: if width != self.width || close != self.close_button_hover {
                    button(close_color(close))
                } else {
                    self.close_button
                },
                maximize_button: if width != self.width || maximize != self.maximize_button_hover {
                    button(maximize_color(maximize))
                } else {
                    self.maximize_button
                },
            }
        }
    }

    /// Draws the bar with a width.
    pub fn redraw(&mut self, width: u32)
        requires
            width == 0 || width >= 64 || old(self).pointer_loc is None,
        ensures
            *final(self) == old(self).redrawn(width),
    {
        if width == 0 {
            self.width = 0;
            return;
        }
        let pixels: i32 = #[verifier::truncate]
        (width as i32);
        self.background = Fill {
            w: pixels,
            h: HEADER_BAR_HEIGHT,
            color: color(0x3F40_0000, 0x3F66_6666, 0x3F47_AE14, 0x3F80_0000),
        };
        let resized = width != self.width;
        self.width = width;
        let (close, maximize) = match self.pointer_loc {
            Some(x) => {
                let first: F64 = F64::from_u32(width - BUTTON_WIDTH * 2);
                let second: F64 = F64::from_u32(width - BUTTON_WIDTH);
                (second.le(x), first.le(x) && x.le(second))
            },
            None => (false, false),
        };
        if resized || close != self.close_button_hover {
            self.close_button = Fill {
                w: 32,
                h: 32,
                color: if close {
                    color(0x3F40_0000, 0x3DE1_47AE, 0x3C83_126F, 0x3F80_0000)
                } else {
                    color(0x3F80_0000, 0x3F28_F5C3, 0x3F1C_AC08, 0x3F80_0000)
                },
            };
            self.close_button_hover = close;
        }
        if resized || maximize != self.maximize_button_hover {
            self.maximize_button = Fill {
                w: 32,
                h: 32,
                color: if maximize {
                    color(0x3F35_C28F, 0x3F1F_BE77, 0, 0x3F80_0000)
                } else {
                    color(0x3F80_0000, 0x3F77_0A3D, 0x3F35_C28F, 0x3F80_0000)
                },
            };
            self.maximize_button_hover = maximize;
        }
    }

    /// The buttons show whether the pointer is over them.
    pub open spec fn is_painted(self) -> bool {
        self.width != 0 ==> {
            &&& self.close_button == button(close_color(self.close_button_hover))
            &&& self.maximize_button == button(maximize_color(self.maximize_button_hover))
        }
    }
}

/// However a bar is drawn from the start, its buttons show whether the pointer
/// is over them, and drawing it again changes nothing.
pub proof fn buttons_show_the_pointer(bar: HeaderBar, width: u32)
    requires
        bar.is_painted(),
    ensures
        HeaderBar::empty().is_painted(),
        bar.redrawn(width).is_painted(),
        width != 0 ==> bar.redrawn(width).close_button == button(
            close_color(over_close(bar.pointer_loc, width)),
        ),
        bar.redrawn(width).redrawn(width) == bar.redrawn(width),
{
}

/// A finger that comes down and goes up in one place does at most one of what a
/// press does there, and between them they do it.
pub proof fn touches_split_a_click(bar: HeaderBar, click: BarAction, down: BarAction, up: BarAction)
    requires
        click == (match bar.zone() {
            Zone::Close => BarAction::Close,
            Zone::Maximize => BarAction::Maximize,
            Zone::Bar => BarAction::Move,
            Zone::Away => BarAction::Nothing,
        }),
        down == (if bar.zone() == Zone::Bar {
            BarAction::Move
        } else {
            BarAction::Nothing
        }),
        up == (match bar.zone() {
            Zone::Close => BarAction::Close,
            Zone::Maximize => BarAction::Maximize,
            _ => BarAction::Nothing,
        }),
    ensures
        down == BarAction::Nothing || up == BarAction::Nothing,
        down == click || up == click,
{
}

/// The border of a window.
#[derive(Clone, Copy, Debug, PartialEq, Eq, Structural)]
pub struct BorderState {
    pub top: Fill,
    pub bottom: Fill,
    pub left: Fill,
    pub right: Fill,
    pub last_width: i32,
    pub last_height: i32,
    pub last_border_width: F64,
    pub last_color: Color,
    pub active_color: Color,
    pub inactive_color: Color,
    pub is_active: bool,
}

/// The bits of the distance between one and the next double.
pub const EPSILON_BITS: u64 = 0x3CB0_0000_0000_0000;

/// Whether a difference of two widths counts as none.
pub open spec fn is_tiny(difference: F64) -> bool {
    (F64 { bits: difference.magnitude() as u64 }).below(F64 { bits: EPSILON_BITS })
}

fn tiny(difference: F64) -> (r: bool)
    ensures
        r == is_tiny(difference),
{
    let size: u64 = if difference.bits < 0x8000_0000_0000_0000 {
        difference.bits
    } else {
        difference.bits - 0x8000_0000_0000_0000
    };
    (F64 { bits: size }).lt(F64 { bits: EPSILON_BITS })
}

/// Whether the border of a window of this size can be measured.
pub open spec fn border_fits(w: i32, h: i32, border: F64) -> bool {
    let b = border.truncated();
    &&& i32::MIN <= b * 2 <= i32::MAX
    &&& i32::MIN <= w + b * 2 <= i32::MAX
    &&& i32::MIN <= h + b * 2 <= i32::MAX
}

impl BorderState {
    /// A border that was not drawn yet.
    pub open spec fn empty() -> BorderState {
        BorderState {
            top: blank(),
            bottom: blank(),
            left: blank(),
            right: blank(),
            last_width: 0,
            last_height: 0,
            last_border_width: F64 { bits: 0 },
            last_color: bits_color(0, 0, 0, 0),
            active_color: opaque_black(),
            inactive_color: opaque_grey(),
            is_active: false,
        }
    }

    pub fn set_colors(&mut self, active_color: Color, inactive_color: Color)
        ensures
            *final(self) == (BorderState { active_color, inactive_color, ..*old(self) }),
    {
        self.active_color = active_color;
        self.inactive_color = inactive_color;
    }

    /// Nothing to draw: size, width and colour are as they were last.
    pub open spec fn is_current(self, w: i32, h: i32, difference: F64, color: Color) -> bool {
        &&& w == self.last_width
        &&& h == self.last_height
        &&& is_tiny(difference)
        &&& same_color(color, self.last_color)
    }

    /// The border drawn around a window of `w` by `h`: bars over its whole width
    /// above and below, and beside it bars of its own height.
    pub open spec fn redrawn(self, w: i32, h: i32, border: F64, difference: F64, color: Color) -> BorderState {
        if self.is_current(w, h, difference, color) {
            self
        } else {
            let b = border.truncated();
            let across = Fill { w: (w + b * 2) as i32, h: b as i32, color };
            let along = Fill { w: b as i32, h, color };
            BorderState {
                top: across,
                bottom: across,
                left: along,
                right: along,
                last_width: w,
                last_height: h,
                last_border_width: border,
                last_color: color,
                ..self
            }
        }
    }

    /// Draws the border. `difference` is by how much its width differs from the
    /// last one.
    pub fn redraw(
        &mut self,
        window_w: i32,
        window_h: i32,
        border_width: F64,
        difference: F64,
        color: Color,
    )
        requires
            old(self).is_current(window_w, window_h, difference, color) || border_fits(
                window_w,
                window_h,
                border_width,
            ),
        ensures
            *final(self) == old(self).redrawn(window_w, window_h, border_width, difference, color),
    {
        if window_w == self.last_width && window_h == self.last_height && tiny(difference)
            && colors_equal(&color, &self.last_color) {
            return;
        }
        let b: i32 = border_width.trunc_i32();
        let across = Fill { w: window_w + b * 2, h: b, color };
        let along = Fill { w: b, h: window_h, color };
        self.top = across;
        self.bottom = across;
        self.left = along;
        self.right = along;
        self.last_width = window_w;
        self.last_height = window_h;
        self.last_border_width = border_width;
        self.last_color = color;
    }

    pub open spec fn color_for(self, active: bool) -> Color {
        if active {
            self.active_color
        } else {
            self.inactive_color
        }
    }

    pub open spec fn activated(self, active: bool, w: i32, h: i32, border: F64, difference: F64) -> BorderState {
        if self.is_active == active {
            self
        } else {
            (BorderState { is_active: active, ..self }).redrawn(
                w,
                h,
                border,
                difference,
                self.color_for(active),
            )
        }
    }

    /// Draws the border in the colour of an active or an inactive window, where
    /// that changes.
    pub fn set_active(
        &mut self,
        active: bool,
        window_w: i32,
        window_h: i32,
        border_width: F64,
        difference: F64,
    )
        requires
            old(self).is_active == active || old(self).is_current(
                window_w,
                window_h,
                difference,
                old(self).color_for(active),
            ) || border_fits(window_w, window_h, border_width),
        ensures
            *final(self) == old(self).activated(
                active,
                window_w,
                window_h,
                border_width,
                difference,
            ),
    {
        if self.is_active == active {
            return;
        }
        self.is_active = active;
        let color = if active {
            self.active_color
        } else {
            self.inactive_color
        };
        self.redraw(window_w, window_h, border_width, difference, color);
    }
}

impl Default for BorderState {
    fn default() -> (b: BorderState)
        ensures
            b == BorderState::empty(),
    {
        BorderState {
            top: no_fill(),
            bottom: no_fill(),
            left: no_fill(),
            right: no_fill(),
            last_width: 0,
            last_height: 0,
            last_border_width: F64 { bits: 0 },
            last_color: color(0, 0, 0, 0),
            active_color: border_color(),
            inactive_color: inactive_border_color(),
            is_active: false,
        }
    }
}

/// The decorations of a window.
#[derive(Clone, Copy, Debug, PartialEq, Eq, Structural)]
pub struct WindowState {
    pub is_ssd: bool,
    pub header_bar: HeaderBar,
    pub border: BorderState,
    pub shadow: ShadowConfig,
    pub corner_radius: CornerRadius,
}

/// What the pointer or a finger does on the decorations of a window.
#[derive(Clone, Copy, Debug, PartialEq, Eq, Structural)]
pub enum DecorationEvent {
    /// The pointer enters, or moves on them.
    Motion { x: F64 },
    Leave,
    Button,
    TouchDown { x: F64 },
    TouchUp,
    TouchMotion { x: F64 },
    /// Scrolling, gestures and the like.
    Other,
}

impl WindowState {
    /// A window that is not decorated.
    pub fn new() -> (s: WindowState)
        ensures
            s == (WindowState {
                is_ssd: false,
                header_bar: HeaderBar::empty(),
                border: BorderState::empty(),
                shadow: ShadowConfig::standard(),
                corner_radius: CornerRadius::all(F32 { bits: 0 }),
            }),
    {
        WindowState {
            is_ssd: false,
            header_bar: HeaderBar::new(),
            border: BorderState::default(),
            shadow: ShadowConfig::default(),
            corner_radius: CornerRadius::uniform(F32 { bits: 0 }),
        }
    }

    /// Windows have no header bar, whatever they ask for.
    pub fn set_ssd(&mut self, ssd: bool)
        ensures
            *final(self) == (WindowState { is_ssd: false, ..*old(self) }),
    {
        self.is_ssd = false;
    }

    /// The header bar after an event.
    pub open spec fn bar_after(self, event: DecorationEvent) -> HeaderBar {
        if !self.is_ssd {
            self.header_bar
        } else {
            match event {
                DecorationEvent::Motion { x } => HeaderBar { pointer_loc: Some(x), ..self.header_bar },
                DecorationEvent::TouchDown { x } => HeaderBar {
                    pointer_loc: Some(x),
                    ..self.header_bar
                },
                DecorationEvent::TouchMotion { x } => HeaderBar {
                    pointer_loc: Some(x),
                    ..self.header_bar
                },
                DecorationEvent::Leave => HeaderBar { pointer_loc: None, ..self.header_bar },
                _ => self.header_bar,
            }
        }
    }

    /// What an event on the decorations asks for. A window without a header bar
    /// takes no notice of any.
    pub fn on_event(&mut self, event: DecorationEvent) -> (a: BarAction)
        requires
            old(self).is_ssd && (event is Button || event is TouchDown || event is TouchUp)
                ==> old(self).bar_after(event).has_room(),
        ensures
            *final(self) == (WindowState { header_bar: old(self).bar_after(event), ..*old(self) }),
            a == (if !old(self).is_ssd {
                BarAction::Nothing
            } else {
                let zone = old(self).bar_after(event).zone();
                match event {
                    DecorationEvent::Button => match zone {
                        Zone::Close => BarAction::Close,
                        Zone::Maximize => BarAction::Maximize,
                        Zone::Bar => BarAction::Move,
                        Zone::Away => BarAction::Nothing,
                    },
                    DecorationEvent::TouchDown { .. } => if zone == Zone::Bar {
                        BarAction::Move
                    } else {
                        BarAction::Nothing
                    },
                    DecorationEvent::TouchUp => match zone {
                        Zone::Close => BarAction::Close,
                        Zone::Maximize => BarAction::Maximize,
                        _ => BarAction::Nothing,
                    },
                    _ => BarAction::Nothing,
                }
            }),
    {
        if !self.is_ssd {
            return BarAction::Nothing;
        }
        match event {
            DecorationEvent::Motion { x } => {
                self.header_bar.pointer_enter(x);
                BarAction::Nothing
            },
            DecorationEvent::TouchMotion { x } => {
                self.header_bar.pointer_enter(x);
                BarAction::Nothing
            },
            DecorationEvent::Leave => {
                self.header_bar.pointer_leave();
                BarAction::Nothing
            },
            DecorationEvent::Button => self.header_bar.clicked(),
            DecorationEvent::TouchDown { x } => {
                self.header_bar.pointer_enter(x);
                self.header_bar.touch_down()
            },
            DecorationEvent::TouchUp => self.header_bar.touch_up(),
            DecorationEvent::Other => BarAction::Nothing,
        }
    }
}

/// The bar is read from the right: the last thirty-two are the close button, the
/// thirty-two before them the maximize button, and the rest is the bar; nothing
/// of it is under a pointer that is away.
pub proof fn buttons_are_on_the_right(bar: HeaderBar)
    ensures
        bar.pointer_loc is None <==> bar.zone() is Away,
        bar.pointer_loc matches Some(x) ==> {
            &&& bar.zone() is Close <==> F64::of_int(bar.width - 32).at_most(x)
            &&& bar.zone() is Maximize <==> !F64::of_int(bar.width - 32).at_most(x) && F64::of_int(
                bar.width - 64,
            ).at_most(x)
            &&& bar.zone() is Bar <==> !F64::of_int(bar.width - 32).at_most(x) && !F64::of_int(
                bar.width - 64,
            ).at_most(x)
        },
        over_close(bar.pointer_loc, bar.width) <==> bar.zone() is Close,
        bar.zone() is Bar || bar.zone() is Away ==> !over_maximize(bar.pointer_loc, bar.width),
{
}

/// A bar that is drawn is as wide as it was asked to be and thirty-two high, with
/// square buttons; the close button is reddish and the maximize button yellowish,
/// and either is darker under the pointer.
pub proof fn bars_are_drawn_as_wide_as_asked(bar: HeaderBar, width: u32)
    requires
        bar.is_painted(),
        0 < width <= i32::MAX,
    ensures
        ({
            let drawn = bar.redrawn(width);
            &&& drawn.width == width && drawn.background.w == width && drawn.background.h == 32
            &&& drawn.close_button.w == 32 && drawn.close_button.h == 32
            &&& drawn.maximize_button.w == 32 && drawn.maximize_button.h == 32
            &&& drawn.pointer_loc == bar.pointer_loc
            &&& drawn.close_button_hover == over_close(bar.pointer_loc, width)
            &&& drawn.maximize_button_hover == over_maximize(bar.pointer_loc, width)
            &&& drawn.close_button.color.r.bits == (if drawn.close_button_hover {
                0x3F40_0000u32
            } else {
                0x3F80_0000u32
            })
            &&& drawn.maximize_button.color.b.bits == (if drawn.maximize_button_hover {
                0u32
            } else {
                0x3F35_C28Fu32
            })
        }),
        bar.redrawn(0).width == 0 && bar.redrawn(0).pointer_loc == bar.pointer_loc,
{
}

/// A border lies around its window: its upper and lower bars are as long as the
/// window with the border on both sides, its side bars as long as the window, and
/// all four are as thick as the border and of its colour.
pub proof fn borders_go_around_the_window(
    state: BorderState,
    w: i32,
    h: i32,
    border: F64,
    difference: F64,
    color: Color,
)
    requires
        border_fits(w, h, border),
        !state.is_current(w, h, difference, color),
    ensures
        ({
            let s = state.redrawn(w, h, border, difference, color);
            &&& s.top == s.bottom && s.left == s.right
            &&& s.top.w == w + 2 * border.truncated() && s.top.h == border.truncated()
            &&& s.left.w == border.truncated() && s.left.h == h
            &&& s.top.color == color && s.left.color == color
            &&& s.last_width == w && s.last_height == h && s.last_border_width == border
                && s.last_color == color
            &&& s.is_active == state.is_active && s.active_color == state.active_color
                && s.inactive_color == state.inactive_color
        }),
{
}

/// A border that is as it was asked for is left alone.
pub proof fn current_borders_stay(
    state: BorderState,
    w: i32,
    h: i32,
    border: F64,
    difference: F64,
    color: Color,
)
    ensures
        state.is_current(w, h, difference, color) ==> state.redrawn(w, h, border, difference, color)
            == state,
        w != state.last_width || h != state.last_height ==> !state.is_current(
            w,
            h,
            difference,
            color,
        ),
{
}

/// A window with the focus has the border's one colour, a window without it the
/// other, and the border changes only when the focus does.
pub proof fn borders_show_the_focus(
    state: BorderState,
    active: bool,
    w: i32,
    h: i32,
    border: F64,
    difference: F64,
)
    requires
        border_fits(w, h, border),
    ensures
        state.color_for(true) == state.active_color && state.color_for(false)
            == state.inactive_color,
        state.activated(active, w, h, border, difference).is_active == active,
        state.is_active == active ==> state.activated(active, w, h, border, difference) == state,
        state.is_active != active && active && !state.is_current(
            w,
            h,
            difference,
            state.active_color,
        ) ==> state.activated(active, w, h, border, difference).top.color == state.active_color,
        state.is_active != active && !active && !state.is_current(
            w,
            h,
            difference,
            state.inactive_color,
        ) ==> state.activated(active, w, h, border, difference).top.color == state.inactive_color,
{
}

/// The bar follows what points at it: it is entered where the pointer or the
/// finger is, left when the pointer leaves, and a window that draws its own bar
/// has none to follow.
pub proof fn bars_follow_the_pointer(state: WindowState, event: DecorationEvent)
    ensures
        !state.is_ssd ==> state.bar_after(event) == state.header_bar,
        state.is_ssd ==> {
            &&& event matches DecorationEvent::Motion { x } ==> state.bar_after(event).pointer_loc
                == Some(x)
            &&& event matches DecorationEvent::TouchDown { x } ==> state.bar_after(event).pointer_loc
                == Some(x)
            &&& event matches DecorationEvent::TouchMotion { x } ==> state.bar_after(
                event,
            ).pointer_loc == Some(x)
            &&& event is Leave ==> state.bar_after(event).pointer_loc is None
            &&& event is Button || event is TouchUp || event is Other ==> state.bar_after(event)
                == state.header_bar
        },
        state.bar_after(event) == (HeaderBar {
            pointer_loc: state.bar_after(event).pointer_loc,
            ..state.header_bar
        }),
{
}

} // verus!
