//! What the tray icon shows and does. The icon is drawn by the desktop's
//! StatusNotifier host; the application registers it.

use vstd::prelude::*;

use crate::app_runtime::{exiting, hidden, shown, toggled, visible, with_settings, quitting, AppRuntime, AppState, RuntimeView};

verus! {

/// The tray icon's behaviour, acting on the application's state.
#[derive(Debug)]
pub struct VerbaTray {
    runtime: AppRuntime,
}

/// The label of the first menu entry: `Minimize` while the window is
/// shown, `Open` otherwise.
pub open spec fn open_or_minimize_text(s: AppState) -> Seq<char> {
    if visible(s) {
        "Minimize"@
    } else {
        "Open"@
    }
}

/// The state after the first menu entry is chosen.
pub open spec fn opened_or_minimized(s: AppState) -> AppState {
    if visible(s) {
        hidden(s)
    } else {
        shown(s)
    }
}

impl VerbaTray {
    pub closed spec fn spec_runtime(&self) -> RuntimeView {
        self.runtime@
    }

    pub fn new(runtime: AppRuntime) -> (t: Self)
        ensures
            t.spec_runtime() == runtime@,
    {
        Self { runtime }
    }

    /// The state the tray acts on.
    pub fn runtime(&self) -> (r: &AppRuntime)
        ensures
            r@ == self.spec_runtime(),
    {
        &self.runtime
    }

    pub fn into_runtime(self) -> (r: AppRuntime)
        ensures
            r@ == self.spec_runtime(),
    {
        self.runtime
    }

    /// The icon's name in the icon theme.
    pub fn icon_name_static() -> (r: &'static str)
        ensures
            r@ == "verba"@,
    {
        "verba"
    }

    /// The picture used when the icon theme has none.
    pub fn icon_pixmaps_for_tests(&self) -> (r: Vec<IconPixmap>)
        ensures
            r@.len() == 1,
            r@[0].width == 32,
            r@[0].height == 32,
            r@[0].data@.len() == 32 * 32 * 4,
            forall|i: int| 0 <= i < 4096 ==> r@[0].data@[i] == #[trigger] icon_byte(i),
    {
        verba_icon_pixmap()
    }

    /// The menu's entries.
    pub fn menu_labels(&self) -> (r: [&'static str; 3])
        ensures
            r@[0]@ == open_or_minimize_text(self.spec_runtime().state),
            r@[1]@ == "Settings"@,
            r@[2]@ == "Exit"@,
    {
        [self.open_or_minimize_label(), "Settings", "Exit"]
    }

    pub fn open_or_minimize_label(&self) -> (r: &'static str)
        ensures
            r@ == open_or_minimize_text(self.spec_runtime().state),
    {
        if self.runtime.main_window_visible() {
            "Minimize"
        } else {
            "Open"
        }
    }

    /// Hides a shown window and shows a hidden one.
    pub fn open_or_minimize(&mut self)
        ensures
            final(self).spec_runtime() == (RuntimeView {
                state: opened_or_minimized(old(self).spec_runtime().state),
                ..old(self).spec_runtime()
            }),
    {
        if self.runtime.main_window_visible() {
            self.runtime.hide_main_window();
        } else {
            self.runtime.show_main_window();
        }
    }

    /// A left click toggles the window.
    pub fn left_click(&mut self)
        ensures
            final(self).spec_runtime() == (RuntimeView {
                state: toggled(old(self).spec_runtime().state),
                ..old(self).spec_runtime()
            }),
    {
        self.runtime.toggle_main_window();
    }

    pub fn open_settings(&mut self)
        ensures
            final(self).spec_runtime() == (RuntimeView {
                state: with_settings(old(self).spec_runtime().state),
                ..old(self).spec_runtime()
            }),
    {
        self.runtime.open_settings();
    }

    pub fn exit(&mut self)
        ensures
            final(self).spec_runtime() == (RuntimeView {
                state: quitting(old(self).spec_runtime().busy),
                ..old(self).spec_runtime()
            }),
    {
        self.runtime.quit();
    }
}

/// The first menu entry flips whether the window is shown, unless the
/// application is ending, and its label then names the opposite action.
pub proof fn lemma_open_or_minimize_flips(s: AppState)
    ensures
        !exiting(s) ==> visible(opened_or_minimized(s)) != visible(s),
        !exiting(s) ==> open_or_minimize_text(opened_or_minimized(s)) != open_or_minimize_text(s),
{
    reveal_strlit("Minimize");
    reveal_strlit("Open");
    assert("Minimize"@.len() != "Open"@.len());
}

/// Notices changes of the application's state between polls.
#[derive(Clone, Copy, Debug)]
pub struct TrayStateSync {
    last_state: AppState,
}

impl TrayStateSync {
    pub closed spec fn spec_last_state(&self) -> AppState {
        self.last_state
    }

    /// Starts from the state the application is in.
    pub fn new(initial: AppState) -> (s: Self)
        ensures
            s.spec_last_state() == initial,
    {
        Self { last_state: initial }
    }

    /// Whether the state differs from the one seen at the last poll; the
    /// given state becomes the one seen.
    pub fn poll_state_changed(&mut self, state: AppState) -> (changed: bool)
        ensures
            changed == (state != old(self).spec_last_state()),
            final(self).spec_last_state() == state,
    {
        if state == self.last_state {
            return false;
        }
        self.last_state = state;
        true
    }
}

/// A picture in ARGB32, row by row.
#[derive(Clone, Debug)]
pub struct IconPixmap {
    pub width: i32,
    pub height: i32,
    pub data: Vec<u8>,
}

/// The colour `(alpha, red, green, blue)` of a pixel of the tray picture:
/// a dark-framed window with a blue title bar, grey text lines and a blue
/// glyph, on transparency.
pub open spec fn icon_rgba(x: int, y: int) -> (u8, u8, u8, u8) {
    let glyph = 18 <= x <= 25 && 13 <= y <= 23;
    if !(3 <= x <= 28 && 5 <= y <= 26) {
        (0, 0, 0, 0)
    } else if x == 3 || x == 28 || y == 5 || y == 26 {
        (255, 31, 41, 55)
    } else if 6 <= y <= 9 {
        if y == 7 && (x == 7 || x == 10 || x == 13) {
            (255, 191, 219, 254)
        } else {
            (255, 37, 99, 235)
        }
    } else if ((7 <= x <= 14) && (y == 14 || y == 18 || y == 22)) || ((15 <= x <= 17) && y == 18) {
        (255, 148, 163, 184)
    } else if glyph && ((x == 21 && 13 <= y <= 23) || (y == 16 && 18 <= x <= 25) || (x + y == 41
        && 20 <= x <= 25) || (x + 3 == y + 18 && 18 <= x <= 22 && 18 <= y <= 22)) {
        (255, 37, 99, 235)
    } else if glyph && ((y == 20 && 18 <= x <= 25) || (x == 23 && 17 <= y <= 23)) {
        (255, 15, 23, 42)
    } else {
        (255, 248, 250, 252)
    }
}

/// Byte `i` of the 32 by 32 picture's ARGB data.
pub open spec fn icon_byte(i: int) -> u8 {
    let p = i / 4;
    let c = icon_rgba(p % 32, p / 32);
    let k = i % 4;
    if k == 0 {
        c.0
    } else if k == 1 {
        c.1
    } else if k == 2 {
        c.2
    } else {
        c.3
    }
}

/// The colour of one pixel; see [`icon_rgba`].
pub fn icon_pixel(x: usize, y: usize) -> (r: (u8, u8, u8, u8))
    ensures
        r == icon_rgba(x as int, y as int),
{
    let in_window = 3 <= x && x <= 28 && 5 <= y && y <= 26;
    if !in_window {
        return (0, 0, 0, 0);
    }
    if x == 3 || x == 28 || y == 5 || y == 26 {
        return (255, 31, 41, 55);
    }
    if 6 <= y && y <= 9 {
        if y == 7 && (x == 7 || x == 10 || x == 13) {
            return (255, 191, 219, 254);
        }
        return (255, 37, 99, 235);
    }
    if ((7 <= x && x <= 14) && (y == 14 || y == 18 || y == 22)) || ((15 <= x && x <= 17) && y
        == 18) {
        return (255, 148, 163, 184);
    }
    if 18 <= x && x <= 25 && 13 <= y && y <= 23 {
        if (x == 21 && 13 <= y && y <= 23) || (y == 16 && 18 <= x && x <= 25) || (x + y == 41 && 20
            <= x && x <= 25) || (x + 3 == y + 18 && 18 <= x && x <= 22 && 18 <= y && y <= 22) {
            return (255, 37, 99, 235);
        }
        if (y == 20 && 18 <= x && x <= 25) || (x == 23 && 17 <= y && y <= 23) {
            return (255, 15, 23, 42);
        }
    }
    (255, 248, 250, 252)
}

/// The tray picture: one 32 by 32 pixmap; see [`icon_byte`].
pub fn verba_icon_pixmap() -> (r: Vec<IconPixmap>)
    ensures
        r@.len() == 1,
        r@[0].width == 32,
        r@[0].height == 32,
        r@[0].data@.len() == 32 * 32 * 4,
        forall|i: int| 0 <= i < 4096 ==> r@[0].data@[i] == #[trigger] icon_byte(i),
{
    let mut data: Vec<u8> = Vec::new();
    for p in 0..1024usize
        invariant
            data@.len() == p * 4,
            forall|i: int| 0 <= i < p * 4 ==> data@[i] == #[trigger] icon_byte(i),
    {
        let (a, r, g, b) = icon_pixel(p % 32, p / 32);
        assert(icon_byte(4 * p as int) == a);
        assert(icon_byte(4 * p + 1) == r);
        assert(icon_byte(4 * p + 2) == g);
        assert(icon_byte(4 * p + 3) == b);
        data.push(a);
        data.push(r);
        data.push(g);
        data.push(b);
    }
    vec![IconPixmap { width: 32, height: 32, data }]
}

} // verus!
