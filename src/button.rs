use vstd::prelude::*;

verus! {

/// A touch-sensitive area of the screen.
pub enum Button {
    /// A square with its top-left corner at (`x`, `y`), `len` pixels wide and high,
    /// that selects `color` when touched.
    ColorSquareButton { x: u16, y: u16, len: u16, color: u16 },
}

impl Button {
    /// Whether the point (`px`, `py`) lies in the button, its borders included.
    pub open spec fn contains(self, px: int, py: int) -> bool {
        match self {
            Button::ColorSquareButton { x, y, len, .. } => {
                &&& x <= px <= x + len
                &&& y <= py <= y + len
            },
        }
    }

    /// Whether a touch at (`touch_x`, `touch_y`) falls inside the button.
    pub fn touched_inside(&self, touch_x: u16, touch_y: u16) -> (r: bool)
        ensures
            r == self.contains(touch_x as int, touch_y as int),
    {
        match self {
            Button::ColorSquareButton { x, y, len, .. } => {
                let right: u32 = *x as u32 + *len as u32;
                let bottom: u32 = *y as u32 + *len as u32;
                *x <= touch_x && (touch_x as u32) <= right && *y <= touch_y && (touch_y as u32)
                    <= bottom
            },
        }
    }
}

/// The index of the first button of `bs` that contains the point (`x`, `y`).
pub open spec fn first_touched(bs: Seq<Button>, x: int, y: int) -> Option<int>
    decreases bs.len(),
{
    if bs.len() == 0 {
        None
    } else if bs[0].contains(x, y) {
        Some(0)
    } else {
        match first_touched(bs.drop_first(), x, y) {
            Some(i) => Some(i + 1),
            None => None,
        }
    }
}

/// The colour of a button.
pub open spec fn color_of(b: Button) -> u16 {
    match b {
        Button::ColorSquareButton { color, .. } => color,
    }
}

/// A column of colour buttons and the colour that touches elsewhere draw in.
pub struct ColorPicker {
    pub buttons: Vec<Button>,
    pub touch_color: u16,
}

impl ColorPicker {
    /// Four 50-pixel buttons down the left edge (white, then three colours),
    /// with white selected.
    pub fn new() -> (r: ColorPicker)
        ensures
            r.touch_color == 0xffff,
            r.buttons@ == seq![
                Button::ColorSquareButton { x: 10, y: 10, len: 50, color: 0xffff },
                Button::ColorSquareButton { x: 10, y: 70, len: 50, color: 0xff00 },
                Button::ColorSquareButton { x: 10, y: 130, len: 50, color: 0xaacc },
                Button::ColorSquareButton { x: 10, y: 190, len: 50, color: 0xccaa },
            ],
    {
        let touch_color: u16 = 0xffff;
        let mut buttons: Vec<Button> = Vec::new();
        buttons.push(Button::ColorSquareButton { x: 10, y: 10, len: 50, color: touch_color });
        buttons.push(Button::ColorSquareButton { x: 10, y: 70, len: 50, color: 0xff00 });
        buttons.push(Button::ColorSquareButton { x: 10, y: 130, len: 50, color: 0xaacc });
        buttons.push(Button::ColorSquareButton { x: 10, y: 190, len: 50, color: 0xccaa });
        ColorPicker { buttons, touch_color }
    }

    /// Handles a touch at (`x`, `y`): a touch on a button selects the colour
    /// of the first such button; any other touch is a point to draw in the
    /// selected colour, and the result says so.
    pub fn touch(&mut self, x: u16, y: u16) -> (draw: bool)
        ensures
            final(self).buttons == old(self).buttons,
            match first_touched(old(self).buttons@, x as int, y as int) {
                Some(i) => !draw && final(self).touch_color == color_of(old(self).buttons@[i]),
                None => draw && final(self).touch_color == old(self).touch_color,
            },
    {
        let n = self.buttons.len();
        let mut k: usize = 0;
        assert(self.buttons@.subrange(0, n as int) =~= self.buttons@);
        while k < n
            invariant
                n == self.buttons@.len(),
                k <= n,
                *self == *old(self),
                first_touched(self.buttons@, x as int, y as int) == (match first_touched(
                    self.buttons@.subrange(k as int, n as int),
                    x as int,
                    y as int,
                ) {
                    Some(i) => Some(i + k),
                    None => None,
                }),
            decreases n - k,
        {
            proof {
                let rest = self.buttons@.subrange(k as int, n as int);
                assert(rest.drop_first() =~= self.buttons@.subrange(k + 1, n as int));
            }
            if self.buttons[k].touched_inside(x, y) {
                let color = match &self.buttons[k] {
                    Button::ColorSquareButton { color, .. } => *color,
                };
                self.touch_color = color;
                return false;
            }
            k = k + 1;
        }
        true
    }
}

} // verus!
