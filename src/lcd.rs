use vstd::prelude::*;

verus! {

/// Character capacity of each text row: narrow at the top and bottom of the
/// round panel, widest in the middle.
pub open spec fn line_capacity(idx: int) -> int {
    if idx == 0 || idx == 6 {
        7
    } else if idx == 1 || idx == 5 {
        11
    } else if idx == 2 || idx == 4 {
        13
    } else {
        14
    }
}

/// Horizontal pixel span `(start, end)` of a text row, end exclusive.
pub open spec fn line_x_range(idx: int) -> (u8, u8) {
    if idx == 0 || idx == 6 {
        (64, 176)
    } else if idx == 1 || idx == 5 {
        (32, 208)
    } else if idx == 2 || idx == 4 {
        (16, 224)
    } else {
        (8, 232)
    }
}

/// Vertical pixel span `(start, end)` of a text row, end exclusive: rows are
/// 30 pixels tall and stacked from y = 15 downwards.
pub open spec fn line_y_range(idx: int) -> (u8, u8) {
    ((15 + 30 * idx) as u8, (45 + 30 * idx) as u8)
}

/// Text held for each of the seven rows, one fixed-size array per row.
pub struct LcdBuf {
    pub line0: [u8; 7],
    pub line1: [u8; 11],
    pub line2: [u8; 13],
    pub line3: [u8; 14],
    pub line4: [u8; 13],
    pub line5: [u8; 11],
    pub line6: [u8; 7],
}

impl LcdBuf {
    /// The contents of row `idx` (for `idx < 7`).
    pub open spec fn line(&self, idx: int) -> Seq<u8> {
        if idx == 0 {
            self.line0@
        } else if idx == 1 {
            self.line1@
        } else if idx == 2 {
            self.line2@
        } else if idx == 3 {
            self.line3@
        } else if idx == 4 {
            self.line4@
        } else if idx == 5 {
            self.line5@
        } else {
            self.line6@
        }
    }

    /// Every row holds only spaces.
    pub open spec fn is_blank(&self) -> bool {
        forall|i: int, j: int|
            0 <= i < 7 && 0 <= j < line_capacity(i) ==> #[trigger] self.line(i)[j] == 0x20u8
    }

    /// A buffer whose rows are all spaces.
    pub fn new() -> (r: Self)
        ensures
            r.is_blank(),
    {
        Self {
            line0: [0x20u8; 7],
            line1: [0x20u8; 11],
            line2: [0x20u8; 13],
            line3: [0x20u8; 14],
            line4: [0x20u8; 13],
            line5: [0x20u8; 11],
            line6: [0x20u8; 7],
        }
    }

    /// The text of row `idx`, or `None` when there is no such row.
    pub fn get_line(&self, idx: u8) -> (r: Option<&[u8]>)
        ensures
            idx < 7 <==> r.is_some(),
            r.is_some() ==> r.unwrap()@ == self.line(idx as int),
            r.is_some() ==> r.unwrap()@.len() == line_capacity(idx as int),
    {
        match idx {
            0 => Some(self.line0.as_slice()),
            1 => Some(self.line1.as_slice()),
            2 => Some(self.line2.as_slice()),
            3 => Some(self.line3.as_slice()),
            4 => Some(self.line4.as_slice()),
            5 => Some(self.line5.as_slice()),
            6 => Some(self.line6.as_slice()),
            _ => None,
        }
    }

    /// Mutable access to the text of row `idx`, or `None` when there is no such row.
    pub fn get_line_mut(&mut self, idx: u8) -> (r: Option<&mut [u8]>)
        ensures
            idx < 7 <==> r.is_some(),
            r.is_some() ==> r.unwrap()@ == old(self).line(idx as int),
            r.is_some() ==> final(self).line(idx as int) == final(r.unwrap())@,
            forall|i: int| 0 <= i < 7 && i != idx ==> #[trigger] final(self).line(i) == old(self).line(i),
    {
        match idx {
            0 => Some(&mut self.line0),
            1 => Some(&mut self.line1),
            2 => Some(&mut self.line2),
            3 => Some(&mut self.line3),
            4 => Some(&mut self.line4),
            5 => Some(&mut self.line5),
            6 => Some(&mut self.line6),
            _ => None,
        }
    }

    /// The horizontal pixel span of row `idx`, or `None` when there is no such row.
    pub fn get_x_range(&self, idx: u8) -> (r: Option<(u8, u8)>)
        ensures
            idx < 7 <==> r.is_some(),
            r.is_some() ==> r.unwrap() == line_x_range(idx as int),
    {
        match idx {
            0 => Some((64, 176)),
            1 => Some((32, 208)),
            2 => Some((16, 224)),
            3 => Some((8, 232)),
            4 => Some((16, 224)),
            5 => Some((32, 208)),
            6 => Some((64, 176)),
            _ => None,
        }
    }

    /// The vertical pixel span of row `idx`, or `None` when there is no such row.
    pub fn get_y_range(&self, idx: u8) -> (r: Option<(u8, u8)>)
        ensures
            idx < 7 <==> r.is_some(),
            r.is_some() ==> r.unwrap() == line_y_range(idx as int),
    {
        match idx {
            0 => Some((15, 45)),
            1 => Some((45, 75)),
            2 => Some((75, 105)),
            3 => Some((105, 135)),
            4 => Some((135, 165)),
            5 => Some((165, 195)),
            6 => Some((195, 225)),
            _ => None,
        }
    }
}

} // verus!
