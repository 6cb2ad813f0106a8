//! Words, colours and places on the reader-writer screen.
use vstd::prelude::*;

use crate::color::{Rgb, Tone};
use crate::layout::{in_column, Point};
use crate::reader_writer::coordinator::CoordinatorSnapshot;
use crate::reader_writer::store::{AppState, ThreadKind, ThreadStatus, ThreadVisual};
use crate::text::push_decimal;

verus! {

/// Cells in a row of the store.
pub const DATA_COLS: usize = 10;

/// Rows of the store.
pub const DATA_ROWS: usize = 20;

/// The side of a cell.
pub const CELL_SIZE: i64 = 20;

/// Pixels between two cells.
pub const CELL_GAP: i64 = 2;

/// The left edge of the store.
pub const DATA_LEFT: i64 = 390;

/// The upper edge of the store.
pub const DATA_TOP: i64 = 160;

/// Where the columns of threads start.
pub const THREAD_START_Y: i64 = 220;

/// Pixels from one thread to the next.
pub const THREAD_Y_STEP: i64 = 54;

/// A rectangle, by its upper left corner and its size.
#[derive(Clone, Copy, Debug, PartialEq, Eq, Structural)]
pub struct Area {
    pub corner: Point,
    pub width: i64,
    pub height: i64,
}

impl ThreadKind {
    /// The word for the kind.
    pub fn label(self) -> (text: &'static str)
        ensures
            text@ == thread_kind_label(self),
            self == ThreadKind::Reader ==> text@ == "Reader"@,
            self == ThreadKind::Writer ==> text@ == "Writer"@,
    {
        match self {
            ThreadKind::Reader => "Reader",
            ThreadKind::Writer => "Writer",
        }
    }
}

/// The word for a kind of thread.
pub open spec fn thread_kind_label(kind: ThreadKind) -> Seq<char> {
    match kind {
        ThreadKind::Reader => "Reader"@,
        ThreadKind::Writer => "Writer"@,
    }
}

impl ThreadStatus {
    /// The word for the status.
    pub fn label(self) -> (text: &'static str)
        ensures
            text@ == (match self {
                ThreadStatus::Thinking => "Thinking"@,
                ThreadStatus::Waiting => "Waiting"@,
                ThreadStatus::Reading => "Reading"@,
                ThreadStatus::Writing => "Writing"@,
                ThreadStatus::Stopped => "Stopped"@,
            }),
    {
        match self {
            ThreadStatus::Thinking => "Thinking",
            ThreadStatus::Waiting => "Waiting",
            ThreadStatus::Reading => "Reading",
            ThreadStatus::Writing => "Writing",
            ThreadStatus::Stopped => "Stopped",
        }
    }

    /// The colour of a thread by what it is doing.
    pub open spec fn tint(self) -> Rgb {
        match self {
            ThreadStatus::Thinking => Tone::Idle.color(),
            ThreadStatus::Waiting => Tone::Waiting.color(),
            ThreadStatus::Reading => Tone::Active.color(),
            ThreadStatus::Writing => Tone::Writing.color(),
            ThreadStatus::Stopped => Rgb { r: 80, g: 80, b: 80 },
        }
    }

    /// The colour of a thread by what it is doing.
    pub fn color(self) -> (c: Rgb)
        ensures
            c == self.tint(),
            65536 * c.r + 256 * c.g + c.b == (match self {
                ThreadStatus::Thinking => 0x6b7280int,
                ThreadStatus::Waiting => 0xea580cint,
                ThreadStatus::Reading => 0x2563ebint,
                ThreadStatus::Writing => 0xdc2626int,
                ThreadStatus::Stopped => 0x505050int,
            }),
    {
        match self {
            ThreadStatus::Thinking => Tone::Idle.rgb(),
            ThreadStatus::Waiting => Tone::Waiting.rgb(),
            ThreadStatus::Reading => Tone::Active.rgb(),
            ThreadStatus::Writing => Tone::Writing.rgb(),
            ThreadStatus::Stopped => Rgb { r: 80, g: 80, b: 80 },
        }
    }
}

impl ThreadVisual {
    /// The name of the thread, numbered from one.
    pub fn name(&self) -> (text: String)
        requires
            self.id < usize::MAX,
        ensures
            text@ == thread_kind_label(self.kind) + " "@ + crate::text::decimal(self.id + 1),
    {
        let mut s = String::new();
        s.append(self.kind.label());
        s.append(" ");
        push_decimal(&mut s, self.id as u64 + 1);
        assert(s@ =~= thread_kind_label(self.kind) + " "@ + crate::text::decimal(self.id + 1));
        s
    }

    /// How far right of the thread its name is written: writers have it on
    /// their left.
    pub fn name_offset(&self) -> (dx: i64)
        ensures
            dx == (if self.kind == ThreadKind::Writer {
                -70int
            } else {
                70
            }),
    {
        match self.kind {
            ThreadKind::Writer => -70,
            ThreadKind::Reader => 70,
        }
    }

    /// The colour of the line from the thread to the cell it uses.
    pub fn arrow_color(&self) -> (c: Rgb)
        ensures
            c == (if self.kind == ThreadKind::Reader {
                Rgb { r: 50, g: 50, b: 50 }
            } else {
                Rgb { r: 30, g: 30, b: 30 }
            }),
    {
        match self.kind {
            ThreadKind::Reader => Rgb { r: 50, g: 50, b: 50 },
            ThreadKind::Writer => Rgb { r: 30, g: 30, b: 30 },
        }
    }
}

impl CoordinatorSnapshot {
    /// The line at the foot of the window.
    pub fn line(&self) -> (text: String)
        ensures
            text@ == "Cells: "@ + crate::text::decimal(self.data_count as int)
                + "   Active readers: "@ + crate::text::decimal(self.active_readers as int)
                + "   Active writers: "@ + crate::text::decimal(self.active_writers as int)
                + "   Waiting readers: "@ + crate::text::decimal(self.waiting_readers as int)
                + "   Waiting writers: "@ + crate::text::decimal(self.waiting_writers as int),
    {
        let mut s = String::new();
        s.append("Cells: ");
        push_decimal(&mut s, self.data_count as u64);
        s.append("   Active readers: ");
        push_decimal(&mut s, self.active_readers as u64);
        s.append("   Active writers: ");
        push_decimal(&mut s, self.active_writers as u64);
        s.append("   Waiting readers: ");
        push_decimal(&mut s, self.waiting_readers as u64);
        s.append("   Waiting writers: ");
        push_decimal(&mut s, self.waiting_writers as u64);
        assert(s@ =~= "Cells: "@ + crate::text::decimal(self.data_count as int)
            + "   Active readers: "@ + crate::text::decimal(self.active_readers as int)
            + "   Active writers: "@ + crate::text::decimal(self.active_writers as int)
            + "   Waiting readers: "@ + crate::text::decimal(self.waiting_readers as int)
            + "   Waiting writers: "@ + crate::text::decimal(self.waiting_writers as int));
        s
    }

    /// The colour of the border around the store: a writer that holds the lock
    /// shows in it.
    pub fn border_color(&self) -> (c: Rgb)
        ensures
            c == (if self.active_writers > 0 {
                Tone::Writing.color()
            } else {
                Tone::Black.color()
            }),
            self.active_writers > 0 ==> c == (Rgb { r: 220, g: 38, b: 38 }),
            self.active_writers == 0 ==> c == (Rgb { r: 0, g: 0, b: 0 }),
    {
        if self.active_writers > 0 {
            Tone::Writing.rgb()
        } else {
            Tone::Black.rgb()
        }
    }

    /// The number on the active-reader badge, which is shown while anybody
    /// reads, and its colour.
    pub fn reader_badge(&self) -> (badge: Option<(usize, Rgb)>)
        ensures
            badge == (if self.active_readers > 0 {
                Some((self.active_readers, Tone::Success.color()))
            } else {
                None
            }),
    {
        if self.active_readers > 0 {
            Some((self.active_readers, Tone::Success.rgb()))
        } else {
            None
        }
    }
}

impl AppState {
    /// The line above the store.
    pub fn store_line(&self) -> (text: String)
        ensures
            text@ == "Shared Data Store  "@ + crate::text::decimal(self.cells@.len() as int) + "/"@
                + crate::text::decimal(self.max_cells as int),
    {
        let mut s = String::new();
        s.append("Shared Data Store  ");
        push_decimal(&mut s, self.cells.len() as u64);
        s.append("/");
        push_decimal(&mut s, self.max_cells as u64);
        assert(s@ =~= "Shared Data Store  "@ + crate::text::decimal(self.cells@.len() as int) + "/"@
            + crate::text::decimal(self.max_cells as int));
        s
    }

    /// The colour of a cell of the store; unwritten cells are light.
    pub fn cell_color(&self, index: usize) -> (c: Rgb)
        ensures
            c == (if index < self.cells@.len() {
                self.cells@[index as int].color
            } else {
                Rgb { r: 240, g: 240, b: 240 }
            }),
    {
        if index < self.cells.len() {
            self.cells[index].color
        } else {
            Rgb { r: 240, g: 240, b: 240 }
        }
    }
}

/// The area of the store.
pub fn data_grid_rect() -> (a: Area)
    ensures
        a.corner == (Point { x: 390, y: 160 }),
        a.width == DATA_COLS * (CELL_SIZE + CELL_GAP) - CELL_GAP,
        a.height == DATA_ROWS * (CELL_SIZE + CELL_GAP) - CELL_GAP,
        a.width == 218,
        a.height == 438,
{
    Area {
        corner: Point { x: DATA_LEFT, y: DATA_TOP },
        width: DATA_COLS as i64 * (CELL_SIZE + CELL_GAP) - CELL_GAP,
        height: DATA_ROWS as i64 * (CELL_SIZE + CELL_GAP) - CELL_GAP,
    }
}

/// The area of a cell.
pub open spec fn cell_area(index: int) -> Area {
    Area {
        corner: Point {
            x: (DATA_LEFT + (index % 10) * (CELL_SIZE + CELL_GAP)) as i64,
            y: (DATA_TOP + (index / 10) * (CELL_SIZE + CELL_GAP)) as i64,
        },
        width: CELL_SIZE,
        height: CELL_SIZE,
    }
}

/// The area of a cell: rows of ten, from the upper left corner of the store.
pub fn cell_rect(index: usize) -> (a: Area)
    requires
        crate::layout::fits_column(index as int),
    ensures
        a == cell_area(index as int),
        a.corner.x == 390 + 22 * (index as int % 10),
        a.corner.y == 160 + 22 * (index as int / 10),
        a.width == 20,
        a.height == 20,
{
    let col: i64 = (index % DATA_COLS) as i64;
    let row: i64 = (index / DATA_COLS) as i64;
    Area {
        corner: Point {
            x: DATA_LEFT + col * (CELL_SIZE + CELL_GAP),
            y: DATA_TOP + row * (CELL_SIZE + CELL_GAP),
        },
        width: CELL_SIZE,
        height: CELL_SIZE,
    }
}

/// The middle of a cell.
pub fn cell_center(index: usize) -> (p: Point)
    requires
        crate::layout::fits_column(index as int),
    ensures
        p.x == cell_area(index as int).corner.x + 10,
        p.y == cell_area(index as int).corner.y + 10,
        p.x == 400 + 22 * (index as int % 10),
        p.y == 170 + 22 * (index as int / 10),
{
    let a: Area = cell_rect(index);
    Point { x: a.corner.x + a.width / 2, y: a.corner.y + a.height / 2 }
}

/// The place of a thread in the column at `x`.
pub open spec fn thread_place(x: int, id: int) -> Point {
    crate::layout::column_place(x, 220, 54, id)
}

/// Where a writer rests.
pub fn writer_home_pos(id: usize) -> (p: Point)
    requires
        crate::layout::fits_column(id as int),
    ensures
        p == thread_place(120, id as int),
        p.x == 120,
        p.y == 220 + 54 * id,
{
    in_column(120, THREAD_START_Y, THREAD_Y_STEP, id)
}

/// Where a writer waits.
pub fn writer_wait_pos(id: usize) -> (p: Point)
    requires
        crate::layout::fits_column(id as int),
    ensures
        p == thread_place(270, id as int),
        p.x == 270,
        p.y == 220 + 54 * id,
{
    in_column(270, THREAD_START_Y, THREAD_Y_STEP, id)
}

/// Where a writer writes.
pub fn writer_access_pos(id: usize) -> (p: Point)
    requires
        crate::layout::fits_column(id as int),
    ensures
        p == thread_place(345, id as int),
        p.x == 345,
        p.y == 220 + 54 * id,
{
    in_column(345, THREAD_START_Y, THREAD_Y_STEP, id)
}

/// Where a reader rests.
pub fn reader_home_pos(id: usize) -> (p: Point)
    requires
        crate::layout::fits_column(id as int),
    ensures
        p == thread_place(860, id as int),
        p.x == 860,
        p.y == 220 + 54 * id,
{
    in_column(860, THREAD_START_Y, THREAD_Y_STEP, id)
}

/// Where a reader waits.
pub fn reader_wait_pos(id: usize) -> (p: Point)
    requires
        crate::layout::fits_column(id as int),
    ensures
        p == thread_place(710, id as int),
        p.x == 710,
        p.y == 220 + 54 * id,
{
    in_column(710, THREAD_START_Y, THREAD_Y_STEP, id)
}

/// Where a reader reads.
pub fn reader_access_pos(id: usize) -> (p: Point)
    requires
        crate::layout::fits_column(id as int),
    ensures
        p == thread_place(640, id as int),
        p.x == 640,
        p.y == 220 + 54 * id,
{
    in_column(640, THREAD_START_Y, THREAD_Y_STEP, id)
}

impl ThreadKind {
    /// Where a thread of the kind rests.
    pub open spec fn home(self, id: int) -> Point {
        match self {
            ThreadKind::Writer => thread_place(120, id),
            ThreadKind::Reader => thread_place(860, id),
        }
    }

    /// Where a thread of the kind waits.
    pub open spec fn waiting_place(self, id: int) -> Point {
        match self {
            ThreadKind::Writer => thread_place(270, id),
            ThreadKind::Reader => thread_place(710, id),
        }
    }

    /// Where a thread of the kind uses the store.
    pub open spec fn access_place(self, id: int) -> Point {
        match self {
            ThreadKind::Writer => thread_place(345, id),
            ThreadKind::Reader => thread_place(640, id),
        }
    }

    /// Where a thread of the kind rests.
    pub fn home_pos(self, id: usize) -> (p: Point)
        requires
            crate::layout::fits_column(id as int),
        ensures
            p == self.home(id as int),
            self == ThreadKind::Writer ==> p.x == 120,
            self == ThreadKind::Reader ==> p.x == 860,
            p.y == 220 + 54 * id,
    {
        match self {
            ThreadKind::Writer => writer_home_pos(id),
            ThreadKind::Reader => reader_home_pos(id),
        }
    }

    /// Where a thread of the kind waits.
    pub fn wait_pos(self, id: usize) -> (p: Point)
        requires
            crate::layout::fits_column(id as int),
        ensures
            p == self.waiting_place(id as int),
            self == ThreadKind::Writer ==> p.x == 270,
            self == ThreadKind::Reader ==> p.x == 710,
            p.y == 220 + 54 * id,
    {
        match self {
            ThreadKind::Writer => writer_wait_pos(id),
            ThreadKind::Reader => reader_wait_pos(id),
        }
    }

    /// Where a thread of the kind uses the store.
    pub fn access_pos(self, id: usize) -> (p: Point)
        requires
            crate::layout::fits_column(id as int),
        ensures
            p == self.access_place(id as int),
            self == ThreadKind::Writer ==> p.x == 345,
            self == ThreadKind::Reader ==> p.x == 640,
            p.y == 220 + 54 * id,
    {
        match self {
            ThreadKind::Writer => writer_access_pos(id),
            ThreadKind::Reader => reader_access_pos(id),
        }
    }
}

/// The colour of a writer and of what it writes; nine colours take turns.
pub open spec fn writer_palette_color(id: int) -> Rgb {
    let k = id % 9;
    if k == 0 {
        Rgb { r: 199, g: 62, b: 58 }
    } else if k == 1 {
        Rgb { r: 214, g: 120, b: 48 }
    } else if k == 2 {
        Rgb { r: 212, g: 166, b: 40 }
    } else if k == 3 {
        Rgb { r: 72, g: 150, b: 92 }
    } else if k == 4 {
        Rgb { r: 63, g: 133, b: 191 }
    } else if k == 5 {
        Rgb { r: 120, g: 87, b: 194 }
    } else if k == 6 {
        Rgb { r: 186, g: 82, b: 146 }
    } else if k == 7 {
        Rgb { r: 86, g: 86, b: 86 }
    } else {
        Rgb { r: 38, g: 156, b: 156 }
    }
}

/// The colour of a reader before it has read; nine colours take turns.
pub open spec fn reader_palette_color(id: int) -> Rgb {
    let k = id % 9;
    if k == 0 {
        Rgb { r: 63, g: 133, b: 191 }
    } else if k == 1 {
        Rgb { r: 84, g: 171, b: 138 }
    } else if k == 2 {
        Rgb { r: 138, g: 120, b: 214 }
    } else if k == 3 {
        Rgb { r: 73, g: 156, b: 208 }
    } else if k == 4 {
        Rgb { r: 113, g: 174, b: 92 }
    } else if k == 5 {
        Rgb { r: 54, g: 169, b: 161 }
    } else if k == 6 {
        Rgb { r: 97, g: 121, b: 201 }
    } else if k == 7 {
        Rgb { r: 156, g: 133, b: 214 }
    } else {
        Rgb { r: 92, g: 160, b: 128 }
    }
}

/// The colours of threads.
pub struct Colors;

impl Colors {
    /// The colour of a writer and of what it writes.
    pub fn writer_palette(id: usize) -> (c: Rgb)
        ensures
            c == writer_palette_color(id as int),
            65536 * c.r + 256 * c.g + c.b == seq![
                0xc73e3aint,
                0xd67830int,
                0xd4a628int,
                0x48965cint,
                0x3f85bfint,
                0x7857c2int,
                0xba5292int,
                0x565656int,
                0x269c9cint,
            ][id as int % 9],
    {
        match id % 9 {
            0 => Rgb { r: 199, g: 62, b: 58 },
            1 => Rgb { r: 214, g: 120, b: 48 },
            2 => Rgb { r: 212, g: 166, b: 40 },
            3 => Rgb { r: 72, g: 150, b: 92 },
            4 => Rgb { r: 63, g: 133, b: 191 },
            5 => Rgb { r: 120, g: 87, b: 194 },
            6 => Rgb { r: 186, g: 82, b: 146 },
            7 => Rgb { r: 86, g: 86, b: 86 },
            _ => Rgb { r: 38, g: 156, b: 156 },
        }
    }

    /// The colour of a reader before it has read.
    pub fn reader_palette(id: usize) -> (c: Rgb)
        ensures
            c == reader_palette_color(id as int),
            65536 * c.r + 256 * c.g + c.b == seq![
                0x3f85bfint,
                0x54ab8aint,
                0x8a78d6int,
                0x499cd0int,
                0x71ae5cint,
                0x36a9a1int,
                0x6179c9int,
                0x9c85d6int,
                0x5ca080int,
            ][id as int % 9],
    {
        match id % 9 {
            0 => Rgb { r: 63, g: 133, b: 191 },
            1 => Rgb { r: 84, g: 171, b: 138 },
            2 => Rgb { r: 138, g: 120, b: 214 },
            3 => Rgb { r: 73, g: 156, b: 208 },
            4 => Rgb { r: 113, g: 174, b: 92 },
            5 => Rgb { r: 54, g: 169, b: 161 },
            6 => Rgb { r: 97, g: 121, b: 201 },
            7 => Rgb { r: 156, g: 133, b: 214 },
            _ => Rgb { r: 92, g: 160, b: 128 },
        }
    }
}

} // verus!
