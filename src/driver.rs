//! The driver: controller state, the drawing modes and the steps each
//! operation sends.

use crate::brightness::Brightness;
use crate::command::{Command, Logical};
use crate::display::{DisplayDefinition, Geometry};
use crate::rotation::DisplayRotation;
use crate::wire::{data_steps, pixel_steps, push_pixels, ResetStep, Step};
use vstd::prelude::*;

verus! {

/// A mode with no functionality beyond that of the base driver: pixels go
/// straight to the controller.
#[derive(Debug, Clone, Copy)]
pub struct BasicMode;

impl BasicMode {
    /// The basic mode.
    pub fn new() -> Self {
        BasicMode
    }
}

/// A mode that draws into a frame buffer in memory and sends only the
/// rectangle that changed, on [`Gc9a01::flush`].
///
/// The buffer holds one word per native pixel, row by row; the dirty
/// rectangle is in logical coordinates and is empty while a minimum exceeds
/// its maximum.
#[derive(Debug)]
pub struct BufferedGraphics {
    buffer: Vec<u16>,
    min_x: u16,
    max_x: u16,
    min_y: u16,
    max_y: u16,
}

/// The failure of a bulk write into the frame buffer.
#[derive(Debug, Clone, Copy, PartialEq, Eq, Structural)]
pub enum DrawError {
    /// Some colour would land past the end of the buffer.
    OutOfBounds,
}

/// The driver for one panel `D` in mode `M`.
pub struct Gc9a01<D, M> {
    display: D,
    mode: M,
    display_rotation: DisplayRotation,
}

/// The smaller of two coordinates.
pub open spec fn min_u16(a: u16, b: u16) -> u16 {
    if a <= b {
        a
    } else {
        b
    }
}

/// The larger of two coordinates.
pub open spec fn max_u16(a: u16, b: u16) -> u16 {
    if a >= b {
        a
    } else {
        b
    }
}

/// The memory access control command that sets up `rotation`.
pub open spec fn memory_access_for(rotation: DisplayRotation) -> Command {
    match rotation {
        DisplayRotation::Rotate0 => Command::MemoryAccessControl(
            Logical::Off,
            Logical::Off,
            Logical::Off,
            Logical::On,
            Logical::On,
            Logical::Off,
        ),
        DisplayRotation::Rotate90 => Command::MemoryAccessControl(
            Logical::On,
            Logical::Off,
            Logical::Off,
            Logical::On,
            Logical::On,
            Logical::Off,
        ),
        DisplayRotation::Rotate180 => Command::MemoryAccessControl(
            Logical::On,
            Logical::On,
            Logical::Off,
            Logical::On,
            Logical::On,
            Logical::Off,
        ),
        DisplayRotation::Rotate270 => Command::MemoryAccessControl(
            Logical::Off,
            Logical::On,
            Logical::Off,
            Logical::On,
            Logical::On,
            Logical::Off,
        ),
    }
}

/// The memory access control command that sets up `rotation`.
pub fn memory_access_command(rotation: DisplayRotation) -> (c: Command)
    ensures
        c == memory_access_for(rotation),
{
    match rotation {
        DisplayRotation::Rotate0 => Command::MemoryAccessControl(
            Logical::Off,
            Logical::Off,
            Logical::Off,
            Logical::On,
            Logical::On,
            Logical::Off,
        ),
        DisplayRotation::Rotate90 => Command::MemoryAccessControl(
            Logical::On,
            Logical::Off,
            Logical::Off,
            Logical::On,
            Logical::On,
            Logical::Off,
        ),
        DisplayRotation::Rotate180 => Command::MemoryAccessControl(
            Logical::On,
            Logical::On,
            Logical::Off,
            Logical::On,
            Logical::On,
            Logical::Off,
        ),
        DisplayRotation::Rotate270 => Command::MemoryAccessControl(
            Logical::Off,
            Logical::On,
            Logical::Off,
            Logical::On,
            Logical::On,
            Logical::Off,
        ),
    }
}

/// The steps that set the addressing window from `start` to `end`, both
/// corners inclusive.
pub open spec fn draw_area_steps(start: (u16, u16), end: (u16, u16)) -> Seq<Step> {
    Command::ColumnAddressSet(start.0, end.0).wire() + Command::RowAddressSet(start.1, end.1).wire()
}

/// The steps of the initialisation that follow a panel's own sequence:
/// the rotation, the default brightness, display on and its settle delay.
pub open spec fn init_tail(rotation: DisplayRotation) -> Seq<Step> {
    memory_access_for(rotation).wire() + Command::DisplayBrightness(0x5F).wire()
        + Command::DisplayState(Logical::On).wire() + seq![Step::DelayMs(120)]
}

/// The product of two 16-bit extents fits in 32 bits.
proof fn lemma_area_fits(a: int, b: int)
    requires
        0 <= a <= 0xFFFF,
        0 <= b <= 0xFFFF,
    ensures
        0 <= a * b <= 0xFFFE_0001,
{
    assert(0 <= a * b <= 0xFFFF * 0xFFFF) by (nonlinear_arith)
        requires
            0 <= a <= 0xFFFF,
            0 <= b <= 0xFFFF,
    ;
}

/// The state of a buffered driver as the contracts see it.
pub struct Frame {
    /// Extents and offsets of the panel.
    pub geometry: Geometry,
    /// The current rotation.
    pub rotation: DisplayRotation,
    /// The frame buffer, one word per native pixel, row by row.
    pub pixels: Seq<u16>,
    /// Smallest logical column written since the last flush.
    pub min_x: u16,
    /// Largest logical column written since the last flush.
    pub max_x: u16,
    /// Smallest logical row written since the last flush.
    pub min_y: u16,
    /// Largest logical row written since the last flush.
    pub max_y: u16,
}

/// Where logical pixel `(x, y)` lives in the buffer under `rotation`:
/// row-major for the upright orientations, with the axes exchanged for a
/// quarter turn.
pub open spec fn pixel_index(g: Geometry, rotation: DisplayRotation, x: int, y: int) -> int {
    if rotation.swaps_axes() {
        x * g.height + y
    } else {
        y * g.width + x
    }
}

/// The pixel steps of rows `first_row .. first_row + rows` of a buffer with
/// `width` words per row, each row cut to the columns `c0 ..= c1`.
pub open spec fn region_steps(
    pixels: Seq<u16>,
    width: int,
    first_row: int,
    rows: nat,
    c0: int,
    c1: int,
) -> Seq<Step>
    decreases rows,
{
    if rows == 0 {
        Seq::empty()
    } else {
        let r = first_row + rows - 1;
        region_steps(pixels, width, first_row, (rows - 1) as nat, c0, c1) + pixel_steps(
            pixels.subrange(r * width + c0, r * width + c1 + 1),
        )
    }
}

impl Frame {
    /// The buffer holds exactly one word per pixel of a valid panel.
    pub open spec fn wf(self) -> bool {
        &&& self.geometry.wf()
        &&& self.pixels.len() == self.geometry.pixel_count()
    }

    /// Nothing was written since the last flush.
    pub open spec fn is_clean(self) -> bool {
        self.max_x < self.min_x || self.max_y < self.min_y
    }

    /// The same frame with an empty dirty rectangle.
    pub open spec fn cleaned(self) -> Frame {
        Frame { min_x: 0xFFFF, max_x: 0, min_y: 0xFFFF, max_y: 0, ..self }
    }

    /// The same frame under another rotation; the buffer is not reshaped.
    pub open spec fn rotated(self, rotation: DisplayRotation) -> Frame {
        Frame { rotation, ..self }
    }

    /// Every pixel set to `color`, and the whole panel dirty.
    pub open spec fn fill(self, color: u16) -> Frame {
        let (ex, ey) = self.geometry.extents(self.rotation);
        Frame {
            pixels: Seq::new(self.pixels.len(), |i: int| color),
            min_x: 0,
            max_x: ex,
            min_y: 0,
            max_y: ey,
            ..self
        }
    }

    /// Logical pixel `(x, y)` set to `color` and added to the dirty
    /// rectangle; nothing changes where the pixel is off the panel or its
    /// index is past the buffer.
    pub open spec fn set_pixel(self, x: u32, y: u32, color: u16) -> Frame {
        let (ex, ey) = self.geometry.extents(self.rotation);
        let i = pixel_index(self.geometry, self.rotation, x as int, y as int);
        if x < ex && y < ey && i < self.pixels.len() {
            Frame {
                pixels: self.pixels.update(i, color),
                min_x: min_u16(self.min_x, x as u16),
                max_x: max_u16(self.max_x, x as u16),
                min_y: min_u16(self.min_y, y as u16),
                max_y: max_u16(self.max_y, y as u16),
                ..self
            }
        } else {
            self
        }
    }

    /// `colors` written one after the other from the index of `start`, and
    /// the window `start ..= end` added to the dirty rectangle; `None`, with
    /// nothing written, where some colour would land past the buffer.
    pub open spec fn set_pixels(
        self,
        start: (u16, u16),
        end: (u16, u16),
        colors: Seq<u16>,
    ) -> Option<Frame> {
        let i = pixel_index(self.geometry, self.rotation, start.0 as int, start.1 as int);
        let n = colors.len() as int;
        if n > 0 && i + n > self.pixels.len() {
            None
        } else if n == 0 {
            Some(
                Frame {
                    min_x: min_u16(self.min_x, start.0),
                    max_x: max_u16(self.max_x, end.0),
                    min_y: min_u16(self.min_y, start.1),
                    max_y: max_u16(self.max_y, end.1),
                    ..self
                },
            )
        } else {
            Some(
                Frame {
                    pixels: self.pixels.subrange(0, i) + colors + self.pixels.subrange(
                        i + n,
                        self.pixels.len() as int,
                    ),
                    min_x: min_u16(self.min_x, start.0),
                    max_x: max_u16(self.max_x, end.0),
                    min_y: min_u16(self.min_y, start.1),
                    max_y: max_u16(self.max_y, end.1),
                    ..self
                },
            )
        }
    }

    /// The frame after a flush and the steps the flush sends.
    ///
    /// A clean frame sends nothing. Otherwise the dirty rectangle, cut to the
    /// panel, becomes the addressing window, shifted to where the panel sits
    /// in graphics RAM under the current rotation; then comes a memory write
    /// and the buffer rows inside the rectangle, each cut to its columns. The
    /// dirty rectangle is emptied before anything is sent.
    pub open spec fn flush(self) -> (Frame, Seq<Step>) {
        if self.is_clean() {
            (self, Seq::empty())
        } else {
            let (ex, ey) = self.geometry.extents(self.rotation);
            let hi_x = min_u16(self.max_x, (ex - 1) as u16);
            let hi_y = min_u16(self.max_y, (ey - 1) as u16);
            if hi_x < self.min_x || hi_y < self.min_y {
                (self.cleaned(), Seq::empty())
            } else {
                let swap = self.rotation.swaps_axes();
                let c0 = if swap { self.min_y } else { self.min_x };
                let c1 = if swap { hi_y } else { hi_x };
                let r0 = if swap { self.min_x } else { self.min_y };
                let r1 = if swap { hi_x } else { hi_y };
                let off_x = self.geometry.column_offset(self.rotation);
                let off_y = self.geometry.offset_y;
                (
                    self.cleaned(),
                    draw_area_steps(
                        ((c0 + off_x) as u16, (r0 + off_y) as u16),
                        ((c1 + off_x) as u16, (r1 + off_y) as u16),
                    ) + Command::MemoryWrite.wire() + region_steps(
                        self.pixels,
                        self.geometry.width as int,
                        r0 as int,
                        (r1 - r0 + 1) as nat,
                        c0 as int,
                        c1 as int,
                    ),
                )
            }
        }
    }
}

impl<D: DisplayDefinition, M> Gc9a01<D, M> {
    /// The current rotation.
    pub closed spec fn spec_rotation(&self) -> DisplayRotation {
        self.display_rotation
    }

    /// The panel this driver runs.
    pub closed spec fn spec_display(&self) -> D {
        self.display
    }

    /// The mode state.
    pub closed spec fn spec_mode(&self) -> M {
        self.mode
    }

    /// Extents and offsets of the panel.
    pub open spec fn geometry(&self) -> Geometry {
        self.spec_display().spec_geometry()
    }

    /// The panel's geometry is valid.
    pub open spec fn wf(&self) -> bool {
        self.geometry().wf()
    }

    /// Moves the panel and rotation over to another mode.
    fn into_mode<N>(self, mode: N) -> (r: Gc9a01<D, N>)
        ensures
            r.display == self.display,
            r.display_rotation == self.display_rotation,
            r.mode == mode,
    {
        Gc9a01 { mode, display: self.display, display_rotation: self.display_rotation }
    }

    /// The hardware reset: the reset line high, low, then high again, each
    /// level held for 50 ms.
    pub fn reset(&self) -> (r: Vec<ResetStep>)
        ensures
            r@ == seq![
                ResetStep::SetHigh,
                ResetStep::DelayMs(50),
                ResetStep::SetLow,
                ResetStep::DelayMs(50),
                ResetStep::SetHigh,
                ResetStep::DelayMs(50),
            ],
    {
        vec![
            ResetStep::SetHigh,
            ResetStep::DelayMs(50),
            ResetStep::SetLow,
            ResetStep::DelayMs(50),
            ResetStep::SetHigh,
            ResetStep::DelayMs(50),
        ]
    }

    /// The steps that initialise the controller: the panel's own sequence,
    /// then the current rotation, the default brightness, display on and the
    /// settle delay after it.
    pub fn init_with_addr_mode(&self) -> (r: Vec<Step>)
        ensures
            r@ == self.spec_display().spec_configuration() + init_tail(self.spec_rotation()),
    {
        let mut out = Vec::new();
        self.display.configure(&mut out);
        memory_access_command(self.display_rotation).send(&mut out);
        Command::DisplayBrightness(Brightness::default().brightness()).send(&mut out);
        Command::DisplayState(Logical::On).send(&mut out);
        out.push(Step::DelayMs(120));
        out
    }

    /// The steps that send `buffer` as raw data bytes.
    pub fn draw(&self, buffer: &[u8]) -> (r: Vec<Step>)
        ensures
            r@ == data_steps(buffer@),
    {
        let mut out = Vec::new();
        let n = buffer.len();
        for i in 0..n
            invariant
                n == buffer@.len(),
                out@ == data_steps(buffer@.subrange(0, i as int)),
        {
            out.push(Step::Data(buffer[i]));
            assert(data_steps(buffer@.subrange(0, i + 1)) =~= data_steps(
                buffer@.subrange(0, i as int),
            ).push(Step::Data(buffer@[i as int])));
        }
        assert(buffer@.subrange(0, n as int) =~= buffer@);
        out
    }

    /// The steps that send one zero pixel for every pixel of the panel.
    pub fn clear_fit(&self) -> (r: Vec<Step>)
        requires
            self.wf(),
        ensures
            r@ == pixel_steps(solid(self.geometry().pixel_count(), 0)),
    {
        let g = self.display.geometry();
        proof {
            lemma_area_fits(g.width as int, g.height as int);
        }
        let count = g.width as usize * g.height as usize;
        let mut out = Vec::new();
        for i in 0..count
            invariant
                count == g.pixel_count(),
                out@ == pixel_steps(solid(i as nat, 0)),
        {
            out.push(Step::Pixel(0));
            assert(pixel_steps(solid((i + 1) as nat, 0)) =~= pixel_steps(solid(i as nat, 0)).push(
                Step::Pixel(0),
            ));
        }
        out
    }

    /// Stores `rotation` and returns the memory access control steps that
    /// set it up; a rotation always reaches the controller.
    pub fn set_display_rotation(&mut self, rotation: DisplayRotation) -> (r: Vec<Step>)
        ensures
            final(self).spec_display() == old(self).spec_display(),
            final(self).spec_mode() == old(self).spec_mode(),
            final(self).spec_rotation() == rotation,
            r@ == memory_access_for(rotation).wire(),
    {
        self.display_rotation = rotation;
        let mut out = Vec::new();
        memory_access_command(rotation).send(&mut out);
        out
    }

    /// The steps that set the display brightness.
    pub fn set_brightness(&self, brightness: Brightness) -> (r: Vec<Step>)
        ensures
            r@ == Command::DisplayBrightness(brightness.brightness()).wire(),
    {
        let mut out = Vec::new();
        Command::DisplayBrightness(brightness.brightness()).send(&mut out);
        out
    }

    /// The steps that turn the display on or off.
    pub fn set_screen_state(&self, on: Logical) -> (r: Vec<Step>)
        ensures
            r@ == Command::DisplayState(on).wire(),
    {
        let mut out = Vec::new();
        Command::DisplayState(on).send(&mut out);
        out
    }

    /// The steps that make the controller invert, or stop inverting, the
    /// graphics RAM on output.
    pub fn set_invert_pixels(&self, value: bool) -> (r: Vec<Step>)
        ensures
            r@ == Command::DisplayInversion(if value { Logical::On } else { Logical::Off }).wire(),
    {
        let mut out = Vec::new();
        Command::DisplayInversion(Logical::from(value)).send(&mut out);
        out
    }

    /// The steps that limit drawing to the window from `start` to `end`.
    ///
    /// Both corners are inclusive: `end` is the last column and row drawn.
    pub fn set_draw_area(&self, start: (u16, u16), end: (u16, u16)) -> (r: Vec<Step>)
        ensures
            r@ == draw_area_steps(start, end),
    {
        let mut out = Vec::new();
        push_draw_area(&mut out, start, end);
        out
    }

    /// The current rotation.
    #[verifier::when_used_as_spec(spec_rotation)]
    pub fn get_screen_rotation(&self) -> (r: DisplayRotation)
        ensures
            r == self.spec_rotation(),
    {
        self.display_rotation
    }

    /// Logical extents `(x, y)`: a quarter turn swaps width and height.
    pub fn dimensions(&self) -> (r: (u16, u16))
        requires
            self.wf(),
        ensures
            r == self.geometry().extents(self.spec_rotation()),
    {
        let g = self.display.geometry();
        match self.display_rotation {
            DisplayRotation::Rotate0 | DisplayRotation::Rotate180 => (g.width, g.height),
            DisplayRotation::Rotate90 | DisplayRotation::Rotate270 => (g.height, g.width),
        }
    }

    /// The last valid logical coordinate on each axis.
    pub fn bounds(&self) -> (r: (u16, u16))
        requires
            self.wf(),
        ensures
            r.0 == self.geometry().extents(self.spec_rotation()).0 - 1,
            r.1 == self.geometry().extents(self.spec_rotation()).1 - 1,
    {
        let (w, h) = self.dimensions();
        (w - 1, h - 1)
    }
}

/// Appends the steps that set the addressing window to `out`.
fn push_draw_area(out: &mut Vec<Step>, start: (u16, u16), end: (u16, u16))
    ensures
        final(out)@ == old(out)@ + draw_area_steps(start, end),
{
    Command::ColumnAddressSet(start.0, end.0).send(out);
    Command::RowAddressSet(start.1, end.1).send(out);
}

impl<D: DisplayDefinition> Gc9a01<D, BasicMode> {
    /// A driver in basic mode.
    pub fn new(display: D, rotation: DisplayRotation) -> (r: Self)
        ensures
            r.wf(),
            r.spec_display() == display,
            r.spec_rotation() == rotation,
    {
        let _ = display.geometry();
        Gc9a01 { display, mode: BasicMode::new(), display_rotation: rotation }
    }
}

impl BufferedGraphics {
    /// A zeroed buffer of `len` words with an empty dirty rectangle.
    fn new(len: usize) -> (r: Self)
        ensures
            r.buffer@ == solid(len as nat, 0),
            r.min_x == 0xFFFF && r.max_x == 0 && r.min_y == 0xFFFF && r.max_y == 0,
    {
        let mut buffer = Vec::new();
        for i in 0..len
            invariant
                buffer@ == solid(i as nat, 0),
        {
            buffer.push(0);
            assert(buffer@ =~= solid((i + 1) as nat, 0));
        }
        BufferedGraphics {
            buffer,
            min_x: u16::MAX,
            max_x: u16::MIN,
            min_y: u16::MAX,
            max_y: u16::MIN,
        }
    }
}

impl<D: DisplayDefinition> Gc9a01<D, BasicMode> {
    /// The same driver in buffered mode, with a zeroed buffer and nothing
    /// to flush.
    pub fn into_buffered_graphics(self) -> (r: Gc9a01<D, BufferedGraphics>)
        requires
            self.wf(),
        ensures
            r.frame() == (Frame {
                geometry: self.geometry(),
                rotation: self.spec_rotation(),
                pixels: solid(self.geometry().pixel_count(), 0),
                min_x: 0xFFFF,
                max_x: 0,
                min_y: 0xFFFF,
                max_y: 0,
            }),
            r.frame().wf(),
            r.spec_display() == self.spec_display(),
    {
        let g = self.display.geometry();
        proof {
            lemma_area_fits(g.width as int, g.height as int);
        }
        let mode = BufferedGraphics::new(g.width as usize * g.height as usize);
        self.into_mode(mode)
    }
}

impl<D: DisplayDefinition> Gc9a01<D, BufferedGraphics> {
    /// The buffered state: panel, rotation, buffer and dirty rectangle.
    pub closed spec fn frame(&self) -> Frame {
        Frame {
            geometry: self.display.spec_geometry(),
            rotation: self.display_rotation,
            pixels: self.mode.buffer@,
            min_x: self.mode.min_x,
            max_x: self.mode.max_x,
            min_y: self.mode.min_y,
            max_y: self.mode.max_y,
        }
    }

    /// Sets every pixel of the buffer to zero and marks the whole panel
    /// dirty; [`Gc9a01::flush`] sends it.
    pub fn clear(&mut self)
        requires
            old(self).frame().wf(),
        ensures
            final(self).frame().wf(),
            final(self).frame() == old(self).frame().fill(0),
            final(self).spec_display() == old(self).spec_display(),
    {
        self.fill(0);
    }

    /// Sets every pixel of the buffer to `color` and marks the whole panel
    /// dirty; [`Gc9a01::flush`] sends it.
    pub fn fill(&mut self, color: u16)
        requires
            old(self).frame().wf(),
        ensures
            final(self).frame().wf(),
            final(self).frame() == old(self).frame().fill(color),
            final(self).spec_display() == old(self).spec_display(),
    {
        let n = self.mode.buffer.len();
        for i in 0..n
            invariant
                n == self.mode.buffer@.len(),
                self.display == old(self).display,
                self.display_rotation == old(self).display_rotation,
                self.mode.min_x == old(self).mode.min_x,
                self.mode.max_x == old(self).mode.max_x,
                self.mode.min_y == old(self).mode.min_y,
                self.mode.max_y == old(self).mode.max_y,
                n == old(self).mode.buffer@.len(),
                forall|j: int| 0 <= j < i ==> self.mode.buffer@[j] == color,
        {
            self.mode.buffer.set(i, color);
        }
        let (max_x, max_y) = self.dimensions();
        self.mode.min_x = u16::MIN;
        self.mode.max_x = max_x;
        self.mode.min_y = u16::MIN;
        self.mode.max_y = max_y;
        assert(self.mode.buffer@ =~= Seq::new(n as nat, |i: int| color));
    }

    /// Writes `color` at logical pixel `(x, y)` and adds the pixel to the
    /// dirty rectangle; a pixel off the panel is silently ignored.
    pub fn set_pixel(&mut self, x: u32, y: u32, value: u16)
        requires
            old(self).frame().wf(),
        ensures
            final(self).frame().wf(),
            final(self).frame() == old(self).frame().set_pixel(x, y, value),
            final(self).spec_display() == old(self).spec_display(),
    {
        let g = self.display.geometry();
        let (ex, ey) = self.dimensions();
        if x < ex as u32 && y < ey as u32 {
            let idx = match self.display_rotation {
                DisplayRotation::Rotate0 | DisplayRotation::Rotate180 => {
                    proof {
                        lemma_area_fits(y as int, g.width as int);
                    }
                    y as usize * g.width as usize + x as usize
                },
                DisplayRotation::Rotate90 | DisplayRotation::Rotate270 => {
                    proof {
                        lemma_area_fits(x as int, g.height as int);
                    }
                    x as usize * g.height as usize + y as usize
                },
            };
            if idx < self.mode.buffer.len() {
                let (px, py) = (x as u16, y as u16);
                if px < self.mode.min_x {
                    self.mode.min_x = px;
                }
                if px > self.mode.max_x {
                    self.mode.max_x = px;
                }
                if py < self.mode.min_y {
                    self.mode.min_y = py;
                }
                if py > self.mode.max_y {
                    self.mode.max_y = py;
                }
                self.mode.buffer.set(idx, value);
            }
        }
    }

    /// Writes `colors` one after the other from the buffer index of `start`
    /// and adds the window `start ..= end` to the dirty rectangle.
    ///
    /// Fails with [`DrawError::OutOfBounds`], writing nothing, where some
    /// colour would land past the end of the buffer.
    pub fn set_pixels(&mut self, start: (u16, u16), end: (u16, u16), colors: &[u16]) -> (r: Result<
        (),
        DrawError,
    >)
        requires
            old(self).frame().wf(),
        ensures
            final(self).frame().wf(),
            match old(self).frame().set_pixels(start, end, colors@) {
                Some(f) => r is Ok && final(self).frame() == f,
                None => r == Err::<(), DrawError>(DrawError::OutOfBounds) && final(self).frame()
                    == old(self).frame(),
            },
            final(self).spec_display() == old(self).spec_display(),
    {
        let g = self.display.geometry();
        let idx = match self.display_rotation {
            DisplayRotation::Rotate0 | DisplayRotation::Rotate180 => {
                proof {
                    lemma_area_fits(start.1 as int, g.width as int);
                }
                start.1 as usize * g.width as usize + start.0 as usize
            },
            DisplayRotation::Rotate90 | DisplayRotation::Rotate270 => {
                proof {
                    lemma_area_fits(start.0 as int, g.height as int);
                }
                start.0 as usize * g.height as usize + start.1 as usize
            },
        };
        let len = self.mode.buffer.len();
        let n = colors.len();
        if n > 0 && (idx > len || n > len - idx) {
            return Err(DrawError::OutOfBounds);
        }
        let ghost before = self.mode.buffer@;
        for k in 0..n
            invariant
                n == colors@.len(),
                len == self.mode.buffer@.len(),
                len == before.len(),
                n > 0 ==> idx + n <= len,
                self.display == old(self).display,
                self.display_rotation == old(self).display_rotation,
                self.mode.min_x == old(self).mode.min_x,
                self.mode.max_x == old(self).mode.max_x,
                self.mode.min_y == old(self).mode.min_y,
                self.mode.max_y == old(self).mode.max_y,
                before == old(self).mode.buffer@,
                forall|j: int| 0 <= j < idx ==> self.mode.buffer@[j] == before[j],
                forall|j: int| idx + k <= j < len ==> self.mode.buffer@[j] == before[j],
                forall|j: int| 0 <= j < k ==> self.mode.buffer@[idx + j] == colors@[j],
        {
            self.mode.buffer.set(idx + k, colors[k]);
        }
        if start.0 < self.mode.min_x {
            self.mode.min_x = start.0;
        }
        if end.0 > self.mode.max_x {
            self.mode.max_x = end.0;
        }
        if start.1 < self.mode.min_y {
            self.mode.min_y = start.1;
        }
        if end.1 > self.mode.max_y {
            self.mode.max_y = end.1;
        }
        proof {
            if n > 0 {
                assert(self.mode.buffer@ =~= before.subrange(0, idx as int) + colors@
                    + before.subrange(idx + n, len as int));
            } else {
                assert(self.mode.buffer@ =~= before);
            }
        }
        Ok(())
    }

    /// Sends the dirty rectangle and empties it; sends nothing when nothing
    /// was written since the last flush.
    ///
    /// The rectangle is emptied before the steps are handed out: where the
    /// transport fails part way, the caller redraws what it needs.
    pub fn flush(&mut self) -> (r: Vec<Step>)
        requires
            old(self).frame().wf(),
        ensures
            final(self).frame().wf(),
            final(self).frame() == old(self).frame().flush().0,
            final(self).spec_display() == old(self).spec_display(),
            r@ == old(self).frame().flush().1,
    {
        let mut out = Vec::new();
        if self.mode.max_x < self.mode.min_x || self.mode.max_y < self.mode.min_y {
            return out;
        }
        let g = self.display.geometry();
        let (bound_x, bound_y) = self.bounds();
        let lo_x = self.mode.min_x;
        let lo_y = self.mode.min_y;
        let hi_x = if self.mode.max_x <= bound_x {
            self.mode.max_x
        } else {
            bound_x
        };
        let hi_y = if self.mode.max_y <= bound_y {
            self.mode.max_y
        } else {
            bound_y
        };
        self.mode.min_x = u16::MAX;
        self.mode.max_x = u16::MIN;
        self.mode.min_y = u16::MAX;
        self.mode.max_y = u16::MIN;
        if hi_x < lo_x || hi_y < lo_y {
            return out;
        }
        let offset_x = match self.display_rotation {
            DisplayRotation::Rotate0 | DisplayRotation::Rotate270 => g.offset_x,
            DisplayRotation::Rotate90 | DisplayRotation::Rotate180 => g.cols - g.width - g.offset_x,
        };
        let (c0, c1, r0, r1) = match self.display_rotation {
            DisplayRotation::Rotate0 | DisplayRotation::Rotate180 => (lo_x, hi_x, lo_y, hi_y),
            DisplayRotation::Rotate90 | DisplayRotation::Rotate270 => (lo_y, hi_y, lo_x, hi_x),
        };
        push_draw_area(
            &mut out,
            (c0 + offset_x, r0 + g.offset_y),
            (c1 + offset_x, r1 + g.offset_y),
        );
        assert((r1 + 1) * g.width <= g.width * g.height) by (nonlinear_arith)
            requires
                r1 + 1 <= g.height,
        ;
        assert(self.mode.buffer@.len() == g.width * g.height);
        flush_buffer_chunks(&mut out, &self.mode.buffer, g.width as usize, (c0, r0), (c1, r1));
        out
    }

    /// The frame buffer, one word per native pixel, row by row.
    pub fn buffer(&self) -> (r: &[u16])
        ensures
            r@ == self.frame().pixels,
    {
        self.mode.buffer.as_slice()
    }
}

impl<D: DisplayDefinition> Gc9a01<D, BasicMode> {
    /// The steps that blank the whole panel: the window over every logical
    /// pixel, a memory write, then a zero pixel for each.
    pub fn clear(&self) -> (r: Vec<Step>)
        requires
            self.wf(),
        ensures
            r@ == draw_area_steps(
                (0, 0),
                (
                    (self.geometry().extents(self.spec_rotation()).0 - 1) as u16,
                    (self.geometry().extents(self.spec_rotation()).1 - 1) as u16,
                ),
            ) + Command::MemoryWrite.wire() + pixel_steps(solid(self.geometry().pixel_count(), 0)),
    {
        let mut out = Vec::new();
        push_draw_area(&mut out, (0, 0), self.bounds());
        Command::MemoryWrite.send(&mut out);
        let mut zeros = self.clear_fit();
        out.append(&mut zeros);
        out
    }

    /// The steps that write `colors` straight to the controller into the
    /// window from `start` to `end`: the window, a memory write, then one
    /// pixel per colour. The window is not checked against the panel.
    pub fn set_pixels(&self, start: (u16, u16), end: (u16, u16), colors: &[u16]) -> (r: Vec<Step>)
        ensures
            r@ == draw_area_steps(start, end) + Command::MemoryWrite.wire() + pixel_steps(colors@),
    {
        let mut out = Vec::new();
        push_draw_area(&mut out, start, end);
        Command::MemoryWrite.send(&mut out);
        let ghost before = out@;
        let n = colors.len();
        for i in 0..n
            invariant
                n == colors@.len(),
                out@ == before + pixel_steps(colors@.subrange(0, i as int)),
        {
            out.push(Step::Pixel(colors[i]));
            assert(pixel_steps(colors@.subrange(0, i + 1)) =~= pixel_steps(
                colors@.subrange(0, i as int),
            ).push(Step::Pixel(colors@[i as int])));
        }
        assert(colors@.subrange(0, n as int) =~= colors@);
        out
    }

    /// The steps that write one pixel straight to the controller: a window
    /// of that single pixel, then its colour. The pixel is not checked
    /// against the panel.
    pub fn set_pixel(&self, x: u16, y: u16, value: u16) -> (r: Vec<Step>)
        ensures
            r@ == draw_area_steps((x, y), (x, y)) + seq![Step::Pixel(value)],
    {
        let mut out = Vec::new();
        push_draw_area(&mut out, (x, y), (x, y));
        out.push(Step::Pixel(value));
        out
    }
}

/// Rotation and initialisation, as each mode provides them.
pub trait DisplayConfiguration {
    /// The driver's state is valid.
    spec fn is_ready(&self) -> bool;

    /// Sets the rotation and returns the steps that set it up.
    fn set_rotation(&mut self, rotation: DisplayRotation) -> (r: Vec<Step>)
        requires
            old(self).is_ready(),
        ensures
            final(self).is_ready(),
    ;

    /// Prepares the mode and returns the steps that initialise the controller.
    fn init(&mut self) -> (r: Vec<Step>)
        requires
            old(self).is_ready(),
        ensures
            final(self).is_ready(),
    ;
}

impl<D: DisplayDefinition> DisplayConfiguration for Gc9a01<D, BasicMode> {
    open spec fn is_ready(&self) -> bool {
        self.wf()
    }

    fn set_rotation(&mut self, rotation: DisplayRotation) -> (r: Vec<Step>)
        ensures
            final(self).spec_rotation() == rotation,
            final(self).spec_display() == old(self).spec_display(),
            r@ == memory_access_for(rotation).wire(),
    {
        self.set_display_rotation(rotation)
    }

    fn init(&mut self) -> (r: Vec<Step>)
        ensures
            final(self).spec_rotation() == old(self).spec_rotation(),
            final(self).spec_display() == old(self).spec_display(),
            r@ == old(self).spec_display().spec_configuration() + init_tail(
                old(self).spec_rotation(),
            ),
    {
        self.init_with_addr_mode()
    }
}

impl<D: DisplayDefinition> DisplayConfiguration for Gc9a01<D, BufferedGraphics> {
    open spec fn is_ready(&self) -> bool {
        self.frame().wf()
    }

    fn set_rotation(&mut self, rotation: DisplayRotation) -> (r: Vec<Step>)
        ensures
            final(self).frame() == old(self).frame().rotated(rotation),
            r@ == memory_access_for(rotation).wire(),
    {
        self.set_display_rotation(rotation)
    }

    /// Clears the buffer, marking the whole panel dirty, and returns the
    /// initialisation steps.
    fn init(&mut self) -> (r: Vec<Step>)
        ensures
            final(self).frame() == old(self).frame().fill(0),
            r@ == old(self).spec_display().spec_configuration() + init_tail(
                old(self).spec_rotation(),
            ),
    {
        self.clear();
        self.init_with_addr_mode()
    }
}

/// `points` written in order with `color`, one pixel at a time.
pub open spec fn paint(f: Frame, points: Seq<(u32, u32)>, color: u16) -> Frame
    decreases points.len(),
{
    if points.len() == 0 {
        f
    } else {
        paint(f, points.drop_last(), color).set_pixel(points.last().0, points.last().1, color)
    }
}

/// Logical pixel `(x, y)` is on the panel and inside the buffer.
pub open spec fn on_panel(f: Frame, x: u32, y: u32) -> bool {
    let (ex, ey) = f.geometry.extents(f.rotation);
    &&& x < ex
    &&& y < ey
    &&& pixel_index(f.geometry, f.rotation, x as int, y as int) < f.pixels.len()
}

/// The smallest first coordinate of a non-empty sequence of points.
pub open spec fn least_x(points: Seq<(u32, u32)>) -> int
    decreases points.len(),
{
    if points.len() <= 1 {
        points[0].0 as int
    } else {
        vstd::math::min(least_x(points.drop_last()), points.last().0 as int)
    }
}

/// The largest first coordinate of a non-empty sequence of points.
pub open spec fn greatest_x(points: Seq<(u32, u32)>) -> int
    decreases points.len(),
{
    if points.len() <= 1 {
        points[0].0 as int
    } else {
        vstd::math::max(greatest_x(points.drop_last()), points.last().0 as int)
    }
}

/// The smallest second coordinate of a non-empty sequence of points.
pub open spec fn least_y(points: Seq<(u32, u32)>) -> int
    decreases points.len(),
{
    if points.len() <= 1 {
        points[0].1 as int
    } else {
        vstd::math::min(least_y(points.drop_last()), points.last().1 as int)
    }
}

/// The largest second coordinate of a non-empty sequence of points.
pub open spec fn greatest_y(points: Seq<(u32, u32)>) -> int
    decreases points.len(),
{
    if points.len() <= 1 {
        points[0].1 as int
    } else {
        vstd::math::max(greatest_y(points.drop_last()), points.last().1 as int)
    }
}

/// A flush leaves nothing to flush: a second flush with no write in
/// between sends no step at all. So `clear`, `flush`, `flush` sends the
/// frame once.
pub proof fn lemma_second_flush_sends_nothing(f: Frame)
    ensures
        f.flush().0.is_clean(),
        f.flush().0.flush().1 == Seq::<Step>::empty(),
        f.fill(0).flush().0.flush().1 == Seq::<Step>::empty(),
{
}

/// Starting from an empty dirty rectangle, writing pixels on the panel
/// leaves as dirty rectangle exactly the bounding box of the pixels written,
/// and nothing larger.
pub proof fn lemma_dirty_rectangle_is_bounding_box(f: Frame, points: Seq<(u32, u32)>, color: u16)
    requires
        f.min_x == 0xFFFF && f.max_x == 0 && f.min_y == 0xFFFF && f.max_y == 0,
        points.len() > 0,
        forall|i: int| 0 <= i < points.len() ==> on_panel(f, #[trigger] points[i].0, points[i].1),
    ensures
        paint(f, points, color).min_x == least_x(points),
        paint(f, points, color).max_x == greatest_x(points),
        paint(f, points, color).min_y == least_y(points),
        paint(f, points, color).max_y == greatest_y(points),
    decreases points.len(),
{
    lemma_paint_keeps_shape(f, points.drop_last(), color);
    let p = points.last();
    assert(on_panel(f, points[points.len() - 1].0, points[points.len() - 1].1));
    if points.len() > 1 {
        let rest = points.drop_last();
        assert forall|i: int| 0 <= i < rest.len() implies on_panel(
            f,
            #[trigger] rest[i].0,
            rest[i].1,
        ) by {
            assert(rest[i] == points[i]);
        }
        lemma_dirty_rectangle_is_bounding_box(f, rest, color);
    }
}

/// Writing pixels changes neither the panel, the rotation nor the buffer
/// length.
pub proof fn lemma_paint_keeps_shape(f: Frame, points: Seq<(u32, u32)>, color: u16)
    ensures
        paint(f, points, color).geometry == f.geometry,
        paint(f, points, color).rotation == f.rotation,
        paint(f, points, color).pixels.len() == f.pixels.len(),
    decreases points.len(),
{
    if points.len() > 0 {
        lemma_paint_keeps_shape(f, points.drop_last(), color);
    }
}

/// A pixel off the panel is clipped: writing it changes neither the buffer
/// nor the dirty rectangle.
pub proof fn lemma_off_panel_pixel_is_ignored(f: Frame, x: u32, y: u32, color: u16)
    requires
        x >= f.geometry.extents(f.rotation).0 || y >= f.geometry.extents(f.rotation).1,
    ensures
        f.set_pixel(x, y, color) == f,
{
}

/// After a quarter turn, logical pixel `(x, y)` lands at buffer index
/// `x * height + y`, and reading that index under the same rotation gives
/// the colour back.
pub proof fn lemma_quarter_turn_index(f: Frame, x: u32, y: u32, color: u16)
    requires
        f.wf(),
        x < f.geometry.height,
        y < f.geometry.width,
        x * f.geometry.height + y < f.pixels.len(),
    ensures
        pixel_index(f.geometry, DisplayRotation::Rotate90, x as int, y as int) == x
            * f.geometry.height + y,
        f.rotated(DisplayRotation::Rotate90).set_pixel(x, y, color).pixels[x * f.geometry.height
            + y] == color,
{
}

/// A bulk write that would run past the end of the buffer fails and
/// writes nothing.
pub proof fn lemma_overflowing_bulk_write_fails(
    f: Frame,
    start: (u16, u16),
    end: (u16, u16),
    colors: Seq<u16>,
)
    requires
        colors.len() > 0,
        pixel_index(f.geometry, f.rotation, start.0 as int, start.1 as int) + colors.len()
            > f.pixels.len(),
    ensures
        f.set_pixels(start, end, colors) is None,
{
}

/// `count` pixels of `color`.
pub open spec fn solid(count: nat, color: u16) -> Seq<u16> {
    Seq::new(count, |i: int| color)
}

/// The full rows of a single-colour buffer are that colour, row after row.
proof fn lemma_full_rows_of_solid(width: nat, rows: nat, total: nat, color: u16)
    requires
        0 < width,
        rows * width <= total,
    ensures
        region_steps(solid(total, color), width as int, 0, rows, 0, width - 1) == pixel_steps(
            solid(rows * width, color),
        ),
    decreases rows,
{
    let pixels = solid(total, color);
    if rows > 0 {
        let r = (rows - 1) as nat;
        assert(r * width + width == rows * width) by (nonlinear_arith)
            requires
                r == rows - 1,
        ;
        assert(r * width <= total) by (nonlinear_arith)
            requires
                r * width + width <= total,
                0 < width,
        ;
        lemma_full_rows_of_solid(width, r, total, color);
        let start = (r * width) as int;
        let row = pixels.subrange(start, start + width);
        assert((0 + rows - 1) * width + 0 == start);
        assert(region_steps(pixels, width as int, 0, rows, 0, width - 1) == region_steps(
            pixels,
            width as int,
            0,
            r,
            0,
            width - 1,
        ) + pixel_steps(row));
        assert(row =~= solid(width, color));
        assert(solid(r * width, color) + solid(width, color) =~= solid(rows * width, color));
        assert(pixel_steps(solid(r * width, color)) + pixel_steps(solid(width, color))
            =~= pixel_steps(solid(rows * width, color)));
    } else {
        assert(rows * width == 0) by (nonlinear_arith)
            requires
                rows == 0,
        ;
        assert(pixel_steps(solid(rows * width, color)) =~= Seq::<Step>::empty());
    }
}

/// Filling the buffer and flushing it, upright, sends the window over the
/// whole panel where it sits in graphics RAM, a memory write, then every
/// pixel in that colour, row by row.
pub proof fn lemma_fill_then_flush_sends_the_frame(f: Frame, color: u16)
    requires
        f.wf(),
        f.rotation == DisplayRotation::Rotate0,
    ensures
        f.fill(color).flush().1 == draw_area_steps(
            (f.geometry.offset_x, f.geometry.offset_y),
            (
                (f.geometry.offset_x + f.geometry.width - 1) as u16,
                (f.geometry.offset_y + f.geometry.height - 1) as u16,
            ),
        ) + Command::MemoryWrite.wire() + pixel_steps(solid(f.geometry.pixel_count(), color)),
{
    let g = f.geometry;
    let filled = f.fill(color);
    assert(filled.pixels =~= solid(g.pixel_count(), color));
    assert(g.height * g.width == g.pixel_count()) by (nonlinear_arith)
        requires
            g.pixel_count() == g.width * g.height,
    ;
    lemma_full_rows_of_solid(g.width as nat, g.height as nat, g.pixel_count(), color);
}

/// Appends a memory write and the rows `upper_left.1 ..= lower_right.1` of
/// `buffer`, `width` words each, cut to the columns
/// `upper_left.0 ..= lower_right.0`.
fn flush_buffer_chunks(
    out: &mut Vec<Step>,
    buffer: &Vec<u16>,
    width: usize,
    upper_left: (u16, u16),
    lower_right: (u16, u16),
)
    requires
        upper_left.0 <= lower_right.0 < width,
        upper_left.1 <= lower_right.1,
        (lower_right.1 + 1) * width <= buffer@.len(),
    ensures
        final(out)@ == old(out)@ + Command::MemoryWrite.wire() + region_steps(
            buffer@,
            width as int,
            upper_left.1 as int,
            (lower_right.1 - upper_left.1 + 1) as nat,
            upper_left.0 as int,
            lower_right.0 as int,
        ),
{
    let ghost before = out@;
    Command::MemoryWrite.send(out);
    let (c0, r0) = (upper_left.0 as usize, upper_left.1 as usize);
    let (c1, r1) = (lower_right.0 as usize, lower_right.1 as usize);
    let len = buffer.len();
    for r in r0..r1 + 1
        invariant
            len == buffer@.len(),
            c0 <= c1 < width,
            r0 <= r1,
            (r1 + 1) * width <= buffer@.len(),
            out@ == before + Command::MemoryWrite.wire() + region_steps(
                buffer@,
                width as int,
                r0 as int,
                (r - r0) as nat,
                c0 as int,
                c1 as int,
            ),
    {
        assert(r * width + c1 + 1 <= (r1 + 1) * width) by (nonlinear_arith)
            requires
                r <= r1,
                c1 < width,
        ;
        let base = r * width;
        push_pixels(out, buffer, base + c0, base + c1 + 1);
    }
}

} // verus!
