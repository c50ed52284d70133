//! Display compositor: the single 240x240 RGB565 framebuffer, brightness
//! control, and the two commit modes.
//!
//! The compositor owns the only framebuffer; tiles paint into it through
//! [`TwatchDisplay::set_pixel`]. A commit computes the exact word stream a
//! panel transport must receive as a [`PanelWrite`]; pushing those words
//! over the wire is the driver layer's job, so a transport fault can only
//! drop a frame, never corrupt the computed contents. After a full commit
//! the buffer is cleared to the background color, so no stale pixel can
//! survive into the next frame.

use vstd::arithmetic::div_mod::lemma_fundamental_div_mod;
use vstd::arithmetic::div_mod::lemma_fundamental_div_mod_converse;
use vstd::prelude::*;

verus! {

/// Panel width in pixels.
pub const FRAME_WIDTH: u32 = 240;

/// Panel height in pixels.
pub const FRAME_HEIGHT: u32 = 240;

/// Number of pixel words in the framebuffer.
pub const FRAME_PIXELS: usize = 57600;

/// Background color the buffer is cleared to after a full commit.
pub const BACKGROUND: u16 = 0;

/// A pixel position; commits may start from any point on the panel.
#[derive(Clone, Copy, Debug, PartialEq, Eq, Structural)]
pub struct Point {
    pub x: i32,
    pub y: i32,
}

/// Extent of a rectangle in pixels.
#[derive(Clone, Copy, Debug, PartialEq, Eq, Structural)]
pub struct Size {
    pub width: u32,
    pub height: u32,
}

/// The dirty rectangle of a partial commit.
#[derive(Clone, Copy, Debug, PartialEq, Eq, Structural)]
pub struct Rectangle {
    pub top_left: Point,
    pub size: Size,
}

impl Rectangle {
    /// The rectangle lies on the panel.
    pub open spec fn spec_valid(self) -> bool {
        &&& 0 <= self.top_left.x
        &&& 0 <= self.top_left.y
        &&& self.top_left.x + self.size.width <= FRAME_WIDTH
        &&& self.top_left.y + self.size.height <= FRAME_HEIGHT
    }

}

/// The whole panel as a rectangle.
pub open spec fn spec_full_screen() -> Rectangle {
    Rectangle {
        top_left: Point { x: 0, y: 0 },
        size: Size { width: FRAME_WIDTH, height: FRAME_HEIGHT },
    }
}

/// The whole panel as a rectangle.
pub fn full_screen() -> (r: Rectangle)
    ensures
        r == spec_full_screen(),
{
    Rectangle {
        top_left: Point { x: 0, y: 0 },
        size: Size { width: FRAME_WIDTH, height: FRAME_HEIGHT },
    }
}

/// A frame with every pixel at the background color.
pub open spec fn spec_black_frame() -> Seq<u16> {
    Seq::new(FRAME_PIXELS as nat, |i: int| BACKGROUND)
}

/// The word stream a commit of rectangle `rect` sends for buffer contents
/// `fb`: the rectangle's pixels row by row. The backing store is row-major,
/// so word `i` of the stream is row `i / width`, column `i % width` of the
/// rectangle.
pub open spec fn spec_partial_words(fb: Seq<u16>, rect: Rectangle) -> Seq<u16> {
    Seq::new(
        (rect.size.width * rect.size.height) as nat,
        |i: int|
            fb[(rect.top_left.y + i / (rect.size.width as int)) * (FRAME_WIDTH as int)
                + rect.top_left.x + i % (rect.size.width as int)],
    )
}

/// One panel transfer: the target region and the pixel words, in the order
/// the panel receives them.
pub struct PanelWrite {
    pub region: Rectangle,
    pub words: Vec<u16>,
}

/// Brightness control: the current backlight duty level (percent) and the
/// level in use before the display was last switched off, kept so waking
/// restores the brightness the wearer had chosen.
#[derive(Clone, Copy, Debug, PartialEq, Eq, Structural)]
pub struct Backlight {
    pub level: u32,
    pub last_on_level: u32,
}

impl Backlight {
    /// Levels are percentages; the remembered on-level is never zero, so
    /// switching the display back on always lights it.
    pub open spec fn wf(self) -> bool {
        &&& self.level <= 100
        &&& 1 <= self.last_on_level <= 100
    }

    /// Full brightness, as after power-on.
    pub fn new() -> (r: Self)
        ensures
            r.wf(),
            r.level == 100,
            r.last_on_level == 100,
    {
        Backlight { level: 100, last_on_level: 100 }
    }
}

/// PWM duty for a brightness level: `level` percent of the channel's
/// maximum duty.
pub fn backlight_duty(level: u32, max_duty: u32) -> (r: u32)
    requires
        level <= 100,
    ensures
        r == level * max_duty / 100,
{
    proof {
        assert(level * max_duty <= 100 * max_duty) by (nonlinear_arith)
            requires
                level <= 100,
        ;
    }
    ((level as u64) * (max_duty as u64) / 100u64) as u32
}

/// The compositor: the framebuffer and the brightness control.
pub struct TwatchDisplay {
    pub framebuffer: Vec<u16>,
    pub backlight: Backlight,
}

impl TwatchDisplay {
    /// The buffer always holds exactly one full frame.
    pub open spec fn wf(self) -> bool {
        &&& self.framebuffer.len() == FRAME_PIXELS
        &&& self.backlight.wf()
    }

    /// A display with a cleared frame and the given brightness control.
    pub fn new(backlight: Backlight) -> (r: Self)
        requires
            backlight.wf(),
        ensures
            r.wf(),
            r.framebuffer@ == spec_black_frame(),
            r.backlight == backlight,
    {
        let mut framebuffer: Vec<u16> = Vec::new();
        let mut i: usize = 0;
        while i < FRAME_PIXELS
            invariant
                i <= FRAME_PIXELS,
                framebuffer@ == spec_black_frame().subrange(0, i as int),
            decreases FRAME_PIXELS - i,
        {
            proof {
                assert(spec_black_frame().subrange(0, i + 1) =~= spec_black_frame().subrange(
                    0,
                    i as int,
                ).push(BACKGROUND));
            }
            framebuffer.push(BACKGROUND);
            i = i + 1;
        }
        proof {
            assert(spec_black_frame().subrange(0, FRAME_PIXELS as int) =~= spec_black_frame());
        }
        TwatchDisplay { framebuffer, backlight }
    }

    /// Paint one pixel. This is the only way content enters the buffer:
    /// tiles render through a borrowed handle, they never own the buffer.
    pub fn set_pixel(&mut self, x: u32, y: u32, color: u16)
        requires
            old(self).wf(),
            x < FRAME_WIDTH,
            y < FRAME_HEIGHT,
        ensures
            final(self).wf(),
            final(self).framebuffer@ == old(self).framebuffer@.update(
                y * FRAME_WIDTH + x,
                color,
            ),
            final(self).backlight == old(self).backlight,
    {
        let idx: usize = (y as usize) * (FRAME_WIDTH as usize) + (x as usize);
        self.framebuffer[idx] = color;
    }

    /// Reset every pixel to the background color.
    pub fn clear_frame(&mut self)
        requires
            old(self).wf(),
        ensures
            final(self).wf(),
            final(self).framebuffer@ == spec_black_frame(),
            final(self).backlight == old(self).backlight,
    {
        let mut i: usize = 0;
        while i < FRAME_PIXELS
            invariant
                old(self).wf(),
                self.backlight == old(self).backlight,
                self.framebuffer.len() == FRAME_PIXELS,
                i <= FRAME_PIXELS,
                forall|j: int| 0 <= j < i ==> self.framebuffer@[j] == BACKGROUND,
            decreases FRAME_PIXELS - i,
        {
            self.framebuffer[i] = BACKGROUND;
            i = i + 1;
        }
        proof {
            assert(self.framebuffer@ =~= spec_black_frame());
        }
    }

    /// Partial commit: compute the word stream for the scanlines the
    /// rectangle spans. A sub-width rectangle does not span full rows, so
    /// each row is copied with its own source offset; when the rectangle
    /// equals the full screen the whole buffer is streamed directly, with
    /// no per-row loop.
    pub fn commit_display_partial(&self, rect: Rectangle) -> (r: PanelWrite)
        requires
            self.wf(),
            rect.spec_valid(),
        ensures
            r.region == rect,
            r.words@ == spec_partial_words(self.framebuffer@, rect),
    {
        if rect.top_left.x == 0 && rect.top_left.y == 0 && rect.size.width == FRAME_WIDTH
            && rect.size.height == FRAME_HEIGHT {
            let mut words: Vec<u16> = Vec::new();
            let mut i: usize = 0;
            while i < FRAME_PIXELS
                invariant
                    self.wf(),
                    i <= FRAME_PIXELS,
                    words@ == self.framebuffer@.subrange(0, i as int),
                decreases FRAME_PIXELS - i,
            {
                proof {
                    assert(self.framebuffer@.subrange(0, i + 1) =~= self.framebuffer@.subrange(
                        0,
                        i as int,
                    ).push(self.framebuffer@[i as int]));
                }
                words.push(self.framebuffer[i]);
                i = i + 1;
            }
            proof {
                assert(words@ =~= self.framebuffer@);
                lemma_partial_words_full_screen(self.framebuffer@);
            }
            PanelWrite { region: rect, words }
        } else {
            let w = rect.size.width as usize;
            let h = rect.size.height as usize;
            let sx = rect.top_left.x as usize;
            let sy = rect.top_left.y as usize;
            let ghost target = spec_partial_words(self.framebuffer@, rect);
            proof {
                assert(target.len() == w * h);
            }
            let mut words: Vec<u16> = Vec::new();
            let mut row: usize = 0;
            while row < h
                invariant
                    self.wf(),
                    rect.spec_valid(),
                    w == rect.size.width,
                    h == rect.size.height,
                    sx == rect.top_left.x,
                    sy == rect.top_left.y,
                    target == spec_partial_words(self.framebuffer@, rect),
                    target.len() == w * h,
                    row <= h,
                    words@.len() == row * w,
                    words@ == target.subrange(0, (row * w) as int),
                decreases h - row,
            {
                let mut col: usize = 0;
                proof {
                    assert(row * w + w <= h * w) by (nonlinear_arith)
                        requires
                            row < h,
                            0 <= w,
                        ;
                    assert(h * w == w * h) by (nonlinear_arith);
                }
                while col < w
                    invariant
                        self.wf(),
                        rect.spec_valid(),
                        w == rect.size.width,
                        h == rect.size.height,
                        sx == rect.top_left.x,
                        sy == rect.top_left.y,
                        target == spec_partial_words(self.framebuffer@, rect),
                        target.len() == w * h,
                        row < h,
                        col <= w,
                        row * w + w <= w * h,
                        words@.len() == row * w + col,
                        words@ == target.subrange(0, (row * w + col) as int),
                    decreases w - col,
                {
                    let src: usize = (sy + row) * (FRAME_WIDTH as usize) + sx + col;
                    proof {
                        assert((sy + row) * 240 + sx + col < 57600) by (nonlinear_arith)
                            requires
                                sy + h <= 240,
                                sx + w <= 240,
                                row < h,
                                col < w,
                                0 <= sy,
                                0 <= sx,
                        ;
                        let k = (row * w + col) as int;
                        lemma_fundamental_div_mod_converse(k, w as int, row as int, col as int);
                        assert(target[k] == self.framebuffer@[src as int]);
                        assert(target.subrange(0, k + 1) =~= target.subrange(0, k).push(target[k]));
                    }
                    words.push(self.framebuffer[src]);
                    col = col + 1;
                }
                row = row + 1;
                proof {
                    assert(row * w == (row - 1) * w + w) by (nonlinear_arith);
                }
            }
            proof {
                assert(h * w == w * h) by (nonlinear_arith);
                assert(target.subrange(0, target.len() as int) =~= target);
                assert(words@ =~= target);
            }
            PanelWrite { region: rect, words }
        }
    }

    /// Full commit: stream the entire buffer to the panel, then clear the
    /// buffer to the background color. Because the buffer is cleared after
    /// every full commit, a tile must repaint all content it wants visible
    /// each refresh — no stale pixel state can ever be displayed.
    pub fn commit_display(&mut self) -> (r: PanelWrite)
        requires
            old(self).wf(),
        ensures
            final(self).wf(),
            r.region == spec_full_screen(),
            r.words@ == old(self).framebuffer@,
            final(self).framebuffer@ == spec_black_frame(),
            final(self).backlight == old(self).backlight,
    {
        let rect = full_screen();
        let write = self.commit_display_partial(rect);
        proof {
            lemma_partial_words_full_screen(self.framebuffer@);
        }
        self.clear_frame();
        write
    }

    /// Current backlight level, in percent.
    pub fn get_display_level(&self) -> (r: u32)
        ensures
            r == self.backlight.level,
    {
        self.backlight.level
    }

    /// Set the backlight level (percent). A non-zero level is remembered
    /// as the level to restore when the display is switched back on.
    pub fn set_display_level(&mut self, level: u32)
        requires
            old(self).wf(),
            level <= 100,
        ensures
            final(self).wf(),
            final(self).backlight.level == level,
            final(self).backlight.last_on_level == if level > 0 {
                level as int
            } else {
                old(self).backlight.last_on_level as int
            },
            final(self).framebuffer == old(self).framebuffer,
    {
        self.backlight.level = level;
        if level > 0 {
            self.backlight.last_on_level = level;
        }
    }

    /// Switch the display back on at the brightness in use before it was
    /// last switched off.
    pub fn set_display_on(&mut self)
        requires
            old(self).wf(),
        ensures
            final(self).wf(),
            final(self).backlight.level == old(self).backlight.last_on_level,
            final(self).backlight.last_on_level == old(self).backlight.last_on_level,
            final(self).framebuffer == old(self).framebuffer,
    {
        let level = self.backlight.last_on_level;
        self.set_display_level(level);
    }

    /// Switch the display off, remembering the current brightness.
    pub fn set_display_off(&mut self)
        requires
            old(self).wf(),
        ensures
            final(self).wf(),
            final(self).backlight.level == 0,
            final(self).backlight.last_on_level == if old(self).backlight.level > 0 {
                old(self).backlight.level as int
            } else {
                old(self).backlight.last_on_level as int
            },
            final(self).framebuffer == old(self).framebuffer,
    {
        if self.backlight.level > 0 {
            self.backlight.last_on_level = self.backlight.level;
        }
        self.backlight.level = 0;
    }
}

/// A partial commit whose rectangle equals the full screen sends exactly
/// the words a full commit of the same buffer contents sends: the two
/// commit modes produce identical panel output on the whole screen.
pub proof fn lemma_partial_words_full_screen(fb: Seq<u16>)
    requires
        fb.len() == FRAME_PIXELS,
    ensures
        spec_partial_words(fb, spec_full_screen()) == fb,
{
    let rect = spec_full_screen();
    let s = spec_partial_words(fb, rect);
    assert forall|i: int| 0 <= i < FRAME_PIXELS implies s[i] == fb[i] by {
        lemma_fundamental_div_mod(i, 240);
    }
    assert(s =~= fb);
}

} // verus!
