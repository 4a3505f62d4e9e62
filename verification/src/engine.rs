//! The per-frame engine state: input bookkeeping, compositing, timing
//! and cooperative termination.
//!
//! The engine owns no window.  A display backend outside this crate opens
//! the window, polls raw input and presents packed frames; each frame it
//! hands the engine plain values (raw samples, cursor position, elapsed
//! time) and takes plain values back (the packed buffer, whether to keep
//! running).

use vstd::prelude::*;
use vstd::string::StringExecFns;

use crate::input::ButtonState;
use crate::input::KeyboardKey;
use crate::input::MouseButton;
use crate::input::KEY_COUNT;
use crate::input::key_index;
use crate::input::next_state;
use crate::input::spec_key_index;
use crate::pixel::Pixel;
use crate::pixel::PixelMode;
use crate::pixel::blend_over;
use crate::pixel::pixel_packed;
use crate::sprite::Sprite;

verus! {

/// A fatal engine error: the kind of failure and the backend's message.
#[derive(Debug)]
pub struct YapeError {
    pub kind: String,
    pub message: String,
}

impl YapeError {
    /// An error of the given kind carrying the given message.
    pub fn new(kind: &str, message: &str) -> (r: YapeError)
        ensures
            r.kind@ == kind@,
            r.message@ == message@,
    {
        YapeError { kind: String::from_str(kind), message: String::from_str(message) }
    }
}

/// The result type of every fallible engine operation.
pub type YapeResult<T> = Result<T, YapeError>;

/// Microseconds in one second: the elapsed-time accumulator threshold at
/// which the FPS reading refreshes.
pub const MICROS_PER_SECOND: u64 = 1_000_000;

/// The pixel a draw request resolves to under the given compositing mode:
/// `Normal` takes the source, `Mask` takes the source only when fully
/// opaque, `Alpha` interpolates it over the destination with the global
/// blend factor.
pub open spec fn composited(mode: PixelMode, blend: u8, src: Pixel, dst: Pixel) -> Pixel {
    match mode {
        PixelMode::Normal => src,
        PixelMode::Mask => if src.alpha == 255 {
            src
        } else {
            dst
        },
        PixelMode::Alpha => blend_over(src, dst, blend),
    }
}

/// In mask mode a source pixel that is not fully opaque never changes the
/// destination, and a fully opaque one always replaces it.
pub proof fn lemma_mask_mode(blend: u8, src: Pixel, dst: Pixel)
    ensures
        src.alpha != 255 ==> composited(PixelMode::Mask, blend, src, dst) == dst,
        src.alpha == 255 ==> composited(PixelMode::Mask, blend, src, dst) == src,
{
}

/// The number of times the frame loop invokes the update callback when
/// the callback's answers are `results`, oldest first: it runs frames
/// until an answer is `false`, counting the frame that answered `false`.
pub open spec fn updates_run(results: Seq<bool>) -> int
    decreases results.len(),
{
    if results.len() == 0 {
        0
    } else if results[0] {
        1 + updates_run(results.drop_first())
    } else {
        1
    }
}

/// A run whose first `false` answer comes on the third frame performs
/// exactly three update calls: the loop honours the stop request at the
/// end of that frame and never starts a fourth.
pub proof fn lemma_stops_on_third_frame(results: Seq<bool>)
    requires
        results.len() >= 3,
        results[0],
        results[1],
        !results[2],
    ensures
        updates_run(results) == 3,
{
    let r1 = results.drop_first();
    let r2 = r1.drop_first();
    assert(r1[0] == results[1] && r1.len() == results.len() - 1);
    assert(r2[0] == results[2] && r2.len() == results.len() - 2);
    assert(updates_run(r2) == 1);
    assert(updates_run(r1) == 1 + updates_run(r2));
}

/// Splitting one frame off an unfinished run: the frames run on the
/// answers from position `i` on are one plus the frames run on the
/// answers after `i` when the answer at `i` is `true`, and just the one
/// frame when it is `false`.
proof fn lemma_updates_run_step(results: Seq<bool>, i: int)
    requires
        0 <= i < results.len(),
    ensures
        updates_run(results.skip(i)) == if results[i] {
            1 + updates_run(results.skip(i + 1))
        } else {
            1
        },
{
    let s = results.skip(i);
    assert(s[0] == results[i]);
    assert(s.drop_first() =~= results.skip(i + 1));
}

/// The engine's per-frame state: screen geometry, the framebuffer, the
/// compositing configuration, edge-triggered input state, timing counters
/// and the cooperative running flag.  Created once at startup, mutated
/// once per frame, discarded when the loop exits.
pub struct YapeEngine {
    /// Logical screen width in cells.
    pub screen_w: u32,
    /// Logical screen height in cells.
    pub screen_h: u32,
    /// Display pixels per logical cell, horizontally.
    pub pixel_w: u32,
    /// Display pixels per logical cell, vertically.
    pub pixel_h: u32,
    /// How draws composite into the buffer.
    pub pixel_mode: PixelMode,
    /// The global blend factor for alpha-mode compositing, out of 255.
    pub blend_factor: u8,
    /// The cooperative running flag; cleared when a callback asks to stop.
    pub active: bool,
    /// Whether the backend reported the window focused this frame.
    pub window_active: bool,
    /// The framebuffer, sized to the logical screen.
    pub buffer: Sprite,
    /// The FPS reading recorded at the last full second.
    pub last_fps: u32,
    /// Frames counted since the last FPS refresh.
    pub frame_counter: u32,
    /// Elapsed time accumulated since the last FPS refresh, in
    /// microseconds.
    pub frame_timer_micros: u64,
    /// The cursor position in logical cells.
    pub mouse_pos_x: u32,
    pub mouse_pos_y: u32,
    /// The scroll delta reported this frame; reset at the end of each
    /// frame.
    pub mouse_wheel_delta: i32,
    /// Edge-triggered state of the three mouse buttons.
    pub mouse_left: ButtonState,
    pub mouse_middle: ButtonState,
    pub mouse_right: ButtonState,
    /// Edge-triggered state of every tracked keyboard identity, indexed
    /// by `key_index`.
    pub keyboard: Vec<ButtonState>,
}

impl YapeEngine {
    /// The structural invariant: positive dimensions, a framebuffer sized
    /// to the screen, and one keyboard slot per tracked identity.
    pub open spec fn wf(self) -> bool {
        &&& 1 <= self.screen_w
        &&& 1 <= self.screen_h
        &&& 1 <= self.pixel_w
        &&& 1 <= self.pixel_h
        &&& self.buffer.wf()
        &&& self.buffer.width == self.screen_w
        &&& self.buffer.height == self.screen_h
        &&& self.keyboard@.len() == KEY_COUNT
    }

    /// The tracked state of the given mouse button.
    pub open spec fn mouse_state(self, button: MouseButton) -> ButtonState {
        match button {
            MouseButton::Left => self.mouse_left,
            MouseButton::Middle => self.mouse_middle,
            MouseButton::Right => self.mouse_right,
        }
    }

    /// A fresh engine for a logical screen of `screen_w` by `screen_h`
    /// cells, each `pixel_w` by `pixel_h` display pixels: not yet stopped,
    /// framebuffer transparent, every input identity untouched, counters
    /// at zero, compositing in normal mode at full blend.
    pub fn construct(screen_w: u32, screen_h: u32, pixel_w: u32, pixel_h: u32) -> (r: YapeEngine)
        requires
            1 <= screen_w,
            1 <= screen_h,
            1 <= pixel_w,
            1 <= pixel_h,
            screen_w * screen_h <= u32::MAX,
        ensures
            r.wf(),
            r.screen_w == screen_w,
            r.screen_h == screen_h,
            r.pixel_w == pixel_w,
            r.pixel_h == pixel_h,
            r.pixel_mode == PixelMode::Normal,
            r.blend_factor == 255,
            r.active,
            !r.window_active,
            forall|i: int|
                0 <= i < r.buffer.data@.len() ==> r.buffer.data@[i]
                    == crate::pixel::blank_pixel(),
            r.last_fps == 0,
            r.frame_counter == 0,
            r.frame_timer_micros == 0,
            r.mouse_pos_x == 0,
            r.mouse_pos_y == 0,
            r.mouse_wheel_delta == 0,
            r.mouse_left == crate::input::empty_state(),
            r.mouse_middle == crate::input::empty_state(),
            r.mouse_right == crate::input::empty_state(),
            forall|i: int|
                0 <= i < KEY_COUNT ==> r.keyboard@[i] == crate::input::empty_state(),
    {
        let mut keyboard: Vec<ButtonState> = Vec::new();
        let mut i: usize = 0;
        while i < KEY_COUNT
            invariant
                i <= KEY_COUNT,
                keyboard@.len() == i,
                forall|j: int| 0 <= j < i ==> keyboard@[j] == crate::input::empty_state(),
            decreases KEY_COUNT - i,
        {
            keyboard.push(ButtonState::empty());
            i = i + 1;
        }
        YapeEngine {
            screen_w,
            screen_h,
            pixel_w,
            pixel_h,
            pixel_mode: PixelMode::Normal,
            blend_factor: 255,
            active: true,
            window_active: false,
            buffer: Sprite::new(screen_w, screen_h),
            last_fps: 0,
            frame_counter: 0,
            frame_timer_micros: 0,
            mouse_pos_x: 0,
            mouse_pos_y: 0,
            mouse_wheel_delta: 0,
            mouse_left: ButtonState::empty(),
            mouse_middle: ButtonState::empty(),
            mouse_right: ButtonState::empty(),
            keyboard,
        }
    }

    /// Whether the window was focused when input was last refreshed.
    pub fn is_window_focused(&self) -> (r: bool)
        ensures
            r == self.window_active,
    {
        self.window_active
    }

    /// The tracked edge-triggered state of the given keyboard identity.
    pub fn get_key_state(&self, key: &KeyboardKey) -> (r: ButtonState)
        requires
            self.wf(),
        ensures
            r == self.keyboard@[spec_key_index(*key)],
    {
        let i = key_index(*key);
        self.keyboard[i]
    }

    /// The tracked edge-triggered state of the given mouse button.
    pub fn get_mouse_button_state(&self, button: &MouseButton) -> (r: ButtonState)
        ensures
            r == self.mouse_state(*button),
    {
        match button {
            MouseButton::Left => self.mouse_left,
            MouseButton::Middle => self.mouse_middle,
            MouseButton::Right => self.mouse_right,
        }
    }

    /// The cursor's horizontal position in logical cells.
    pub fn get_mouse_x(&self) -> (r: u32)
        ensures
            r == self.mouse_pos_x,
    {
        self.mouse_pos_x
    }

    /// The cursor's vertical position in logical cells.
    pub fn get_mouse_y(&self) -> (r: u32)
        ensures
            r == self.mouse_pos_y,
    {
        self.mouse_pos_y
    }

    /// The scroll delta reported this frame.
    pub fn get_mouse_wheel(&self) -> (r: i32)
        ensures
            r == self.mouse_wheel_delta,
    {
        self.mouse_wheel_delta
    }

    /// The logical screen width in cells.
    pub fn get_screen_width(&self) -> (r: u32)
        ensures
            r == self.screen_w,
    {
        self.screen_w
    }

    /// The logical screen height in cells.
    pub fn get_screen_height(&self) -> (r: u32)
        ensures
            r == self.screen_h,
    {
        self.screen_h
    }

    /// The FPS reading recorded at the last full second.
    pub fn get_fps(&self) -> (r: u32)
        ensures
            r == self.last_fps,
    {
        self.last_fps
    }

    /// Selects how subsequent draws composite into the buffer.
    pub fn set_pixel_mode(&mut self, mode: PixelMode)
        ensures
            *final(self) == (YapeEngine { pixel_mode: mode, ..*old(self) }),
    {
        self.pixel_mode = mode;
    }

    /// The active compositing mode.
    pub fn get_pixel_mode(&self) -> (r: PixelMode)
        ensures
            r == self.pixel_mode,
    {
        self.pixel_mode
    }

    /// Sets the global blend factor for alpha-mode compositing, out of
    /// 255.
    pub fn set_pixel_blend(&mut self, blend: u8)
        ensures
            *final(self) == (YapeEngine { blend_factor: blend, ..*old(self) }),
    {
        self.blend_factor = blend;
    }

    /// The global blend factor, out of 255.
    pub fn get_pixel_blend(&self) -> (r: u8)
        ensures
            r == self.blend_factor,
    {
        self.blend_factor
    }

    /// Records whether the backend reports the window focused.
    pub fn set_window_active(&mut self, focused: bool)
        ensures
            *final(self) == (YapeEngine { window_active: focused, ..*old(self) }),
    {
        self.window_active = focused;
    }

    /// Converts a raw cursor position in display pixels to logical cells
    /// and records it.
    pub fn set_mouse_position(&mut self, raw_x: u32, raw_y: u32)
        requires
            old(self).wf(),
        ensures
            *final(self) == (YapeEngine {
                mouse_pos_x: (raw_x / old(self).pixel_w) as u32,
                mouse_pos_y: (raw_y / old(self).pixel_h) as u32,
                ..*old(self)
            }),
    {
        self.mouse_pos_x = raw_x / self.pixel_w;
        self.mouse_pos_y = raw_y / self.pixel_h;
    }

    /// Records the scroll delta the backend reported this frame.
    pub fn set_mouse_wheel(&mut self, delta: i32)
        ensures
            *final(self) == (YapeEngine { mouse_wheel_delta: delta, ..*old(self) }),
    {
        self.mouse_wheel_delta = delta;
    }

    /// Runs one frame of the edge-detection state machine on each mouse
    /// button from this frame's raw samples.
    pub fn update_mouse_buttons(&mut self, left_down: bool, middle_down: bool, right_down: bool)
        ensures
            *final(self) == (YapeEngine {
                mouse_left: next_state(old(self).mouse_left, left_down),
                mouse_middle: next_state(old(self).mouse_middle, middle_down),
                mouse_right: next_state(old(self).mouse_right, right_down),
                ..*old(self)
            }),
    {
        self.mouse_left = self.mouse_left.step(left_down);
        self.mouse_middle = self.mouse_middle.step(middle_down);
        self.mouse_right = self.mouse_right.step(right_down);
    }

    /// Runs one frame of the edge-detection state machine on every
    /// tracked keyboard identity, from this frame's raw samples indexed
    /// by `key_index`.  Every identity is stepped exactly once.
    pub fn update_keyboard(&mut self, raw: &Vec<bool>)
        requires
            old(self).wf(),
            raw@.len() == KEY_COUNT,
        ensures
            final(self).wf(),
            final(self).keyboard@.len() == KEY_COUNT,
            forall|i: int|
                0 <= i < KEY_COUNT ==> final(self).keyboard@[i] == next_state(
                    old(self).keyboard@[i],
                    raw@[i],
                ),
            *final(self) == (YapeEngine { keyboard: final(self).keyboard, ..*old(self) }),
    {
        Self::step_all(&mut self.keyboard, raw);
    }

    /// Steps every tracked state once with its raw sample.
    fn step_all(states: &mut Vec<ButtonState>, raw: &Vec<bool>)
        requires
            old(states)@.len() == raw@.len(),
        ensures
            final(states)@.len() == old(states)@.len(),
            forall|i: int|
                0 <= i < old(states)@.len() ==> final(states)@[i] == next_state(
                    old(states)@[i],
                    raw@[i],
                ),
    {
        let n = states.len();
        let mut i: usize = 0;
        while i < n
            invariant
                i <= n,
                n == states@.len(),
                n == raw@.len(),
                forall|j: int| i <= j < n ==> states@[j] == old(states)@[j],
                forall|j: int|
                    0 <= j < i ==> states@[j] == next_state(old(states)@[j], raw@[j]),
            decreases n - i,
        {
            let stepped = states[i].step(raw[i]);
            states.set(i, stepped);
            i = i + 1;
        }
    }

    /// Resolves a draw request at `(x, y)` against the framebuffer under
    /// the active compositing mode.  Every drawing primitive funnels
    /// through this single compositing decision.  The caller is
    /// responsible for the bounds.
    pub fn draw_pixel(&mut self, x: u32, y: u32, pixel: &Pixel)
        requires
            old(self).wf(),
            x < old(self).screen_w,
            y < old(self).screen_h,
        ensures
            final(self).wf(),
            final(self).buffer.data@ == old(self).buffer.data@.update(
                old(self).buffer.index_of(x as int, y as int),
                composited(
                    old(self).pixel_mode,
                    old(self).blend_factor,
                    *pixel,
                    old(self).buffer.data@[old(self).buffer.index_of(x as int, y as int)],
                ),
            ),
            *final(self) == (YapeEngine { buffer: final(self).buffer, ..*old(self) }),
            final(self).buffer == (Sprite { data: final(self).buffer.data, ..old(self).buffer }),
    {
        proof {
            old(self).buffer.lemma_index_in_range(x as int, y as int);
        }
        let ghost index = old(self).buffer.index_of(x as int, y as int);
        let ghost dst = old(self).buffer.data@[index];
        match self.pixel_mode {
            PixelMode::Normal => {
                self.buffer.set_pixel(x, y, pixel);
            },
            PixelMode::Alpha => {
                let i = (y * self.buffer.width + x) as usize;
                let background = self.buffer.data[i];
                let blended = pixel.calculate_alpha(&background, self.blend_factor);
                self.buffer.set_pixel(x, y, &blended);
            },
            PixelMode::Mask => {
                if pixel.alpha == 255 {
                    self.buffer.set_pixel(x, y, pixel);
                } else {
                    // Not fully opaque: the draw is a no-op, which is the
                    // stored sequence updated with its own element.
                    proof {
                        assert(self.buffer.data@ =~= self.buffer.data@.update(index, dst));
                    }
                }
            },
        }
    }

    /// Overwrites every pixel of the framebuffer with `pixel`.
    pub fn clear(&mut self, pixel: &Pixel)
        requires
            old(self).wf(),
        ensures
            final(self).wf(),
            final(self).buffer.data@.len() == old(self).buffer.data@.len(),
            forall|i: int|
                0 <= i < final(self).buffer.data@.len() ==> final(self).buffer.data@[i] == *pixel,
            *final(self) == (YapeEngine { buffer: final(self).buffer, ..*old(self) }),
            final(self).buffer == (Sprite { data: final(self).buffer.data, ..old(self).buffer }),
    {
        self.buffer.clear(pixel);
    }

    /// Converts the framebuffer to the packed presentation format the
    /// display backend consumes: one `red << 16 | green << 8 | blue`
    /// integer per pixel, row-major.
    pub fn to_rgb_buffer(&self) -> (r: Vec<u32>)
        ensures
            r@.len() == self.buffer.data@.len(),
            forall|i: int|
                0 <= i < r@.len() ==> r@[i] == pixel_packed(self.buffer.data@[i]),
    {
        let n = self.buffer.data.len();
        let mut packed: Vec<u32> = Vec::new();
        let mut i: usize = 0;
        while i < n
            invariant
                i <= n,
                n == self.buffer.data@.len(),
                packed@.len() == i,
                forall|j: int|
                    0 <= j < i ==> packed@[j] == pixel_packed(self.buffer.data@[j]),
            decreases n - i,
        {
            packed.push(self.buffer.data[i].to_rgb());
            i = i + 1;
        }
        packed
    }

    /// Whether the loop should run another frame: the engine is still
    /// active and the backend still reports the window open.
    pub fn should_continue(&self, window_open: bool) -> (r: bool)
        ensures
            r == (self.active && window_open),
    {
        self.active && window_open
    }

    /// Records a callback's answer: answering `false` clears the running
    /// flag, and nothing ever sets it again.
    pub fn apply_update_result(&mut self, keep_running: bool)
        ensures
            *final(self) == (YapeEngine {
                active: old(self).active && keep_running,
                ..*old(self)
            }),
    {
        if !keep_running {
            self.active = false;
        }
    }

    /// Closes a frame: resets the per-frame scroll delta and advances the
    /// FPS accounting.  The frame counter and the elapsed-time accumulator
    /// grow (saturating at their types' limits, far beyond any real run);
    /// once the accumulator reaches a full second the frame count becomes
    /// the FPS reading, the counter resets to zero and the accumulator
    /// keeps the remainder.  Returns whether the reading refreshed, so
    /// the caller can update the window title.
    pub fn end_frame(&mut self, elapsed_micros: u32) -> (fps_updated: bool)
        ensures
            ({
                let counter = if old(self).frame_counter < u32::MAX {
                    (old(self).frame_counter + 1) as u32
                } else {
                    u32::MAX
                };
                let timer = if old(self).frame_timer_micros + elapsed_micros <= u64::MAX {
                    (old(self).frame_timer_micros + elapsed_micros) as u64
                } else {
                    u64::MAX
                };
                &&& fps_updated == (timer >= MICROS_PER_SECOND)
                &&& *final(self) == (if timer >= MICROS_PER_SECOND {
                    YapeEngine {
                        mouse_wheel_delta: 0,
                        last_fps: counter,
                        frame_counter: 0,
                        frame_timer_micros: (timer - MICROS_PER_SECOND) as u64,
                        ..*old(self)
                    }
                } else {
                    YapeEngine {
                        mouse_wheel_delta: 0,
                        frame_counter: counter,
                        frame_timer_micros: timer,
                        ..*old(self)
                    }
                })
            }),
    {
        self.mouse_wheel_delta = 0;
        let counter = if self.frame_counter < u32::MAX {
            self.frame_counter + 1
        } else {
            u32::MAX
        };
        let timer = if self.frame_timer_micros <= u64::MAX - (elapsed_micros as u64) {
            self.frame_timer_micros + (elapsed_micros as u64)
        } else {
            u64::MAX
        };
        if timer >= MICROS_PER_SECOND {
            self.last_fps = counter;
            self.frame_counter = 0;
            self.frame_timer_micros = timer - MICROS_PER_SECOND;
            true
        } else {
            self.frame_counter = counter;
            self.frame_timer_micros = timer;
            false
        }
    }

    /// Runs the frame loop's termination logic against a fixed sequence
    /// of callback answers: each frame the loop checks the running flag,
    /// invokes the update callback and records its answer.  Returns the
    /// number of update calls performed, which is `updates_run` of the
    /// answers; the engine stays active only if every answer was `true`.
    #[verifier::loop_isolation(false)]
    pub fn run_frames(&mut self, results: &Vec<bool>) -> (n: usize)
        ensures
            n == if old(self).active {
                updates_run(results@)
            } else {
                0
            },
            *final(self) == (YapeEngine {
                active: old(self).active && (forall|k: int|
                    0 <= k < results@.len() ==> results@[k]),
                ..*old(self)
            }),
    {
        let len = results.len();
        let mut i: usize = 0;
        proof {
            assert(results@.skip(0) =~= results@);
        }
        while self.active && i < len
            invariant
                i <= len,
                self.active == (old(self).active && (forall|k: int|
                    0 <= k < i ==> results@[k])),
                *self == (YapeEngine { active: self.active, ..*old(self) }),
                old(self).active ==> updates_run(results@) == i + if self.active {
                    updates_run(results@.skip(i as int))
                } else {
                    0
                },
                !old(self).active ==> i == 0,
            decreases len - i,
        {
            proof {
                lemma_updates_run_step(results@, i as int);
            }
            let keep_running = results[i];
            self.apply_update_result(keep_running);
            i = i + 1;
        }
        proof {
            if old(self).active && self.active {
                assert(results@.skip(i as int) =~= Seq::<bool>::empty());
            }
        }
        i
    }
}

} // verus!
