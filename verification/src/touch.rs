//! The touch gesture recogniser.
//!
//! Each poll hands the recogniser either the primary contact point, in
//! logical screen coordinates, or nothing. A press starts a session; the first
//! poll without contact ends it and classifies the movement between the first
//! and the last point as a tap, a swipe or nothing.

use vstd::prelude::*;
use crate::layout::Orientation;

verus! {

/// Smallest horizontal travel of a horizontal swipe.
pub const TOUCH_SWIPE_MIN_X_PX: i32 = 64;

/// Largest vertical travel that a horizontal swipe may have.
pub const TOUCH_SWIPE_MAX_Y_PX: i32 = 80;

/// Smallest vertical travel of a vertical swipe.
pub const TOUCH_SWIPE_MIN_Y_PX: i32 = 48;

/// Time after a swipe during which no further swipe is reported.
pub const TOUCH_SWIPE_COOLDOWN_MS: u32 = 300;

/// Largest travel on either axis that still counts as a tap.
pub const TOUCH_TAP_MAX_MOVE_PX: i32 = 18;

/// Length of the frame that the touch controller answers a read with.
pub const TOUCH_FRAME_LEN: usize = 14;

/// What one press and release meant.
#[derive(Debug, Clone, Copy, PartialEq, Eq, Structural)]
pub enum Gesture {
    Nothing,
    Tap { x: i16, y: i16 },
    SwipeLeft,
    SwipeRight,
    SwipeUp,
    SwipeDown,
}

/// The recogniser's state as a mathematical value.
pub struct TouchSession {
    pub pressed: bool,
    pub start_x: int,
    pub start_y: int,
    pub last_x: int,
    pub last_y: int,
    /// The time at which the last swipe was reported, if there was one.
    pub last_swipe_ms: Option<int>,
}

pub open spec fn abs(v: int) -> int {
    if v < 0 {
        -v
    } else {
        v
    }
}

/// Milliseconds from `then` to `now` on a 32-bit clock that wraps around.
pub open spec fn elapsed_ms(now: int, then: int) -> int {
    if now >= then {
        now - then
    } else {
        now - then + 0x1_0000_0000
    }
}

/// The movement stays within the tap tolerance on both axes.
pub open spec fn is_tap_move(dx: int, dy: int) -> bool {
    abs(dx) <= TOUCH_TAP_MAX_MOVE_PX && abs(dy) <= TOUCH_TAP_MAX_MOVE_PX
}

/// The movement is long enough and steep enough for a vertical swipe.
pub open spec fn is_vertical_swipe(dx: int, dy: int) -> bool {
    abs(dy) >= TOUCH_SWIPE_MIN_Y_PX && abs(dy) >= abs(dx)
}

/// The movement is long enough and flat enough for a horizontal swipe.
pub open spec fn is_horizontal_swipe(dx: int, dy: int) -> bool {
    abs(dx) >= TOUCH_SWIPE_MIN_X_PX && abs(dy) <= TOUCH_SWIPE_MAX_Y_PX && abs(dx) > abs(dy)
}

/// A release falls into the cooldown when a swipe was reported before and
/// less than the cooldown has passed since. Without a previous swipe there is
/// no cooldown.
pub open spec fn in_cooldown(since_swipe: Option<int>) -> bool {
    match since_swipe {
        Some(ms) => ms < TOUCH_SWIPE_COOLDOWN_MS,
        None => false,
    }
}

/// The gesture of a release at `(last_x, last_y)` after a movement of
/// `(dx, dy)`. `since_swipe` is the time in milliseconds since the previous
/// swipe, or `None` when no swipe was reported yet. The tap test comes first,
/// then the cooldown, then the vertical swipe, then the horizontal one.
pub open spec fn classify_release(
    dx: int,
    dy: int,
    last_x: i16,
    last_y: i16,
    since_swipe: Option<int>,
) -> Gesture {
    if is_tap_move(dx, dy) {
        Gesture::Tap { x: last_x, y: last_y }
    } else if in_cooldown(since_swipe) {
        Gesture::Nothing
    } else if is_vertical_swipe(dx, dy) {
        if dy < 0 {
            Gesture::SwipeUp
        } else {
            Gesture::SwipeDown
        }
    } else if is_horizontal_swipe(dx, dy) {
        if dx < 0 {
            Gesture::SwipeLeft
        } else {
            Gesture::SwipeRight
        }
    } else {
        Gesture::Nothing
    }
}

pub open spec fn is_swipe(g: Gesture) -> bool {
    g is SwipeLeft || g is SwipeRight || g is SwipeUp || g is SwipeDown
}

impl TouchSession {
    /// The idle state that a recogniser starts in: no finger down, and no
    /// swipe reported yet.
    pub open spec fn idle() -> TouchSession {
        TouchSession {
            pressed: false,
            start_x: 0,
            start_y: 0,
            last_x: 0,
            last_y: 0,
            last_swipe_ms: None,
        }
    }

    /// The time from the last reported swipe to `now_ms`, if a swipe was
    /// reported.
    pub open spec fn since_swipe(self, now_ms: u32) -> Option<int> {
        match self.last_swipe_ms {
            Some(then) => Some(elapsed_ms(now_ms as int, then)),
            None => None,
        }
    }

    /// The gesture that one poll reports: none while the finger is down or
    /// while idle, and the classification of the whole movement on release.
    pub open spec fn gesture(self, contact: Option<(i16, i16)>, now_ms: u32) -> Gesture {
        if contact is None && self.pressed {
            classify_release(
                self.last_x - self.start_x,
                self.last_y - self.start_y,
                self.last_x as i16,
                self.last_y as i16,
                self.since_swipe(now_ms),
            )
        } else {
            Gesture::Nothing
        }
    }

    /// The state after one poll.
    pub open spec fn step(self, contact: Option<(i16, i16)>, now_ms: u32) -> TouchSession {
        match contact {
            Some((x, y)) => {
                if self.pressed {
                    TouchSession { last_x: x as int, last_y: y as int, ..self }
                } else {
                    TouchSession {
                        pressed: true,
                        start_x: x as int,
                        start_y: y as int,
                        last_x: x as int,
                        last_y: y as int,
                        ..self
                    }
                }
            },
            None => {
                if self.pressed {
                    TouchSession {
                        pressed: false,
                        last_swipe_ms: if is_swipe(self.gesture(contact, now_ms)) {
                            Some(now_ms as int)
                        } else {
                            self.last_swipe_ms
                        },
                        ..self
                    }
                } else {
                    self
                }
            },
        }
    }
}

/// Tracks one finger from press to release.
pub struct TouchState {
    pressed: bool,
    start_x: i16,
    start_y: i16,
    last_x: i16,
    last_y: i16,
    last_swipe_ms: Option<u32>,
}

impl View for TouchState {
    type V = TouchSession;

    closed spec fn view(&self) -> TouchSession {
        TouchSession {
            pressed: self.pressed,
            start_x: self.start_x as int,
            start_y: self.start_y as int,
            last_x: self.last_x as int,
            last_y: self.last_y as int,
            last_swipe_ms: match self.last_swipe_ms {
                Some(then) => Some(then as int),
                None => None,
            },
        }
    }
}

impl TouchState {
    /// A recogniser with no finger down that has not reported a swipe yet.
    pub fn new() -> (s: TouchState)
        ensures
            s@ == TouchSession::idle(),
    {
        TouchState {
            pressed: false,
            start_x: 0,
            start_y: 0,
            last_x: 0,
            last_y: 0,
            last_swipe_ms: None,
        }
    }

    /// The time at which the last swipe was reported, if there was one.
    pub fn last_swipe_ms(&self) -> (t: Option<u32>)
        ensures
            match t {
                Some(then) => self@.last_swipe_ms == Some(then as int),
                None => self@.last_swipe_ms is None,
            },
    {
        self.last_swipe_ms
    }

    /// True while a finger is down.
    pub fn is_pressed(&self) -> (p: bool)
        ensures
            p == self@.pressed,
    {
        self.pressed
    }

    /// Takes the result of one read of the touch controller, the primary
    /// contact point or `None` for a failed read or no contact, and returns
    /// the gesture that this poll completes.
    pub fn poll(&mut self, contact: Option<(i16, i16)>, now_ms: u32) -> (g: Gesture)
        ensures
            g == old(self)@.gesture(contact, now_ms),
            final(self)@ == old(self)@.step(contact, now_ms),
    {
        if let Some((x, y)) = contact {
            if !self.pressed {
                self.pressed = true;
                self.start_x = x;
                self.start_y = y;
            }
            self.last_x = x;
            self.last_y = y;
            return Gesture::Nothing;
        }
        if !self.pressed {
            return Gesture::Nothing;
        }
        self.pressed = false;

        let dx: i32 = self.last_x as i32 - self.start_x as i32;
        let dy: i32 = self.last_y as i32 - self.start_y as i32;
        let abs_dx: i32 = if dx < 0 { -dx } else { dx };
        let abs_dy: i32 = if dy < 0 { -dy } else { dy };

        if abs_dx <= TOUCH_TAP_MAX_MOVE_PX && abs_dy <= TOUCH_TAP_MAX_MOVE_PX {
            return Gesture::Tap { x: self.last_x, y: self.last_y };
        }
        let cooling: bool = match self.last_swipe_ms {
            Some(then) => {
                let since: u32 = now_ms.wrapping_sub(then);
                assert(since == elapsed_ms(now_ms as int, then as int));
                since < TOUCH_SWIPE_COOLDOWN_MS
            },
            None => false,
        };
        if cooling {
            return Gesture::Nothing;
        }
        if abs_dy >= TOUCH_SWIPE_MIN_Y_PX && abs_dy >= abs_dx {
            self.last_swipe_ms = Some(now_ms);
            return if dy < 0 {
                Gesture::SwipeUp
            } else {
                Gesture::SwipeDown
            };
        }
        if abs_dx >= TOUCH_SWIPE_MIN_X_PX && abs_dy <= TOUCH_SWIPE_MAX_Y_PX && abs_dx > abs_dy {
            self.last_swipe_ms = Some(now_ms);
            return if dx < 0 {
                Gesture::SwipeLeft
            } else {
                Gesture::SwipeRight
            };
        }
        Gesture::Nothing
    }
}

/// A release after a movement within the tap tolerance on both axes is a tap
/// at the release point, whatever the time since the last swipe.
pub proof fn lemma_small_move_is_tap(s: TouchSession, now_ms: u32)
    requires
        s.pressed,
        i16::MIN <= s.last_x <= i16::MAX,
        i16::MIN <= s.last_y <= i16::MAX,
        abs(s.last_x - s.start_x) <= 18,
        abs(s.last_y - s.start_y) <= 18,
    ensures
        s.gesture(None, now_ms) == (Gesture::Tap { x: s.last_x as i16, y: s.last_y as i16 }),
        !s.step(None, now_ms).pressed,
{
}

/// After a swipe reported at `first_ms`, a release less than the cooldown
/// later whose movement is beyond the tap tolerance reports nothing, however
/// far the finger travelled.
pub proof fn lemma_swipe_in_cooldown_is_suppressed(
    s: TouchSession,
    first_ms: u32,
    between: Seq<(i16, i16)>,
    second_ms: u32,
)
    requires
        s.pressed,
        is_swipe(s.gesture(None, first_ms)),
        between.len() >= 1,
        elapsed_ms(second_ms as int, first_ms as int) < 300,
        !is_tap_move(
            between.last().0 - between.first().0,
            between.last().1 - between.first().1,
        ),
    ensures
        press_all(s.step(None, first_ms), between).pressed,
        press_all(s.step(None, first_ms), between).gesture(None, second_ms) == Gesture::Nothing,
{
    let idle = s.step(None, first_ms);
    assert(idle.last_swipe_ms == Some(first_ms as int));
    lemma_press_all(idle, between);
}

/// A recogniser that has not reported a swipe yet has no cooldown: the
/// release of a movement that is a swipe reports that swipe at any time, also
/// right after start and right after the clock wrapped around, and records
/// the time of the release as the time of the last swipe.
pub proof fn lemma_first_swipe_is_reported(s: TouchSession, now_ms: u32)
    requires
        s.pressed,
        s.last_swipe_ms is None,
        !is_tap_move(s.last_x - s.start_x, s.last_y - s.start_y),
        is_vertical_swipe(s.last_x - s.start_x, s.last_y - s.start_y) || is_horizontal_swipe(
            s.last_x - s.start_x,
            s.last_y - s.start_y,
        ),
    ensures
        is_swipe(s.gesture(None, now_ms)),
        s.gesture(None, now_ms) == classify_release(
            s.last_x - s.start_x,
            s.last_y - s.start_y,
            s.last_x as i16,
            s.last_y as i16,
            None,
        ),
        s.step(None, now_ms).last_swipe_ms == Some(now_ms as int),
{
}

/// Only a reported swipe starts a cooldown: taps, suppressed swipes and
/// contact polls leave the time of the last swipe as it is.
pub proof fn lemma_only_swipes_start_the_cooldown(
    s: TouchSession,
    contact: Option<(i16, i16)>,
    now_ms: u32,
)
    ensures
        !is_swipe(s.gesture(contact, now_ms)) ==> s.step(contact, now_ms).last_swipe_ms
            == s.last_swipe_ms,
        is_swipe(s.gesture(contact, now_ms)) ==> s.step(contact, now_ms).last_swipe_ms == Some(
            now_ms as int,
        ),
{
}

/// The state after a run of polls that all report contact.
pub open spec fn press_all(s: TouchSession, points: Seq<(i16, i16)>) -> TouchSession
    decreases points.len(),
{
    if points.len() == 0 {
        s
    } else {
        press_all(s, points.drop_last()).step(Some(points.last()), 0)
    }
}

/// A run of contact polls from the idle state records the first point as the
/// start and the last point as the end, and leaves the swipe time alone.
pub proof fn lemma_press_all(s: TouchSession, points: Seq<(i16, i16)>)
    requires
        !s.pressed,
        points.len() >= 1,
    ensures
        press_all(s, points).pressed,
        press_all(s, points).start_x == points.first().0,
        press_all(s, points).start_y == points.first().1,
        press_all(s, points).last_x == points.last().0,
        press_all(s, points).last_y == points.last().1,
        press_all(s, points).last_swipe_ms == s.last_swipe_ms,
    decreases points.len(),
{
    if points.len() == 1 {
        assert(points.drop_last().len() == 0);
        assert(press_all(s, points.drop_last()) == s);
    } else {
        lemma_press_all(s, points.drop_last());
        assert(points.drop_last().first() == points.first());
    }
}

/// A poll reports a gesture only when it ends a press: each press and
/// release gives at most one gesture, and an idle recogniser gives none.
pub proof fn lemma_gesture_only_on_release(
    s: TouchSession,
    contact: Option<(i16, i16)>,
    now_ms: u32,
)
    ensures
        s.gesture(contact, now_ms) != Gesture::Nothing ==> s.pressed && contact is None && !s.step(
            contact,
            now_ms,
        ).pressed,
        !s.pressed && contact is None ==> s.step(contact, now_ms) == s,
{
}

/// The logical point under the panel point `(px, py)`: the panel's own
/// layout in portrait, a quarter turn in landscape, both axes mirrored when
/// flipped.
pub open spec fn panel_to_logical(orientation: Orientation, px: int, py: int) -> (int, int) {
    match orientation {
        Orientation::Landscape => (py, 319 - px),
        Orientation::LandscapeFlipped => (479 - py, px),
        Orientation::Portrait => (px, py),
        Orientation::PortraitFlipped => (319 - px, 479 - py),
    }
}

/// A touch lands on the pixel that the panel shows under the finger: the
/// logical point of a panel point is the source pixel that a flush of a
/// fitting framebuffer sends to that panel point.
pub proof fn lemma_touch_matches_flush(
    fb: crate::framebuffer::FramebufferView,
    orientation: Orientation,
    px: int,
    py: int,
)
    requires
        fb.fits_panel(orientation),
    ensures
        panel_to_logical(orientation, px, py) == fb.source(orientation, px, py),
{
}

/// The twelve-bit number whose upper four bits are the low half of `high`.
pub open spec fn coordinate(high: u8, low: u8) -> int {
    (high % 16) * 256 + low
}

/// What a frame of the touch controller says: no contact when its point
/// count is not one or two, else the primary point in logical coordinates.
pub open spec fn frame_contact(frame: Seq<u8>, orientation: Orientation) -> Option<(i16, i16)> {
    if frame[1] == 0 || frame[1] > 2 {
        None
    } else {
        let p = panel_to_logical(
            orientation,
            coordinate(frame[2], frame[3]),
            coordinate(frame[4], frame[5]),
        );
        Some((p.0 as i16, p.1 as i16))
    }
}

/// Decodes one frame read from the touch controller.
pub fn parse_touch_frame(frame: &[u8; 14], orientation: Orientation) -> (contact: Option<
    (i16, i16),
>)
    ensures
        contact == frame_contact(frame@, orientation),
{
    let num_points: u8 = frame[1];
    if num_points == 0 || num_points > 2 {
        return None;
    }
    let h2: u8 = frame[2];
    let l3: u8 = frame[3];
    let h4: u8 = frame[4];
    let l5: u8 = frame[5];
    let raw_x: u16 = (((h2 & 0x0F) as u16) << 8) | l3 as u16;
    let raw_y: u16 = (((h4 & 0x0F) as u16) << 8) | l5 as u16;
    assert(raw_x == (h2 % 16) * 256 + l3) by (bit_vector)
        requires
            raw_x == (((h2 & 0x0F) as u16) << 8) | l3 as u16,
    ;
    assert(raw_y == (h4 % 16) * 256 + l5) by (bit_vector)
        requires
            raw_y == (((h4 & 0x0F) as u16) << 8) | l5 as u16,
    ;
    let px: i16 = raw_x as i16;
    let py: i16 = raw_y as i16;
    let point: (i16, i16) = match orientation {
        Orientation::Landscape => (py, 319 - px),
        Orientation::LandscapeFlipped => (479 - py, px),
        Orientation::Portrait => (px, py),
        Orientation::PortraitFlipped => (319 - px, 479 - py),
    };
    Some(point)
}

} // verus!
