//! The orientation detector.
//!
//! In a locked mode the orientation follows the configuration at once. In
//! automatic mode each inertial sample is classified by its dominant axis, and
//! a new orientation is applied only after it has been seen on several
//! classified samples in a row and a minimum time has passed since the last
//! change.

use vstd::prelude::*;
use crate::config::OrientationMode;
use crate::framebuffer::{Framebuffer, FramebufferView};
use crate::layout::{logical_height, logical_width, Orientation};
use crate::qmi8658::{ImuReading, ACCEL_COUNTS_PER_G};
use crate::touch::{abs, elapsed_ms};
use crate::views::AppState;

verus! {

/// By how many hundredths of a g one axis must exceed the other to count
/// as the dominant one.
pub const ORIENTATION_SWITCH_MARGIN_CENTI_G: i32 = 22;

/// Acceleration on Z, in hundredths of a g, above which the device counts
/// as lying flat.
pub const ORIENTATION_MAX_Z_CENTI_G: i32 = 85;

/// Number of agreeing classifications in a row that confirm a change.
pub const ORIENTATION_CONFIRM_SAMPLES: u8 = 4;

/// Shortest time between two confirmed changes.
pub const ORIENTATION_CHANGE_COOLDOWN_MS: u32 = 1_200;

/// The orientation that a locked mode asks for; automatic mode gives
/// landscape.
pub open spec fn locked_target(mode: OrientationMode, flip: bool) -> Orientation {
    match mode {
        OrientationMode::Landscape => if flip {
            Orientation::LandscapeFlipped
        } else {
            Orientation::Landscape
        },
        OrientationMode::Portrait => if flip {
            Orientation::PortraitFlipped
        } else {
            Orientation::Portrait
        },
        OrientationMode::Auto => Orientation::Landscape,
    }
}

pub fn locked_orientation(mode: OrientationMode, flip: bool) -> (o: Orientation)
    ensures
        o == locked_target(mode, flip),
{
    match mode {
        OrientationMode::Landscape => {
            if flip {
                Orientation::LandscapeFlipped
            } else {
                Orientation::Landscape
            }
        },
        OrientationMode::Portrait => {
            if flip {
                Orientation::PortraitFlipped
            } else {
                Orientation::Portrait
            }
        },
        OrientationMode::Auto => Orientation::Landscape,
    }
}

/// The size of the logical framebuffer for an orientation, width first.
pub fn framebuffer_dims(orientation: Orientation) -> (dims: (u32, u32))
    ensures
        dims.0 == logical_width(orientation),
        dims.1 == logical_height(orientation),
{
    if orientation.is_landscape() {
        (480, 320)
    } else {
        (320, 480)
    }
}

/// The orientation that an acceleration, in sensor counts, indicates. A
/// device that lies nearly flat indicates none. Otherwise the axis whose
/// magnitude exceeds the other's by more than the switch margin decides, and
/// its sign picks the orientation: positive X is portrait upside down,
/// negative Y is landscape. Without such an axis the sample indicates none.
pub open spec fn tilt_of(ax: int, ay: int, az: int) -> Option<Orientation> {
    let margin = ORIENTATION_SWITCH_MARGIN_CENTI_G * ACCEL_COUNTS_PER_G;
    if abs(az) * 100 > ORIENTATION_MAX_Z_CENTI_G * ACCEL_COUNTS_PER_G {
        None
    } else if abs(ax) * 100 > abs(ay) * 100 + margin {
        Some(
            if ax >= 0 {
                Orientation::PortraitFlipped
            } else {
                Orientation::Portrait
            },
        )
    } else if abs(ay) * 100 > abs(ax) * 100 + margin {
        Some(
            if ay < 0 {
                Orientation::Landscape
            } else {
                Orientation::LandscapeFlipped
            },
        )
    } else {
        None
    }
}

/// Classifies one inertial sample.
pub fn detect_orientation_from_imu(r: &ImuReading) -> (o: Option<Orientation>)
    ensures
        o == tilt_of(r.accel_x as int, r.accel_y as int, r.accel_z as int),
{
    let x: i32 = r.accel_x as i32;
    let y: i32 = r.accel_y as i32;
    let z: i32 = r.accel_z as i32;
    let ax: i32 = if x < 0 { -x } else { x };
    let ay: i32 = if y < 0 { -y } else { y };
    let az: i32 = if z < 0 { -z } else { z };
    let margin: i32 = ORIENTATION_SWITCH_MARGIN_CENTI_G * ACCEL_COUNTS_PER_G;
    if az * 100 > ORIENTATION_MAX_Z_CENTI_G * ACCEL_COUNTS_PER_G {
        return None;
    }
    if ax * 100 > ay * 100 + margin {
        if x >= 0 {
            Some(Orientation::PortraitFlipped)
        } else {
            Some(Orientation::Portrait)
        }
    } else if ay * 100 > ax * 100 + margin {
        if y < 0 {
            Some(Orientation::Landscape)
        } else {
            Some(Orientation::LandscapeFlipped)
        }
    } else {
        None
    }
}

/// The detector's state as a mathematical value: the pending orientation,
/// the number of classifications in a row that agreed on it, and the time of
/// the last confirmed change.
pub struct DetectorModel {
    pub candidate: Orientation,
    pub count: int,
    pub last_change_ms: int,
}

impl DetectorModel {
    /// The agreement count after a classification: zero when it names the
    /// current orientation, one more when it names the pending one, and one
    /// when it names another.
    pub open spec fn counted(self, current: Orientation, class: Orientation) -> int {
        if class == current {
            0
        } else if class == self.candidate {
            if self.count >= 255 {
                255
            } else {
                self.count + 1
            }
        } else {
            1
        }
    }

    /// The classification confirms a change: enough samples in a row agreed
    /// on it and the cooldown has passed.
    pub open spec fn confirms(self, current: Orientation, class: Orientation, now_ms: u32) -> bool {
        &&& self.counted(current, class) >= ORIENTATION_CONFIRM_SAMPLES
        &&& elapsed_ms(now_ms as int, self.last_change_ms) >= ORIENTATION_CHANGE_COOLDOWN_MS
    }

    /// The state after a classification.
    pub open spec fn observe(self, current: Orientation, class: Orientation, now_ms: u32)
        -> DetectorModel {
        if class == current {
            DetectorModel { count: 0, ..self }
        } else if self.confirms(current, class, now_ms) {
            DetectorModel { candidate: class, count: 0, last_change_ms: now_ms as int }
        } else {
            DetectorModel { candidate: class, count: self.counted(current, class), ..self }
        }
    }
}

/// Debounces classified inertial samples.
pub struct OrientationDetector {
    candidate: Orientation,
    count: u8,
    last_change_ms: u32,
}

impl View for OrientationDetector {
    type V = DetectorModel;

    closed spec fn view(&self) -> DetectorModel {
        DetectorModel {
            candidate: self.candidate,
            count: self.count as int,
            last_change_ms: self.last_change_ms as int,
        }
    }
}

impl OrientationDetector {
    /// A detector with nothing pending whose cooldown starts at `now_ms`.
    pub fn new(current: Orientation, now_ms: u32) -> (d: OrientationDetector)
        ensures
            d@ == (DetectorModel { candidate: current, count: 0, last_change_ms: now_ms as int }),
    {
        OrientationDetector { candidate: current, count: 0, last_change_ms: now_ms }
    }

    /// Takes the classification of one inertial sample and returns the
    /// orientation to apply, if this sample confirms a change. A sample
    /// without classification changes nothing.
    pub fn observe(
        &mut self,
        current: Orientation,
        class: Option<Orientation>,
        now_ms: u32,
    ) -> (next: Option<Orientation>)
        ensures
            match class {
                Some(c) => {
                    &&& final(self)@ == old(self)@.observe(current, c, now_ms)
                    &&& next == if c != current && old(self)@.confirms(current, c, now_ms) {
                        Some(c)
                    } else {
                        None
                    }
                },
                None => final(self)@ == old(self)@ && next is None,
            },
    {
        match class {
            None => None,
            Some(c) => {
                if c == current {
                    self.count = 0;
                    return None;
                }
                if self.candidate == c {
                    self.count = self.count.saturating_add(1);
                } else {
                    self.candidate = c;
                    self.count = 1;
                }
                let since: u32 = now_ms.wrapping_sub(self.last_change_ms);
                assert(since == elapsed_ms(now_ms as int, self.last_change_ms as int));
                if self.count >= ORIENTATION_CONFIRM_SAMPLES && since
                    >= ORIENTATION_CHANGE_COOLDOWN_MS {
                    self.count = 0;
                    self.last_change_ms = now_ms;
                    Some(c)
                } else {
                    None
                }
            },
        }
    }

    /// Forgets the pending orientation's count, as when the mode is locked.
    pub fn reset(&mut self)
        ensures
            final(self)@ == (DetectorModel { count: 0, ..old(self)@ }),
    {
        self.count = 0;
    }

    /// Restarts the cooldown after an orientation was applied at `now_ms`.
    pub fn note_change(&mut self, now_ms: u32)
        ensures
            final(self)@ == (DetectorModel { last_change_ms: now_ms as int, ..old(self)@ }),
    {
        self.last_change_ms = now_ms;
    }
}

/// The confirmed orientation together with the detector.
pub struct AutoState {
    pub current: Orientation,
    pub detector: DetectorModel,
}

/// One classified inertial sample and the time at which it was taken.
pub struct Classified {
    pub class: Orientation,
    pub now_ms: u32,
}

/// Automatic mode after one classified sample.
pub open spec fn auto_step(s: AutoState, sample: Classified) -> AutoState {
    AutoState {
        current: if sample.class != s.current && s.detector.confirms(
            s.current,
            sample.class,
            sample.now_ms,
        ) {
            sample.class
        } else {
            s.current
        },
        detector: s.detector.observe(s.current, sample.class, sample.now_ms),
    }
}

/// Automatic mode after a run of classified samples.
pub open spec fn auto_run(s: AutoState, samples: Seq<Classified>) -> AutoState
    decreases samples.len(),
{
    if samples.len() == 0 {
        s
    } else {
        auto_step(auto_run(s, samples.drop_last()), samples.last())
    }
}

/// The agreement count never exceeds the number of latest samples that all
/// name the pending orientation, differ from the confirmed one, and were
/// taken while the confirmed one stood.
pub proof fn lemma_count_is_trailing_agreement(s0: AutoState, samples: Seq<Classified>)
    requires
        s0.detector.count == 0,
    ensures
        0 <= auto_run(s0, samples).detector.count <= samples.len(),
        forall|i: int|
            samples.len() - auto_run(s0, samples).detector.count <= i < samples.len() ==> {
                &&& (#[trigger] samples[i]).class == auto_run(s0, samples).detector.candidate
                &&& samples[i].class != auto_run(s0, samples).current
                &&& auto_run(s0, samples.take(i)).current == auto_run(s0, samples).current
            },
    decreases samples.len(),
{
    if samples.len() > 0 {
        let init = samples.drop_last();
        let prev = auto_run(s0, init);
        let s = auto_run(s0, samples);
        lemma_count_is_trailing_agreement(s0, init);
        assert(samples.take(samples.len() - 1) =~= init);
        assert forall|i: int| samples.len() - s.detector.count <= i < samples.len() implies {
            &&& (#[trigger] samples[i]).class == s.detector.candidate
            &&& samples[i].class != s.current
            &&& auto_run(s0, samples.take(i)).current == s.current
        } by {
            if i < samples.len() - 1 {
                assert(init[i] == samples[i]);
                assert(init.take(i) =~= samples.take(i));
            }
        }
    }
}

/// In automatic mode the confirmed orientation changes only on the last of
/// at least four classified samples in a row that all name the new
/// orientation while the old one stood, and only when the cooldown has passed
/// since the previous confirmed change.
pub proof fn lemma_change_needs_confirmation(s0: AutoState, samples: Seq<Classified>)
    requires
        s0.detector.count == 0,
        samples.len() >= 1,
        auto_run(s0, samples).current != auto_run(s0, samples.drop_last()).current,
    ensures
        samples.len() >= ORIENTATION_CONFIRM_SAMPLES,
        forall|i: int|
            samples.len() - ORIENTATION_CONFIRM_SAMPLES <= i < samples.len() ==> {
                &&& (#[trigger] samples[i]).class == auto_run(s0, samples).current
                &&& samples[i].class != auto_run(s0, samples.drop_last()).current
                &&& auto_run(s0, samples.take(i)).current == auto_run(
                    s0,
                    samples.drop_last(),
                ).current
            },
        elapsed_ms(
            samples.last().now_ms as int,
            auto_run(s0, samples.drop_last()).detector.last_change_ms,
        ) >= ORIENTATION_CHANGE_COOLDOWN_MS,
{
    let init = samples.drop_last();
    let prev = auto_run(s0, init);
    lemma_count_is_trailing_agreement(s0, init);
    assert(samples.take(samples.len() - 1) =~= init);
    assert forall|i: int| samples.len() - ORIENTATION_CONFIRM_SAMPLES <= i < samples.len() implies {
        &&& (#[trigger] samples[i]).class == auto_run(s0, samples).current
        &&& samples[i].class != prev.current
        &&& auto_run(s0, samples.take(i)).current == prev.current
    } by {
        if i < samples.len() - 1 {
            assert(init[i] == samples[i]);
            assert(init.take(i) =~= samples.take(i));
        }
    }
}

/// One inertial sample as the detector sees it: its classification, if it
/// has one, and the time at which it was taken.
pub struct Sampled {
    pub class: Option<Orientation>,
    pub now_ms: u32,
}

/// Automatic mode after a run of samples of which some may have no
/// classification.
pub open spec fn auto_run_sampled(s: AutoState, samples: Seq<Sampled>) -> AutoState
    decreases samples.len(),
{
    if samples.len() == 0 {
        s
    } else {
        let before = auto_run_sampled(s, samples.drop_last());
        match samples.last().class {
            Some(class) => auto_step(before, Classified { class, now_ms: samples.last().now_ms }),
            None => before,
        }
    }
}

/// The classified samples of a run, in order.
pub open spec fn classified_of(samples: Seq<Sampled>) -> Seq<Classified>
    decreases samples.len(),
{
    if samples.len() == 0 {
        Seq::empty()
    } else {
        match samples.last().class {
            Some(class) => classified_of(samples.drop_last()).push(
                Classified { class, now_ms: samples.last().now_ms },
            ),
            None => classified_of(samples.drop_last()),
        }
    }
}

/// Samples without classification change nothing: a run of samples leaves
/// automatic mode where the run of its classified samples leaves it.
pub proof fn lemma_unclassified_samples_are_skipped(s: AutoState, samples: Seq<Sampled>)
    ensures
        auto_run_sampled(s, samples) == auto_run(s, classified_of(samples)),
    decreases samples.len(),
{
    if samples.len() > 0 {
        lemma_unclassified_samples_are_skipped(s, samples.drop_last());
        if samples.last().class is Some {
            let init = classified_of(samples.drop_last());
            let last = Classified {
                class: samples.last().class->0,
                now_ms: samples.last().now_ms,
            };
            assert(init.push(last).drop_last() =~= init);
        }
    }
}

/// One sample that disagrees with the pending orientation never changes the
/// confirmed orientation, and neither does any sample while fewer than three
/// agreeing samples precede it.
pub proof fn lemma_outlier_keeps_orientation(s: AutoState, sample: Classified)
    requires
        0 <= s.detector.count,
        sample.class != s.detector.candidate || s.detector.count < ORIENTATION_CONFIRM_SAMPLES - 1,
    ensures
        auto_step(s, sample).current == s.current,
{
}

/// Applies a confirmed or requested orientation: the view state takes the
/// new orientation and asks for a redraw, and the framebuffer is replaced by
/// a blank one when the logical size changes. The same orientation again
/// changes nothing.
pub fn apply_orientation(state: &mut AppState, fb: &mut Framebuffer, next: Orientation)
    requires
        old(fb)@.wf(),
    ensures
        old(state).orientation == next ==> *final(state) == *old(state) && final(fb)@ == old(fb)@,
        old(state).orientation != next ==> *final(state) == (AppState {
            orientation: next,
            dirty: true,
            ..*old(state)
        }),
        old(state).orientation != next ==> final(fb)@ == if old(state).orientation.landscape()
            == next.landscape() {
            old(fb)@
        } else {
            FramebufferView::blank(logical_width(next), logical_height(next))
        },
        final(fb)@.wf(),
        old(fb)@.fits_panel(old(state).orientation) ==> final(fb)@.fits_panel(next),
{
    if state.orientation == next {
        return ;
    }
    let (old_w, old_h): (u32, u32) = framebuffer_dims(state.orientation);
    let (new_w, new_h): (u32, u32) = framebuffer_dims(next);
    state.orientation = next;
    if old_w != new_w || old_h != new_h {
        *fb = Framebuffer::new(new_w, new_h);
    }
    state.dirty = true;
}

} // verus!
