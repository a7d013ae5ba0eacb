//! The loading overlay's state: which animation plays, its message, and
//! the ready-made widgets for the common operations.

use vstd::prelude::*;
use vstd::string::StringExecFns;
use crate::animation::{ProgressAnimation, SpinnerAnimation, TIME_LIMIT};
use crate::easing::EASE_SCALE;
use crate::menu::PULSE_WRAP;
use crate::strutil::{dec_str, u64_to_string};
use crate::themes::Theme;

verus! {

/// The kinds of loading animation on offer. Progress is measured in
/// eased-progress units of `EASE_SCALE`.
#[derive(Debug)]
pub enum LoadingType {
    Spinner,
    ProgressBar { current: i64, total: i64 },
    Dots,
    Pulse,
    Matrix,
    Custom { frames: Vec<String> },
}

/// An animated loading widget: a message, the chosen animation, and the
/// clocks that drive it.
#[derive(Debug)]
pub struct LoadingWidget {
    pub message: String,
    pub loading_type: LoadingType,
    pub spinner: SpinnerAnimation,
    pub progress: ProgressAnimation,
    pub pulse_animation: u64,
    pub show_percentage: bool,
    pub theme: Theme,
}

impl LoadingWidget {
    pub open spec fn wf(self) -> bool {
        &&& self.spinner.wf()
        &&& self.progress.wf()
        &&& self.pulse_animation < PULSE_WRAP
    }

    pub fn new(message: &str, theme: &Theme) -> (r: LoadingWidget)
        ensures
            r.wf(),
            r.message@ == message@,
            r.loading_type is Spinner,
            !r.show_percentage,
            r.theme == *theme,
    {
        LoadingWidget {
            message: message.to_owned(),
            loading_type: LoadingType::Spinner,
            spinner: SpinnerAnimation::dots(),
            progress: ProgressAnimation::new(),
            pulse_animation: 0,
            show_percentage: false,
            theme: *theme,
        }
    }

    pub fn with_spinner(self) -> (r: LoadingWidget)
        ensures
            r == (LoadingWidget { loading_type: LoadingType::Spinner, ..self }),
    {
        LoadingWidget { loading_type: LoadingType::Spinner, ..self }
    }

    /// Show a progress bar standing `current` out of `total` of the way
    /// along, and print the percentage with it.
    pub fn with_progress(self, current: i64, total: i64) -> (r: LoadingWidget)
        requires
            self.wf(),
            0 < total <= 1000000000,
            0 <= current <= total,
        ensures
            r.wf(),
            r.loading_type == (LoadingType::ProgressBar { current, total }),
            r.show_percentage,
            r.message == self.message,
            r.progress.progress.end_value == current * (EASE_SCALE as int) / (total as int),
    {
        proof {
            let c = current as int;
            let t = total as int;
            let si = EASE_SCALE as int;
            assert(0 <= c * si && c * si <= t * si && t * si == si * t) by (nonlinear_arith)
                requires 0 <= c <= t, 0 < si;
            vstd::arithmetic::div_mod::lemma_div_is_ordered(c * si, t * si, t);
            vstd::arithmetic::div_mod::lemma_div_multiples_vanish(si, t);
            vstd::arithmetic::div_mod::lemma_div_pos_is_pos(c * si, t);
        }
        let fraction = current * EASE_SCALE / total;
        let mut progress = self.progress;
        progress.set_progress(fraction);
        LoadingWidget {
            loading_type: LoadingType::ProgressBar { current, total },
            progress,
            show_percentage: true,
            ..self
        }
    }

    pub fn with_dots(self) -> (r: LoadingWidget)
        ensures
            r == (LoadingWidget { loading_type: LoadingType::Dots, ..self }),
    {
        LoadingWidget { loading_type: LoadingType::Dots, ..self }
    }

    pub fn with_pulse(self) -> (r: LoadingWidget)
        ensures
            r == (LoadingWidget { loading_type: LoadingType::Pulse, ..self }),
    {
        LoadingWidget { loading_type: LoadingType::Pulse, ..self }
    }

    pub fn with_matrix(self) -> (r: LoadingWidget)
        ensures
            r == (LoadingWidget { loading_type: LoadingType::Matrix, ..self }),
    {
        LoadingWidget { loading_type: LoadingType::Matrix, ..self }
    }

    /// Move the progress bar, if one is showing.
    pub fn update_progress(&mut self, current: i64, total: i64)
        requires
            old(self).wf(),
            0 < total <= 1000000000,
            0 <= current <= total,
        ensures
            final(self).wf(),
            old(self).loading_type is ProgressBar ==> final(self).loading_type == (
            LoadingType::ProgressBar { current, total }) && final(self).progress.progress.end_value
                == current * (EASE_SCALE as int) / (total as int),
            !(old(self).loading_type is ProgressBar) ==> *final(self) == *old(self),
    {
        if matches!(self.loading_type, LoadingType::ProgressBar { .. }) {
            proof {
                let c = current as int;
                let t = total as int;
                let si = EASE_SCALE as int;
                assert(0 <= c * si && c * si <= t * si && t * si == si * t) by (nonlinear_arith)
                    requires 0 <= c <= t, 0 < si;
                vstd::arithmetic::div_mod::lemma_div_is_ordered(c * si, t * si, t);
                vstd::arithmetic::div_mod::lemma_div_multiples_vanish(si, t);
                vstd::arithmetic::div_mod::lemma_div_pos_is_pos(c * si, t);
            }
            let fraction = current * EASE_SCALE / total;
            self.loading_type = LoadingType::ProgressBar { current, total };
            self.progress.set_progress(fraction);
        }
    }

    /// Advance the widget's clocks by a frame delta.
    pub fn update(&mut self, delta_ms: u64)
        requires
            old(self).wf(),
            delta_ms <= TIME_LIMIT,
        ensures
            final(self).wf(),
            final(self).message == old(self).message,
            final(self).pulse_animation == (old(self).pulse_animation + 2 * delta_ms) % (
            PULSE_WRAP as int),
    {
        self.spinner.update(delta_ms);
        self.progress.update(delta_ms);
        self.pulse_animation = (self.pulse_animation + 2 * delta_ms) % PULSE_WRAP;
    }
}

/// Ready-made loading widgets for the common operations.
pub struct LoadingPresets;

impl LoadingPresets {
    pub fn cloning_repos(theme: &Theme) -> (r: LoadingWidget)
        ensures
            r.wf(),
            r.message@ == "Cloning repositories..."@,
            r.loading_type is Spinner,
    {
        LoadingWidget::new("Cloning repositories...", theme).with_spinner()
    }

    pub fn fetching_github_data(theme: &Theme) -> (r: LoadingWidget)
        ensures
            r.wf(),
            r.message@ == "Fetching GitHub data..."@,
            r.loading_type is Dots,
    {
        LoadingWidget::new("Fetching GitHub data...", theme).with_dots()
    }

    /// A progress bar over students processed so far.
    pub fn processing_students(current: i64, total: i64, theme: &Theme) -> (r: LoadingWidget)
        requires
            0 < total <= 1000000000,
            0 <= current <= total,
        ensures
            r.wf(),
            r.message@ == "Processing students ("@ + dec_str(current as nat) + "/"@ + dec_str(
                total as nat,
            ) + ")"@,
            r.loading_type == (LoadingType::ProgressBar { current, total }),
    {
        let mut message = String::new();
        message.append("Processing students (");
        let c = u64_to_string(current as u64);
        message.append(c.as_str());
        message.append("/");
        let t = u64_to_string(total as u64);
        message.append(t.as_str());
        message.append(")");
        LoadingWidget::new(message.as_str(), theme).with_progress(current, total)
    }

    pub fn initializing(theme: &Theme) -> (r: LoadingWidget)
        ensures
            r.wf(),
            r.message@ == "Initializing..."@,
            r.loading_type is Pulse,
    {
        LoadingWidget::new("Initializing...", theme).with_pulse()
    }

    pub fn hacker_mode(theme: &Theme) -> (r: LoadingWidget)
        ensures
            r.wf(),
            r.message@ == "Accessing the mainframe..."@,
            r.loading_type is Matrix,
    {
        LoadingWidget::new("Accessing the mainframe...", theme).with_matrix()
    }
}

} // verus!
