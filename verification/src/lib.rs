//! Programmatic control of a blink(1) LED light that mirrors the lifecycle of a
//! unit of work.
//!
//! While the caller's own code is executing, the LED cycles through a configured
//! sequence of "pending" colors.  When the work finishes, the caller reports the
//! outcome through a `Notifier`, and the LED changes to the color configured
//! for success or for failure.

mod channel;
mod color;
mod device;
mod display;
mod error;
mod messg;
mod msg;
mod notifier;
mod task;
mod transition;

pub use crate::channel::{receiver_channel, sender_channel};
pub use crate::color::{led_rgb, Led};
pub use crate::display::{sched_after_render, DeviceDisplay, Display, SpyDisplay};
pub use crate::error::TransitionErr;
pub use crate::messg::Messg;
pub use crate::msg::{fade_step, ColorMessage, VisualStep, HOLD_MILLIS};
pub use crate::notifier::{MsgType, Notifier};
pub use crate::task::{
    lemma_replays_len, lemma_replays_membership, lemma_replays_no_foreign_step,
    lemma_replays_pass_order, lemma_step_count_concat, lemma_step_count_contains, replays,
    step_count, BlinkTask,
};
pub use crate::transition::{
    aborted_trace, action_step, finished_trace, lemma_finished_history_excludes,
    lemma_finished_history_once, lemma_signaled_run_trace, lemma_terminal_rendered_once,
    lemma_unsignaled_run_trace, stepped_pending, Engine, Tick, Transition,
};
