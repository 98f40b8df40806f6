//! Decoding of rotary-encoder and push-button signals into key taps.
//!
//! A device carries a handful of rotary encoders and one push button, each wired to
//! pull-up biased input lines. Every channel is polled by a worker of its own. The
//! worker of an encoder decodes the two phases of the encoder into turns, one per
//! detent, and the worker of the button watches for the press; both hold back what
//! comes too soon after the last accepted detection. What gets through becomes a tap: a
//! key that goes down and comes up at once on a virtual keyboard.
//!
//! The library decides and remembers; it reads no line, no clock and writes no event.
//! The program around it polls the lines, reads a monotonic clock and sends the taps.
//!
//! - [`signal`]: logic levels, directions, and the rule that turns levels into a direction.
//! - [`decoder`]: the quadrature decoder of one encoder channel.
//! - [`debounce`]: the minimum interval between accepted detections.
//! - [`keys`]: keys, key events, taps and the keys of a channel.
//! - [`worker`]: what the polling loop of a channel decides at each poll.
//! - [`config`]: the channels of a device and the keys to make known.
//! - [`menus`]: the tabs of the dashboard that the taps steer.

#![allow(unused_imports)]

pub mod config;
pub mod debounce;
pub mod decoder;
pub mod keys;
pub mod menus;
pub mod signal;
pub mod worker;
