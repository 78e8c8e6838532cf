//! A polling timer for a retained-mode widget tree.
//!
//! The timer is an invisible widget. Once per frame its host asks it to tick;
//! when more than its timeout has passed since it was last armed it rearms and
//! calls its handler. All of its decisions are stated over [`timer::TimerState`],
//! a plain mathematical model of the flag, the anchor and the timeout.

pub mod behaviour;
pub mod clock;
pub mod geometry;
pub mod timer;
