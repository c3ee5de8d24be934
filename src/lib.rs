use vstd::prelude::*;

pub mod dispatch;
pub mod engine;
pub mod entry;
pub mod fd;

pub use crate::dispatch::{LoopAction, SlotTable, WAKE_SLOT};
pub use crate::engine::{check_provenance, readiness_event, EngineError, Event, Lifecycle};
pub use crate::entry::PsiEntry;
pub use crate::fd::{PsiFdBuilder, PsiFdBuilderError, PsiTrigger, StallType};
