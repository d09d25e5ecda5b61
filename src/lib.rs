// Port discovery and connection for a device that streams binary messages.
use vstd::prelude::*;

pub mod bridge;
pub mod prompt;
pub mod scheduler;
pub mod selector;
pub mod timer;

verus! {

} // verus!
