//! What the library promises, told by what goes into its functions and what comes
//! out of them.
//!
//! A law here speaks of calls: whatever a call of the function may return for these
//! arguments, it is as the law says. The laws name values and say how results lie to
//! each other.
//!
//! - [`frames`]: pixel formats, leases, shared-memory frames and the bridge's
//!   records.
//! - [`drawing`]: the blit, the GPU work of a frame, and a render.
//! - [`pumping`]: readiness, deadlines and the pump task.
//! - [`staging`]: the staged runtime, and the messages.

pub mod drawing;
pub mod frames;
pub mod pumping;
pub mod staging;
