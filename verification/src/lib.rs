//! Demand-driven, double-buffered sample streaming core.
//!
//! The crate models the data path between a supervisory control system that
//! updates values at irregular times and embedded hardware that consumes
//! samples at a steady, hardware-paced rate:
//!
//! * [`buffer`] — the fixed-capacity sample buffer pair: an exclusive write
//!   half that a producer clears, repopulates and publishes, and an exclusive
//!   read half that the consumer drains through a cursor and refills by
//!   swapping the halves as a unit.
//! * [`demand`] — the saturating demand counter through which the hardware
//!   side signals how many samples it currently wants.
//! * [`replay`] — the replay policy choosing between one-shot consumption and
//!   cyclic replay of the last published buffer, and the shared refill
//!   request flag the producer observes.
//! * [`dac`] — the device core tying the pieces together: the producer step
//!   that publishes converted samples and the consumer step that assembles an
//!   outbound message of exactly the demanded length.
//! * [`stats`] — the counter aggregate behind the narrow reporting interface
//!   (lost samples, demand anomalies, per-value min/max/sum).

pub mod buffer;
pub mod dac;
pub mod demand;
pub mod replay;
pub mod stats;
