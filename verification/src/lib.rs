//! The logic of a model railway decoder: from the pulses of the track signal to the motor, the
//! headlights and the functions of a loco.
//!
//! Pulses are measured from the edges of the track signal ([`capture`]) and pass through a ring
//! ([`ring_buffer`]) to the protocol decoders ([`decoder`], [`lenz`], [`mm`]). Packets for the
//! decoder's own address ([`address`]) act on the loco ([`loco`], [`decoder_state`],
//! [`functions`]). The motor is regulated by its back-EMF ([`bemf`], [`motor_control`],
//! [`timing`]). What is to be driven is kept as plain values ([`outputs`]).
//!
//! What each packet and each tick does is stated setting by setting in [`packet_laws`] and
//! [`tick_laws`], and what holds over any number of them in [`loco_laws`] and [`motor_laws`].
pub mod address;
pub mod bemf;
pub mod capture;
pub mod decoder;
pub mod decoder_state;
pub mod functions;
pub mod lenz;
pub mod loco;
pub mod loco_laws;
pub mod mm;
pub mod motor_control;
pub mod motor_laws;
pub mod outputs;
pub mod packet_laws;
pub mod ring_buffer;
pub mod tick_laws;
pub mod timing;
