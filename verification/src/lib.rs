//! A verified engine for a cycling rainbow animation on an addressable RGB
//! LED strip.
//!
//! The library holds the transport-agnostic core: the color-wheel generator
//! that decides what each LED shows at a given animation step, the brightness
//! scaler that attenuates a frame before transmission, and the frame driver
//! that paces the animation and propagates transmit failures. The physical
//! transports (a pulse-train peripheral or a re-purposed serial bus) live
//! outside the library behind the frame driver's transmit protocol.

pub mod brightness;
pub mod color;
pub mod frame;
pub mod wheel;
