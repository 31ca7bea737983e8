//! A verified core for a scene-graph renderer: a squadron of multi-part
//! vehicles over static terrain, driven by a fixed-timestep frame loop.
//!
//! The library holds everything that can be stated and proved about the
//! renderer: the scene-graph arena and its tree discipline, the transform
//! composer that turns the graph into world transforms and draw commands,
//! the input-state channel's transition functions, the camera and key-table
//! folding, the animation sampler, and the watchdog state machine.
//!
//! All geometry is carried in fixed-point thousandths (milliunits and
//! milliradians) and transforms are kept symbolic, as sequences of primitive
//! translation/rotation factors; evaluating those factors into floating-point
//! matrices, and every GPU, window and thread concern, lives outside the
//! library in the surrounding binary.

pub mod anim;
pub mod camera;
pub mod compose;
pub mod frame;
pub mod input;
pub mod scene;
pub mod transform;
pub mod watchdog;
