//! The interaction and rendering core of a vector whiteboard.
//!
//! A view port owns an ordered list of drawable entities. Pointer and key
//! interactions are routed to the active tool, which turns them into entity
//! lifecycle events. The scene is painted through a backend-agnostic
//! renderer, either as canvas directives or as a retained SVG tree.
//!
//! Coordinates are whole numbers of device units: a point holds two `i32`,
//! and extents and displacements are `i64`, so that the difference of any
//! two coordinates is exact.
//!
//! The parts, leaves first: [`text`] and [`search`] are helpers;
//! [`geometry`], [`path`] and [`style`] hold the values that entities carry;
//! [`element`] has the element kinds, the identifiers and the builder;
//! [`entity`] has the entities and their features; [`json`], [`json_text`]
//! and [`persist`] are the persisted format; [`renderer`] has the renderer
//! contracts and the two backends; [`event_bus`] and [`tool`] turn
//! interactions into events; [`view_port`] applies them and paints; and
//! [`whiteboard`] is the surface that a host embeds.
pub mod element;
pub mod entity;
pub mod event_bus;
pub mod geometry;
pub mod json;
pub mod json_text;
pub mod path;
pub mod persist;
pub mod renderer;
pub mod search;
pub mod style;
pub mod text;
pub mod tool;
pub mod view_port;
pub mod whiteboard;
