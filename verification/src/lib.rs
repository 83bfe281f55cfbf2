//! Verified core of a screen-recording tool.
//!
//! The library covers the computational heart of the recorder: conversion of
//! native capture frames to canonical red/green/blue/alpha pixels, cursor
//! compositing, region cropping with clamping, a timeline of timestamped
//! frames with editable inter-frame delays, and serialization of a timeline
//! to an animated GIF.  Everything that touches the operating system (the
//! native capture session, pointer polling, file output, the interactive
//! surface) lives outside the library and exchanges plain values with it.

pub mod capture;
pub mod cursor;
pub mod digits;
pub mod editor;
pub mod export;
pub mod pixel;
pub mod recorder;
pub mod timeline;
