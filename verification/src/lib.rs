//! Interactive 2D control widgets for editing numeric data through direct
//! manipulation: a multi-point envelope editor ([`mseg::MsegGraph`]) and a
//! single-point two-axis pad ([`xy_pad::XyPad`]).
//!
//! Both widgets translate pointer input into edits of externally owned
//! data points. The shared coordinate-mapping module ([`map`]) converts
//! between a normalized data domain and on-screen pixel bounds; the
//! widgets add hit-testing ([`hover`]), hover feedback, drag clamping,
//! and a pointer-capture discipline ([`capture`]). Event handling and
//! drawing are pure: each handler returns the actions (capture, release,
//! callbacks) for the host shell to perform, and each draw pass returns
//! the shapes to paint ([`draw`]).
//!
//! Coordinates are scaled integers: data-space values carry
//! [`geom::NORM_ONE`] units per normalized unit (or per second on the
//! envelope's time axis), and pixel-space values carry [`geom::PIX_ONE`]
//! units per pixel.

pub mod capture;
pub mod draw;
pub mod event;
pub mod geom;
pub mod hover;
pub mod map;
pub mod mseg;
pub mod xy_pad;
