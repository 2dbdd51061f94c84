//! A terminal screensaver engine: a character-grid canvas, five animated
//! features (bouncing text, rain columns, a starfield, a wave field and a
//! large-digit clock), and the pure decision logic of the render loop.
//!
//! All coordinates are character cells; continuous quantities (positions,
//! velocities, phases) are kept in fixed-point thousandths of a cell so that
//! the physics is exact integer arithmetic.

pub mod bouncing;
pub mod canvas;
pub mod clock;
pub mod config;
pub mod engine;
pub mod features;
pub mod rain;
pub mod starfield;
pub mod styles;
pub mod sysinfo;
pub mod text_display;
pub mod wave;
pub mod welcome;

pub use bouncing::BouncingLogoFeature;
pub use canvas::center_text;
pub use canvas::Color;
pub use canvas::Rect;
pub use canvas::SimpleRenderer;
pub use canvas::TextLine;
pub use clock::format_two_digits;
pub use clock::ClockDisplay;
pub use clock::ClockTime;
pub use config::ActionConfig;
pub use config::Config;
pub use features::KeyPress;
pub use features::ScreensaverAction;
pub use rain::MatrixColumn;
pub use rain::MatrixRain;
pub use starfield::StarfieldFeature;
pub use styles::get_style;
pub use styles::Style;
pub use sysinfo::SystemInfoFeature;
pub use wave::WaveAnimationFeature;
