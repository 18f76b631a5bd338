//! Verified core of a small path tracer: render settings, raster ordering,
//! the bounce policy of the radiance estimator, and the plain-text image
//! encoding. The floating-point shading itself lives in the application.

pub mod ppm;
pub mod raster;
pub mod integrator;
pub mod settings;
pub mod sphere;
pub mod hittable;
