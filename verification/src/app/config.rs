//! Application configuration
//!
//! Dual-window setup:
//! - Output window: Video display, cursor hidden, clean presentation
//! - Control window: ImGui UI, cursor visible, standard window

use vstd::prelude::*;

verus! {

/// HAP texture format for encoding/recording.
#[derive(Debug, Clone, Copy, PartialEq, Eq, Structural)]
pub enum HapEncodeFormat {
    /// DXT1 (RGB, smallest files)
    Dxt1,
    /// DXT5 (RGBA)
    Dxt5,
    /// DXT5 in the YCoCg colour space (HAP Q)
    Dxt5Ycocg,
    /// BC6H (high dynamic range)
    Bc6h,
}

/// Where HAP encoding runs.
#[derive(Debug, Clone, Copy, PartialEq, Eq, Structural)]
pub enum GpuMode {
    /// Use the GPU when one is available, else the CPU
    Auto,
    /// Always encode on the GPU
    Gpu,
    /// Always encode on the CPU
    Cpu,
}

/// Encoding configuration for HAP video output
#[derive(Debug, Clone, Copy, PartialEq, Eq, Structural)]
pub struct EncodingConfig {
    /// HAP format for encoding/recording
    pub format: HapEncodeFormat,
    /// GPU encoding mode: auto, gpu, or cpu
    pub gpu_mode: GpuMode,
    /// Maximum pixel dimension (width or height) for imported videos.
    /// Larger videos are scaled down preserving aspect ratio.
    /// 0 = no limit (keep original resolution).
    /// Default: 1920 (keeps Retina screen recordings manageable)
    pub max_dimension: u32,
}

impl Default for EncodingConfig {
    fn default() -> (c: Self)
        ensures
            c == (EncodingConfig {
                format: HapEncodeFormat::Dxt1,
                gpu_mode: GpuMode::Auto,
                max_dimension: 1920,
            }),
    {
        EncodingConfig { format: HapEncodeFormat::Dxt1, gpu_mode: GpuMode::Auto, max_dimension: 1920 }
    }
}

/// Window configuration
#[derive(Debug)]
pub struct WindowConfig {
    /// Window width in pixels
    pub width: u32,
    /// Window height in pixels
    pub height: u32,
    /// X position (None for default)
    pub x: Option<i32>,
    /// Y position (None for default)
    pub y: Option<i32>,
    /// Window title
    pub title: String,
    /// Whether window is resizable
    pub resizable: bool,
    /// Whether window has decorations (title bar, borders)
    pub decorated: bool,
    /// Whether cursor is visible in this window
    pub cursor_visible: bool,
}

impl Clone for WindowConfig {
    fn clone(&self) -> (c: Self)
        ensures
            c == *self,
    {
        WindowConfig {
            width: self.width,
            height: self.height,
            x: self.x,
            y: self.y,
            title: self.title.clone(),
            resizable: self.resizable,
            decorated: self.decorated,
            cursor_visible: self.cursor_visible,
        }
    }
}

/// Main application configuration
#[derive(Debug)]
pub struct AppConfig {
    /// Output window configuration (video display)
    pub output_window: WindowConfig,
    /// Control window configuration (ImGui UI)
    pub control_window: WindowConfig,
    /// Target FPS for output
    pub target_fps: u32,
    /// Enable VSync
    pub vsync: bool,
    /// Encoding settings
    pub encoding: EncodingConfig,
}

impl Clone for AppConfig {
    fn clone(&self) -> (c: Self)
        ensures
            c == *self,
    {
        AppConfig {
            output_window: self.output_window.clone(),
            control_window: self.control_window.clone(),
            target_fps: self.target_fps,
            vsync: self.vsync,
            encoding: self.encoding,
        }
    }
}

impl Default for AppConfig {
    /// A 1280x720 output window at (100, 100) without cursor, a 1200x800
    /// control window at (50, 50) with cursor, both resizable and decorated;
    /// 60 FPS with VSync; default encoding.
    fn default() -> (c: Self)
        ensures
            c.output_window.width == 1280,
            c.output_window.height == 720,
            c.output_window.x == Some(100i32),
            c.output_window.y == Some(100i32),
            c.output_window.title@ == "Rusty-404 - Output"@,
            c.output_window.resizable,
            c.output_window.decorated,
            !c.output_window.cursor_visible,
            c.control_window.width == 1200,
            c.control_window.height == 800,
            c.control_window.x == Some(50i32),
            c.control_window.y == Some(50i32),
            c.control_window.title@ == "Rusty-404 - Control"@,
            c.control_window.resizable,
            c.control_window.decorated,
            c.control_window.cursor_visible,
            c.target_fps == 60,
            c.vsync,
            c.encoding == (EncodingConfig {
                format: HapEncodeFormat::Dxt1,
                gpu_mode: GpuMode::Auto,
                max_dimension: 1920,
            }),
    {
        AppConfig {
            output_window: WindowConfig {
                width: 1280,
                height: 720,
                x: Some(100),
                y: Some(100),
                title: String::from_str("Rusty-404 - Output"),
                resizable: true,
                decorated: true,
                cursor_visible: false,
            },
            control_window: WindowConfig {
                width: 1200,
                height: 800,
                x: Some(50),
                y: Some(50),
                title: String::from_str("Rusty-404 - Control"),
                resizable: true,
                decorated: true,
                cursor_visible: true,
            },
            target_fps: 60,
            vsync: true,
            encoding: EncodingConfig::default(),
        }
    }
}

} // verus!
