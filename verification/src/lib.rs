pub mod error_boundary;
pub mod glyphs;
pub mod particles;
pub mod phase;
pub mod social_links;
pub mod static_files;
pub mod status_indicator;
pub mod widgets;
