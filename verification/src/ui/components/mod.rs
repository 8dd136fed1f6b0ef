pub mod managed_image;
pub mod popover;
