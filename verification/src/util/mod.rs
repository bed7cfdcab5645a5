pub mod byte_extension;
pub mod checksum;
