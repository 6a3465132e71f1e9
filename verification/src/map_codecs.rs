//! Map codecs beyond the field codecs: sum-type dispatch on a key, and the
//! map codec for homogeneous maps.

pub mod key_dispatch;
pub mod simple;
