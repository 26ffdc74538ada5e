#![allow(non_camel_case_types)]

use vstd::prelude::*;

pub mod bridge;
pub mod chapter;
pub mod codec;
pub mod decision;
pub mod error;
pub mod frame_side_data;
pub mod input;
pub mod media;
pub mod option_type;
pub mod packet_side_data;
pub mod pixel;
pub mod primaries;
pub mod range;
pub mod rounding;
pub mod space;
pub mod subtitle;
pub mod terminated;
pub mod transfer_characteristic;

verus! {

} // verus!
