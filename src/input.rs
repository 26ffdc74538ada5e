use vstd::prelude::*;

use crate::terminated::{c_str_bytes, c_string, split_bytes, split_on};

verus! {

/// The delimiter between the entries of a native list string.
pub const LIST_DELIMITER: u8 = 44;

/// The fields of a native `AVInputFormat` as plain values. Each string is the
/// buffer that its pointer reaches, up to and past its NUL terminator; `None`
/// stands for a null pointer.
pub struct NativeInputFormat {
    pub name: Vec<u8>,
    pub long_name: Vec<u8>,
    pub extensions: Option<Vec<u8>>,
    pub mime_type: Option<Vec<u8>>,
}

/// The entries of a native comma separated list: none for a null pointer,
/// else the pieces of the string between the commas.
pub open spec fn list_entries(field: Option<Seq<u8>>) -> Seq<Seq<u8>> {
    match field {
        Some(s) => split_on(c_string(s), LIST_DELIMITER),
        None => Seq::empty(),
    }
}

pub open spec fn opt_view(field: &Option<Vec<u8>>) -> Option<Seq<u8>> {
    match field {
        Some(v) => Some(v@),
        None => None,
    }
}

/// A read-only view of a native input format.
pub struct Input<'a> {
    ptr: &'a NativeInputFormat,
}

impl<'a> Input<'a> {
    pub closed spec fn native(&self) -> &'a NativeInputFormat {
        self.ptr
    }

    pub fn wrap(ptr: &'a NativeInputFormat) -> (r: Input<'a>)
        ensures
            r.native() == ptr,
    {
        Input { ptr }
    }

    pub fn as_ptr(&self) -> (r: &'a NativeInputFormat)
        ensures
            r == self.native(),
    {
        self.ptr
    }

    /// A comma separated list of short names for the format.
    pub fn name(&self) -> (r: &'a [u8])
        ensures
            r@ == c_string(self.native().name@),
    {
        c_str_bytes(self.ptr.name.as_slice())
    }

    /// Descriptive name for the format, meant to be more human readable than
    /// the name.
    pub fn description(&self) -> (r: &'a [u8])
        ensures
            r@ == c_string(self.native().long_name@),
    {
        c_str_bytes(self.ptr.long_name.as_slice())
    }

    /// The file extensions of the format; empty when none are declared.
    pub fn extensions(&self) -> (r: Vec<&'a [u8]>)
        ensures
            r@.len() == list_entries(opt_view(&self.native().extensions)).len(),
            forall|i: int|
                0 <= i < r@.len() ==> (#[trigger] r@[i])@ == list_entries(
                    opt_view(&self.native().extensions),
                )[i],
    {
        list_field(&self.ptr.extensions)
    }

    /// The mime types of the format; empty when none are declared.
    pub fn mime_types(&self) -> (r: Vec<&'a [u8]>)
        ensures
            r@.len() == list_entries(opt_view(&self.native().mime_type)).len(),
            forall|i: int|
                0 <= i < r@.len() ==> (#[trigger] r@[i])@ == list_entries(
                    opt_view(&self.native().mime_type),
                )[i],
    {
        list_field(&self.ptr.mime_type)
    }
}

/// The entries of a native comma separated list field.
pub fn list_field<'a>(field: &'a Option<Vec<u8>>) -> (r: Vec<&'a [u8]>)
    ensures
        r@.len() == list_entries(opt_view(field)).len(),
        forall|i: int|
            0 <= i < r@.len() ==> (#[trigger] r@[i])@ == list_entries(opt_view(field))[i],
{
    match field {
        Some(buf) => split_bytes(c_str_bytes(buf.as_slice()), LIST_DELIMITER),
        None => Vec::new(),
    }
}

/// A null list field has no entries, not one empty entry.
pub proof fn null_list_is_empty()
    ensures
        list_entries(None).len() == 0,
{
}

} // verus!
