//! Counted UTF-16 strings, and the driver's fixed object names.
use vstd::prelude::*;

verus! {

/// A counted UTF-16 string as the kernel takes it: lengths are in bytes.
pub struct UnicodeString {
    pub length: u16,
    pub maximum_length: u16,
    pub buffer: Vec<u16>,
}

/// Builds a `UnicodeString` that holds `utf16` exactly.
pub fn rtl_constant_string(utf16: &[u16]) -> (r: UnicodeString)
    requires
        utf16@.len() * 2 <= u16::MAX,
    ensures
        r.length == utf16@.len() * 2,
        r.maximum_length == r.length,
        r.buffer@ == utf16@,
{
    let length_in_bytes = (utf16.len() * 2) as u16;
    UnicodeString {
        length: length_in_bytes,
        maximum_length: length_in_bytes,
        buffer: vstd::slice::slice_to_vec(utf16),
    }
}

/// `\Device\Htsysm72FB`, the device's name in the kernel's namespace.
pub open spec fn device_name_spec() -> Seq<u16> {
    seq![
        0x5c, 0x44, 0x65, 0x76, 0x69, 0x63, 0x65, 0x5c,
        0x48, 0x74, 0x73, 0x79, 0x73, 0x6d, 0x37, 0x32, 0x46, 0x42,
    ]
}

/// `\DosDevices\Htsysm72FB`, the public alias through which callers open the
/// device.
pub open spec fn link_name_spec() -> Seq<u16> {
    seq![
        0x5c, 0x44, 0x6f, 0x73, 0x44, 0x65, 0x76, 0x69, 0x63, 0x65, 0x73, 0x5c,
        0x48, 0x74, 0x73, 0x79, 0x73, 0x6d, 0x37, 0x32, 0x46, 0x42,
    ]
}

/// The device's name, in UTF-16.
pub fn device_name() -> (r: Vec<u16>)
    ensures
        r@ == device_name_spec(),
{
    let r: Vec<u16> = vec![
        0x5c, 0x44, 0x65, 0x76, 0x69, 0x63, 0x65, 0x5c,
        0x48, 0x74, 0x73, 0x79, 0x73, 0x6d, 0x37, 0x32, 0x46, 0x42,
    ];
    assert(r@ =~= device_name_spec());
    r
}

/// The public alias's name, in UTF-16.
pub fn link_name() -> (r: Vec<u16>)
    ensures
        r@ == link_name_spec(),
{
    let r: Vec<u16> = vec![
        0x5c, 0x44, 0x6f, 0x73, 0x44, 0x65, 0x76, 0x69, 0x63, 0x65, 0x73, 0x5c,
        0x48, 0x74, 0x73, 0x79, 0x73, 0x6d, 0x37, 0x32, 0x46, 0x42,
    ];
    assert(r@ =~= link_name_spec());
    r
}

} // verus!
