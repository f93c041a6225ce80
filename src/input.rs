use vstd::prelude::*;

verus! {

/// A command-line value that could not be read.
#[derive(PartialEq, Eq, Structural, Clone, Copy, Debug)]
pub enum InputError {
    /// The device address is not in colon-hexadecimal notation.
    Address,
    /// The characteristic identifier is not a UUID.
    Characteristic,
}

/// What bluer's `Address::from_str` yields for a text, as its six bytes;
/// `None` where it refuses the text.
pub uninterp spec fn address_from_text(s: Seq<char>) -> Option<Seq<u8>>;

/// What `Uuid::parse_str` yields for a text, as a 128-bit value; `None` where
/// it refuses the text.
pub uninterp spec fn uuid_from_text(s: Seq<char>) -> Option<u128>;

/// Relies on bluer's `Address::from_str`: colon-separated hexadecimal fields,
/// exactly six of them; the result depends on the text alone.
#[verifier::external_body]
fn parse_address(s: &str) -> (r: Option<[u8; 6]>)
    ensures
        match r {
            Some(a) => address_from_text(s@) == Some(a@),
            None => address_from_text(s@) is None,
        },
{
    <bluer::Address as std::str::FromStr>::from_str(s).ok().map(|a| a.0)
}

/// Relies on bluer's `Uuid::parse_str` (the `uuid` crate): its result depends
/// on the text alone.
#[verifier::external_body]
fn parse_uuid(s: &str) -> (r: Option<u128>)
    ensures
        r == uuid_from_text(s@),
{
    bluer::Uuid::parse_str(s).ok().map(|u| u.as_u128())
}

/// Reads the address of the remote device.
pub fn device_address(s: &str) -> (r: Result<[u8; 6], InputError>)
    ensures
        match r {
            Ok(a) => address_from_text(s@) == Some(a@),
            Err(e) => e == InputError::Address && address_from_text(s@) is None,
        },
{
    match parse_address(s) {
        Some(a) => Ok(a),
        None => Err(InputError::Address),
    }
}

/// Reads the identifier of the characteristic to operate on.
pub fn characteristic_id(s: &str) -> (r: Result<u128, InputError>)
    ensures
        match r {
            Ok(u) => uuid_from_text(s@) == Some(u),
            Err(e) => e == InputError::Characteristic && uuid_from_text(s@) is None,
        },
{
    match parse_uuid(s) {
        Some(u) => Ok(u),
        None => Err(InputError::Characteristic),
    }
}

} // verus!
