//! Device identity and address formatting.
//!
//! A Thing introduces itself with a stable identifier — a UUID URN derived
//! from a per-build random seed, or a vendor URN derived from the hardware
//! address — and serves its description under a base URI formed from the
//! address the network stack was assigned. The seed and the address come
//! from the environment; every character of the output is pinned here.

use vstd::prelude::*;
use vstd::string::StringExecFns;

use crate::fmt::dec_digits;

verus! {

/// What the UUID URN rendering makes of sixteen seed bytes. The seed alone
/// determines it: the builder forces the version and variant bits and the
/// rendering is canonical.
pub uninterp spec fn uuid_urn_of(seed: Seq<u8>) -> Seq<char>;

/// Relies on uuid::Builder::from_random_bytes and uuid::Uuid::urn: the
/// sixteen bytes determine the UUID, and its URN form is `urn:uuid:`
/// followed by the 36-character hyphenated rendering — 45 characters in
/// all, a function of the bytes alone.
#[verifier::external_body]
fn uuid_urn(seed: &[u8; 16]) -> (r: String)
    ensures
        r@ == uuid_urn_of(seed@),
        r@.len() == 45,
{
    uuid::Builder::from_random_bytes(*seed).into_uuid().urn().to_string()
}

/// The vendor URN for a device, from the text of its hardware address.
pub open spec fn vendor_urn(device_id: Seq<char>) -> Seq<char> {
    "urn:example/shtc3/"@ + device_id
}

/// Produce an urn that can be used as id: a UUID URN from the identity
/// seed when one is configured, otherwise a vendor URN from the hardware
/// address.
pub fn get_urn_or_uuid(use_uuid: bool, seed: &[u8; 16], device_id: &str) -> (r: String)
    ensures
        use_uuid ==> r@ == uuid_urn_of(seed@),
        !use_uuid ==> r@ == vendor_urn(device_id@),
{
    if use_uuid {
        uuid_urn(seed)
    } else {
        let mut s = "urn:example/shtc3/".to_owned();
        s.append(device_id);
        s
    }
}

/// The base URI the Thing Description advertises, from the text of the
/// assigned network address.
pub open spec fn base_uri_of(address: Seq<char>) -> Seq<char> {
    "http://"@ + address
}

/// Form the served base URI from the assigned address.
pub fn base_uri(address: &str) -> (r: String)
    ensures
        r@ == base_uri_of(address@),
{
    let mut s = "http://".to_owned();
    s.append(address);
    s
}

/// The advertised hostname: the device name, a hyphen, then the last four
/// bytes of the hardware address in reverse order, each in decimal.
pub open spec fn hostname_of(name: Seq<char>, hw: Seq<u8>) -> Seq<char>
    recommends
        hw.len() >= 4,
{
    name + seq!['-'] + dec_digits(hw[hw.len() - 1] as nat) + dec_digits(hw[hw.len() - 2] as nat)
        + dec_digits(hw[hw.len() - 3] as nat) + dec_digits(hw[hw.len() - 4] as nat)
}

/// Form the hostname a device announces, from its name and its hardware
/// address bytes.
pub fn hostname(name: &str, hw: &Vec<u8>) -> (r: String)
    requires
        hw@.len() >= 4,
    ensures
        r@ == hostname_of(name@, hw@),
{
    let mut s = name.to_owned();
    proof {
        reveal_strlit("-");
        assert("-"@ =~= seq!['-']);
    }
    s.append("-");
    let n = hw.len();
    let d1 = crate::fmt::format_u64(hw[n - 1] as u64);
    s.append(d1.as_str());
    let d2 = crate::fmt::format_u64(hw[n - 2] as u64);
    s.append(d2.as_str());
    let d3 = crate::fmt::format_u64(hw[n - 3] as u64);
    s.append(d3.as_str());
    let d4 = crate::fmt::format_u64(hw[n - 4] as u64);
    s.append(d4.as_str());
    proof {
        assert(s@ =~= hostname_of(name@, hw@));
    }
    s
}

} // verus!
