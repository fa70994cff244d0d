//! The machine's fingerprint: a digest of its host name and of the hardware
//! address of its first network interface that is no loopback. The host
//! reads both from the system on every call; nothing is kept.

use crate::digest::{hex, hex_encode, is_hex_digit, lemma_hex_shape, sha256, sha256_digest};
use crate::text::{name_of, str_eq, text_of, trim, trimmed};
use vstd::prelude::*;
use vstd::string::StringExecFns;
use vstd::utf8::encode_utf8;

verus! {

/// Number of characters in a fingerprint.
pub const FINGERPRINT_LEN: usize = 64;

/// A network interface as the host found it.
#[derive(Debug, Clone)]
pub struct Interface {
    /// The interface's name.
    pub name: String,
    /// What its address file holds, where that could be read.
    pub address: Option<String>,
}

/// Whether the interface can give the machine's address: it is no loopback
/// and its address could be read.
pub open spec fn gives_address(interface: Interface) -> bool {
    interface.name@ != "lo"@ && interface.address is Some
}

/// The address of the first interface that can give one, without the white
/// space around it.
pub open spec fn first_address(interfaces: Seq<Interface>) -> Option<Seq<char>>
    decreases interfaces.len(),
{
    if interfaces.len() == 0 {
        None
    } else if gives_address(interfaces[0]) {
        Some(trimmed(interfaces[0].address->0@))
    } else {
        first_address(interfaces.drop_first())
    }
}

/// What is hashed: the host name, a hyphen and the hardware address, with
/// `unknown` for a host name that is not known and an address of zeros for
/// an address that is not.
pub open spec fn identity(hostname: Option<Seq<char>>, mac: Option<Seq<char>>) -> Seq<char> {
    let host = match hostname {
        Some(name) => name,
        None => "unknown"@,
    };
    let address = match mac {
        Some(address) => address,
        None => "00:00:00:00:00:00"@,
    };
    host + "-"@ + address
}

/// The fingerprint of a machine: the SHA-256 digest of its identity, in
/// lowercase hexadecimal.
pub open spec fn fingerprint_of(hostname: Option<Seq<char>>, mac: Option<Seq<char>>) -> Seq<char> {
    hex(sha256(encode_utf8(identity(hostname, mac))))
}

/// The hardware address of the machine among `interfaces`, taken in the
/// order in which the system lists them.
pub fn get_mac_address(interfaces: &Vec<Interface>) -> (mac: Option<String>)
    ensures
        name_of(mac) == first_address(interfaces@),
{
    let mut i: usize = 0;
    assert(interfaces@.subrange(0, interfaces@.len() as int) =~= interfaces@);
    while i < interfaces.len()
        invariant
            i <= interfaces.len(),
            first_address(interfaces@) == first_address(
                interfaces@.subrange(i as int, interfaces@.len() as int),
            ),
        decreases interfaces.len() - i,
    {
        let ghost rest = interfaces@.subrange(i as int, interfaces@.len() as int);
        assert(rest[0] == interfaces@[i as int]);
        assert(rest.drop_first() =~= interfaces@.subrange(i + 1, interfaces@.len() as int));
        let interface = &interfaces[i];
        if !str_eq(interface.name.as_str(), "lo") {
            match &interface.address {
                Some(address) => {
                    return Some(trim(address.as_str()).to_owned());
                },
                None => {},
            }
        }
        i += 1;
    }
    assert(interfaces@.subrange(i as int, interfaces@.len() as int).len() == 0);
    None
}

/// The machine's fingerprint, from its host name and hardware address as
/// far as the host could find them. The same name and address always give
/// the same fingerprint, of 64 hexadecimal digits.
pub fn get_machine_fingerprint(hostname: Option<&str>, mac: Option<&str>) -> (fingerprint: String)
    ensures
        fingerprint@ == fingerprint_of(text_of(hostname), text_of(mac)),
        fingerprint@.len() == FINGERPRINT_LEN,
        forall|i: int| 0 <= i < FINGERPRINT_LEN ==> is_hex_digit(#[trigger] fingerprint@[i]),
{
    let host = match hostname {
        Some(name) => name,
        None => "unknown",
    };
    let address = match mac {
        Some(address) => address,
        None => "00:00:00:00:00:00",
    };
    let data = host.to_owned().concat("-").concat(address);
    let digest = sha256_digest(data.as_str().as_bytes());
    proof {
        lemma_hex_shape(digest@);
    }
    hex_encode(digest.as_slice())
}

} // verus!
