//! The addresses that the server may listen on.
//!
//! The server has no authentication, so it listens only where the network around
//! it is private.

use vstd::prelude::*;

verus! {

/// An IPv4 address.
#[derive(Clone, Copy, PartialEq, Eq, Debug)]
pub struct Ipv4 {
    pub octets: [u8; 4],
}

/// An IPv6 address.
#[derive(Clone, Copy, PartialEq, Eq, Debug)]
pub struct Ipv6 {
    pub segments: [u16; 8],
}

/// An IP address.
#[derive(Clone, Copy, PartialEq, Eq, Debug)]
pub enum Ip {
    V4(Ipv4),
    V6(Ipv6),
}

impl Ipv4 {
    /// The address as one number.
    pub open spec fn number(self) -> nat {
        let o = self.octets@;
        o[0] as nat * 0x100_0000 + o[1] as nat * 0x1_0000 + o[2] as nat * 0x100 + o[3] as nat
    }

    /// True if the address lies in the block of `2^(32-length)` addresses that
    /// begins with `a.b.0.0`.
    pub open spec fn in_block(self, a: nat, b: nat, length: nat) -> bool {
        let first = a * 0x100_0000 + b * 0x1_0000;
        first <= self.number() < first + vstd::arithmetic::power2::pow2((32 - length) as nat)
    }

    /// The range that Tailscale takes its addresses from, `100.64.0.0/10`.
    pub open spec fn is_cgnat(self) -> bool {
        self.in_block(100, 64, 10)
    }

    /// Loopback, RFC1918 or the Tailscale range.
    pub open spec fn is_private(self) -> bool {
        ||| self.in_block(127, 0, 8)
        ||| self.in_block(10, 0, 8)
        ||| self.in_block(172, 16, 12)
        ||| self.in_block(192, 168, 16)
        ||| self.is_cgnat()
    }
}

impl Ipv6 {
    /// The loopback address, `::1`.
    pub open spec fn is_loopback(self) -> bool {
        &&& forall|i: int| 0 <= i < 7 ==> #[trigger] self.segments@[i] == 0
        &&& self.segments@[7] == 1
    }

    /// The unique local addresses, `fc00::/7`.
    pub open spec fn is_unique_local(self) -> bool {
        0xfc00 <= self.segments@[0] <= 0xfdff
    }
}

impl Ip {
    /// True of an address that the server listens on without being forced to.
    pub open spec fn is_private(self) -> bool {
        match self {
            Ip::V4(a) => a.is_private(),
            Ip::V6(a) => a.is_loopback() || a.is_unique_local(),
        }
    }

    /// True of an IPv4 address in the Tailscale range.
    pub open spec fn is_tailscale(self) -> bool {
        self matches Ip::V4(a) && a.is_cgnat()
    }
}

/// The sizes of the blocks above.
proof fn lemma_block_sizes()
    ensures
        vstd::arithmetic::power2::pow2(24) == 0x100_0000,
        vstd::arithmetic::power2::pow2(22) == 0x40_0000,
        vstd::arithmetic::power2::pow2(20) == 0x10_0000,
        vstd::arithmetic::power2::pow2(16) == 0x1_0000,
{
    vstd::arithmetic::power2::lemma2_to64();
}

/// True if the address is inside `100.64.0.0/10`, the Tailscale range.
pub fn is_cgnat(a: Ipv4) -> (inside: bool)
    ensures
        inside == a.is_cgnat(),
{
    proof {
        lemma_block_sizes();
    }
    let second: u8 = a.octets[1];
    assert((second & 0b1100_0000 == 0b0100_0000) == (64 <= second && second < 128)) by (bit_vector);
    a.octets[0] == 100 && (second & 0b1100_0000) == 0b0100_0000
}

/// True if the address is loopback, RFC1918, `100.64.0.0/10`, or IPv6 `fc00::/7`.
///
/// The addresses that mean every interface, `0.0.0.0` and `::`, are not private.
pub fn is_private(ip: Ip) -> (private: bool)
    ensures
        private == ip.is_private(),
{
    proof {
        lemma_block_sizes();
    }
    match ip {
        Ip::V4(a) => {
            let first: u8 = a.octets[0];
            let second: u8 = a.octets[1];
            first == 127 || first == 10 || (first == 172 && 16 <= second && second < 32) || (first
                == 192 && second == 168) || is_cgnat(a)
        },
        Ip::V6(a) => {
            let top: u16 = a.segments[0];
            assert((top & 0xfe00 == 0xfc00) == (0xfc00 <= top && top <= 0xfdff)) by (bit_vector);
            let mut zeros = true;
            let mut i: usize = 0;
            while i < 7
                invariant
                    i <= 7,
                    zeros == (forall|j: int| 0 <= j < i ==> #[trigger] a.segments@[j] == 0),
                decreases 7 - i,
            {
                if a.segments[i] != 0 {
                    zeros = false;
                }
                i += 1;
            }
            (zeros && a.segments[7] == 1) || (top & 0xfe00) == 0xfc00
        },
    }
}

/// The first IPv4 address of this list inside `100.64.0.0/10`.
pub open spec fn first_tailscale(addresses: Seq<Ip>) -> Option<Ip>
    decreases addresses.len(),
{
    if addresses.len() == 0 {
        None
    } else if addresses[0].is_tailscale() {
        Some(addresses[0])
    } else {
        first_tailscale(addresses.skip(1))
    }
}

/// The first IPv4 address of this host inside `100.64.0.0/10`, of the addresses
/// that its interfaces have.
pub fn tailscale_ip(addresses: &Vec<Ip>) -> (ip: Option<Ip>)
    ensures
        ip == first_tailscale(addresses@),
{
    let mut i: usize = 0;
    assert(addresses@.skip(0) =~= addresses@);
    while i < addresses.len()
        invariant
            i <= addresses.len(),
            first_tailscale(addresses@) == first_tailscale(addresses@.skip(i as int)),
        decreases addresses.len() - i,
    {
        assert(addresses@.skip(i as int)[0] == addresses[i as int]);
        assert(addresses@.skip(i as int).skip(1) =~= addresses@.skip(i + 1));
        match addresses[i] {
            Ip::V4(a) => {
                if is_cgnat(a) {
                    return Some(addresses[i]);
                }
            },
            Ip::V6(_) => {},
        }
        i += 1;
    }
    None
}

/// What is said of a `--bind` that is not an address.
pub open spec fn not_an_address(text: Seq<char>) -> Seq<char> {
    "--bind "@ + text + ": not an IP address"@
}

/// What is said of a `--bind` to a public address.
pub open spec fn public_address(text: Seq<char>) -> Seq<char> {
    "refusing to bind the public address "@ + text
        + ".\ntailclip has no authentication. The tailnet is the authentication.\nTo override this, add --allow-public-bind."@
}

/// What is said where no address is given and the host has none of Tailscale.
pub open spec fn no_tailscale() -> Seq<char> {
    "no address inside 100.64.0.0/10 on this host.\ntailclip binds the Tailscale address. Start Tailscale, then try again.\nTo use a different address, add --bind <ip>."@
}

/// The address to listen on, or why there is none.
pub open spec fn bind_choice(
    explicit: Option<Seq<char>>,
    address: Option<Ip>,
    allow_public: bool,
    addresses: Seq<Ip>,
) -> Result<Ip, Seq<char>> {
    match explicit {
        Some(text) => match address {
            None => Err(not_an_address(text)),
            Some(ip) => if allow_public || ip.is_private() {
                Ok(ip)
            } else {
                Err(public_address(text))
            },
        },
        None => match first_tailscale(addresses) {
            Some(ip) => Ok(ip),
            None => Err(no_tailscale()),
        },
    }
}

/// Applies the bind address rules and returns the address to listen on.
///
/// `address` is the address that the text of `explicit` reads as, if it reads as
/// one. `addresses` are those of the interfaces of this host. They count only
/// where no address is given.
pub fn pick_bind(
    explicit: Option<&str>,
    address: Option<Ip>,
    allow_public: bool,
    addresses: &Vec<Ip>,
) -> (ip: Result<Ip, String>)
    ensures
        explicit is Some && address is Some && (allow_public || address->0.is_private()) ==> ip
            == Ok::<Ip, String>(address->0),
        match ip {
            Ok(ip) => bind_choice(
                match explicit {
                    Some(s) => Some(s@),
                    None => None,
                },
                address,
                allow_public,
                addresses@,
            ) == Ok::<Ip, Seq<char>>(ip),
            Err(e) => bind_choice(
                match explicit {
                    Some(s) => Some(s@),
                    None => None,
                },
                address,
                allow_public,
                addresses@,
            ) == Err::<Ip, Seq<char>>(e@),
        },
{
    match explicit {
        Some(s) => match address {
            None => {
                let mut text = "--bind ".to_string();
                text.append(s);
                text.append(": not an IP address");
                Err(text)
            },
            Some(ip) => if allow_public || is_private(ip) {
                Ok(ip)
            } else {
                let mut text = "refusing to bind the public address ".to_string();
                text.append(s);
                text.append(
                    ".\ntailclip has no authentication. The tailnet is the authentication.\nTo override this, add --allow-public-bind.",
                );
                Err(text)
            },
        },
        None => match tailscale_ip(addresses) {
            Some(ip) => Ok(ip),
            None => Err(
                "no address inside 100.64.0.0/10 on this host.\ntailclip binds the Tailscale address. Start Tailscale, then try again.\nTo use a different address, add --bind <ip>.".to_string(),
            ),
        },
    }
}

/// The server never listens on every interface without being told to: no list of
/// interfaces leads there, and `0.0.0.0` and `::` are refused by name.
pub proof fn law_every_interface_is_refused(
    explicit: Option<Seq<char>>,
    address: Option<Ip>,
    addresses: Seq<Ip>,
    ip: Ip,
)
    requires
        bind_choice(explicit, address, false, addresses) == Ok::<Ip, Seq<char>>(ip),
    ensures
        ip.is_private(),
        ip matches Ip::V4(a) ==> a.octets@ != seq![0u8, 0, 0, 0],
        ip matches Ip::V6(a) ==> a.segments@ != seq![0u16, 0, 0, 0, 0, 0, 0, 0],
    decreases addresses.len(),
{
    lemma_block_sizes();
    if explicit is None && !addresses[0].is_tailscale() {
        law_every_interface_is_refused(explicit, address, addresses.skip(1), ip);
    }
}

} // verus!
