//! The container network: address allocation in 10.11.0.0/16, the bridge,
//! epair interfaces, NAT and port forwarding.
//!
//! Interfaces and packet filter rules are changed by host commands, which
//! this module writes and whose output it reads.

use crate::command::{command, no_args, push_arg, CommandOutput, HostCommand};
use crate::jail::Host;
use crate::number::{decimal, decimal_chars, parse_u8, parse_upto};
use crate::text::{
    chars_of, concat2, concat3, contains, extend, has_infix, has_prefix, lines, slice, split,
    split_at_char, split_lines, split_words, starts_with, string_of, trim, trimmed, views, words,
};
use vstd::prelude::*;

verus! {

/// The bridge that containers are attached to.
pub const BRIDGE_NAME: &'static str = "bridge0";

/// The bridge's address and prefix length.
pub const BRIDGE_IP: &'static str = "10.11.0.1/16";

/// The gateway of containers: the bridge's address.
pub const GATEWAY: &'static str = "10.11.0.1";

/// The subnet of containers.
pub const NETWORK_CIDR: &'static str = "10.11.0.0/16";

/// The packet filter anchor for NAT.
pub const PF_ANCHOR: &'static str = "kawakaze";

/// The packet filter anchor for port forwarding.
pub const PF_FORWARDING_ANCHOR: &'static str = "kawakaze_forwarding";

/// The file that keeps the allocated addresses.
pub const STATE_FILE: &'static str = "/var/db/kawakaze/ip_allocations.txt";

/// Why a network operation failed.
#[derive(Debug, PartialEq, Eq)]
pub enum NetworkError {
    BridgeCreationFailed(String),
    BridgeAlreadyExists,
    BridgeNotFound,
    EpairCreationFailed(String),
    EpairAttachmentFailed(String),
    IpAllocationFailed(String),
    IpExhausted,
    PfError(String),
    IoError(String),
}

impl NetworkError {
    /// The error as one line of text.
    pub fn to_string(&self) -> (r: String)
        ensures
            r@ == match self {
                NetworkError::BridgeCreationFailed(m) => "Failed to create bridge: "@ + m@,
                NetworkError::BridgeAlreadyExists => "Bridge already exists"@,
                NetworkError::BridgeNotFound => "Bridge not found"@,
                NetworkError::EpairCreationFailed(m) => "Failed to create epair: "@ + m@,
                NetworkError::EpairAttachmentFailed(m) => "Failed to attach epair: "@ + m@,
                NetworkError::IpAllocationFailed(m) => "Failed to allocate IP: "@ + m@,
                NetworkError::IpExhausted => "No more IP addresses available"@,
                NetworkError::PfError(m) => "PF error: "@ + m@,
                NetworkError::IoError(m) => "IO error: "@ + m@,
            },
    {
        match self {
            NetworkError::BridgeCreationFailed(m) => concat2("Failed to create bridge: ", m.as_str()),
            NetworkError::BridgeAlreadyExists => "Bridge already exists".to_owned(),
            NetworkError::BridgeNotFound => "Bridge not found".to_owned(),
            NetworkError::EpairCreationFailed(m) => concat2("Failed to create epair: ", m.as_str()),
            NetworkError::EpairAttachmentFailed(m) => concat2("Failed to attach epair: ", m.as_str()),
            NetworkError::IpAllocationFailed(m) => concat2("Failed to allocate IP: ", m.as_str()),
            NetworkError::IpExhausted => "No more IP addresses available".to_owned(),
            NetworkError::PfError(m) => concat2("PF error: ", m.as_str()),
            NetworkError::IoError(m) => concat2("IO error: ", m.as_str()),
        }
    }
}

// ---------------------------------------------------------------------------
// Addresses
// ---------------------------------------------------------------------------

/// An IPv4 address.
#[derive(Debug, Clone, Copy, PartialEq, Eq, Structural)]
pub struct Ipv4Addr {
    pub a: u8,
    pub b: u8,
    pub c: u8,
    pub d: u8,
}

/// One number of a dotted address: one to three digits without a leading
/// zero, at most 255.
pub open spec fn octet_of(s: Seq<char>) -> Option<nat> {
    if 1 <= s.len() <= 3 && s[0] != '+' && (s.len() == 1 || s[0] != '0') {
        parse_upto(s, 255)
    } else {
        None
    }
}

/// The address written as four numbers separated by dots.
pub open spec fn ipv4_of(s: Seq<char>) -> Option<Ipv4Addr> {
    let p = split(s, '.');
    if p.len() == 4 && octet_of(p[0]) is Some && octet_of(p[1]) is Some && octet_of(p[2]) is Some
        && octet_of(p[3]) is Some {
        Some(
            Ipv4Addr {
                a: octet_of(p[0])->0 as u8,
                b: octet_of(p[1])->0 as u8,
                c: octet_of(p[2])->0 as u8,
                d: octet_of(p[3])->0 as u8,
            },
        )
    } else {
        None
    }
}

fn read_octet(v: &Vec<char>) -> (r: Option<u8>)
    ensures
        match r {
            Some(n) => octet_of(v@) == Some(n as nat),
            None => octet_of(v@) is None,
        },
{
    if 1 <= v.len() && v.len() <= 3 && v[0] != '+' && (v.len() == 1 || v[0] != '0') {
        parse_u8(v)
    } else {
        None
    }
}

impl Ipv4Addr {
    /// The address `a.b.c.d`.
    pub fn new(a: u8, b: u8, c: u8, d: u8) -> (r: Ipv4Addr)
        ensures
            r == (Ipv4Addr { a, b, c, d }),
    {
        Ipv4Addr { a, b, c, d }
    }

    /// The four numbers of the address.
    pub fn octets(&self) -> (r: [u8; 4])
        ensures
            r@ == seq![self.a, self.b, self.c, self.d],
    {
        let r = [self.a, self.b, self.c, self.d];
        assert(r@ =~= seq![self.a, self.b, self.c, self.d]);
        r
    }

    /// The address in dotted form.
    pub open spec fn text(self) -> Seq<char> {
        decimal(self.a as nat) + "."@ + decimal(self.b as nat) + "."@ + decimal(self.c as nat)
            + "."@ + decimal(self.d as nat)
    }

    /// The address in dotted form.
    pub fn to_string(&self) -> (r: String)
        ensures
            r@ == self.text(),
    {
        let mut v = decimal_chars(self.a as u64);
        let dot = chars_of(".");
        extend(&mut v, &dot);
        extend(&mut v, &decimal_chars(self.b as u64));
        extend(&mut v, &dot);
        extend(&mut v, &decimal_chars(self.c as u64));
        extend(&mut v, &dot);
        extend(&mut v, &decimal_chars(self.d as u64));
        string_of(&v)
    }

    /// Reads an address in dotted form.
    pub fn parse(s: &str) -> (r: Option<Ipv4Addr>)
        ensures
            r == ipv4_of(s@),
    {
        let p = split_at_char(&chars_of(s), '.');
        if p.len() != 4 {
            return None;
        }
        assert(forall|i: int| 0 <= i < 4 ==> views(p@)[i] == (#[trigger] p@[i])@);
        let a = read_octet(&p[0]);
        let b = read_octet(&p[1]);
        let c = read_octet(&p[2]);
        let d = read_octet(&p[3]);
        match (a, b, c, d) {
            (Some(a), Some(b), Some(c), Some(d)) => Some(Ipv4Addr { a, b, c, d }),
            _ => None,
        }
    }

    /// Whether the address lies in 10.11.0.0/16.
    pub open spec fn in_network(self) -> bool {
        self.a == 10 && self.b == 11
    }

    /// The address's place in the subnet: its last two numbers as one.
    pub open spec fn offset(self) -> int {
        self.c as int * 256 + self.d as int
    }
}

// ---------------------------------------------------------------------------
// IPv6 addresses as text
// ---------------------------------------------------------------------------

/// Whether `c` is a hexadecimal digit.
pub open spec fn is_hex(c: char) -> bool {
    ('0' <= c <= '9') || ('a' <= c <= 'f') || ('A' <= c <= 'F')
}

/// One group of an IPv6 address: one to four hexadecimal digits.
pub open spec fn is_group(s: Seq<char>) -> bool {
    1 <= s.len() <= 4 && forall|i: int| 0 <= i < s.len() ==> is_hex(#[trigger] s[i])
}

/// How many groups of sixteen bits a run of an IPv6 address holds: the run
/// is made of groups with a colon between them, and where `dotted` allows
/// it, a dotted IPv4 address may stand in the last place, where it counts
/// for two. A text that is no such run holds none.
pub open spec fn run_units(s: Seq<char>, dotted: bool) -> Option<int> {
    let p = split(s, ':');
    if forall|i: int| 0 <= i < p.len() - 1 ==> is_group(#[trigger] p[i]) {
        if is_group(p.last()) {
            Some(p.len() as int)
        } else if dotted && ipv4_of(p.last()) is Some {
            Some(p.len() as int + 1)
        } else {
            None
        }
    } else {
        None
    }
}

/// The groups on one side of `::`, which may be empty.
pub open spec fn side_units(s: Seq<char>, dotted: bool) -> Option<int> {
    if s.len() == 0 {
        Some(0)
    } else {
        run_units(s, dotted)
    }
}

/// Where the first `::` of a text begins; the text's length if it has
/// none.
pub open spec fn double_colon(s: Seq<char>) -> int
    decreases s.len(),
{
    if s.len() < 2 {
        s.len() as int
    } else if s[0] == ':' && s[1] == ':' {
        0
    } else {
        1 + double_colon(s.drop_first())
    }
}

/// Whether a text is an IPv6 address: eight groups with colons between
/// them; or fewer, with one `::` that stands for the groups of zeros that
/// are left out, at least one. The last two groups may be written as a
/// dotted IPv4 address, at the end of the text only.
pub open spec fn valid_ipv6(s: Seq<char>) -> bool {
    let k = double_colon(s);
    if k >= s.len() {
        run_units(s, true) == Some(8int)
    } else {
        match (side_units(s.take(k), false), side_units(s.skip(k + 2), true)) {
            (Some(h), Some(t)) => h + t <= 7,
            _ => false,
        }
    }
}

/// Whether a text is an IP address, of either kind.
pub open spec fn valid_ip(s: Seq<char>) -> bool {
    ipv4_of(s) is Some || valid_ipv6(s)
}

fn group(v: &Vec<char>) -> (r: bool)
    ensures
        r == is_group(v@),
{
    if v.len() < 1 || v.len() > 4 {
        return false;
    }
    let mut i: usize = 0;
    while i < v.len()
        invariant
            i <= v.len(),
            forall|j: int| 0 <= j < i ==> is_hex(#[trigger] v@[j]),
        decreases v.len() - i,
    {
        let c = v[i];
        let hex = ('0' <= c && c <= '9') || ('a' <= c && c <= 'f') || ('A' <= c && c <= 'F');
        if !hex {
            return false;
        }
        i += 1;
    }
    true
}

fn units(v: &Vec<char>, dotted: bool) -> (r: Option<usize>)
    ensures
        match r {
            Some(n) => run_units(v@, dotted) == Some(n as int),
            None => match run_units(v@, dotted) {
                Some(u) => u > 8,
                None => true,
            },
        },
{
    let p = split_at_char(v, ':');
    proof {
        crate::text::lemma_split_nonempty(v@, ':');
        assert(views(p@).len() == p@.len());
    }
    let n = p.len();
    if n > 8 {
        return None;
    }
    let mut i: usize = 0;
    while i + 1 < n
        invariant
            i < n,
            n == p.len(),
            n <= 8,
            views(p@) == split(v@, ':'),
            forall|j: int| 0 <= j < i ==> is_group(#[trigger] split(v@, ':')[j]),
        decreases n - i,
    {
        assert(views(p@)[i as int] == p@[i as int]@);
        if !group(&p[i]) {
            return None;
        }
        i += 1;
    }
    assert(views(p@).len() == n);
    assert(views(p@)[n - 1] == p@[n - 1]@);
    assert(split(v@, ':').last() == p@[n - 1]@);
    if group(&p[n - 1]) {
        Some(n)
    } else if dotted && Ipv4Addr::parse(string_of(&p[n - 1]).as_str()).is_some() {
        Some(n + 1)
    } else {
        None
    }
}

fn side(v: &Vec<char>, dotted: bool) -> (r: Option<usize>)
    ensures
        match r {
            Some(n) => side_units(v@, dotted) == Some(n as int),
            None => match side_units(v@, dotted) {
                Some(u) => u > 8,
                None => true,
            },
        },
{
    if v.len() == 0 {
        Some(0)
    } else {
        units(v, dotted)
    }
}

fn find_double_colon(v: &Vec<char>) -> (r: usize)
    ensures
        r == double_colon(v@),
        r <= v.len(),
        r < v.len() ==> r + 2 <= v.len(),
{
    if v.len() < 2 {
        return v.len();
    }
    let mut i: usize = 0;
    assert(v@.skip(0) =~= v@);
    while i < v.len() - 1
        invariant
            2 <= v.len(),
            i < v.len(),
            double_colon(v@) == i + double_colon(v@.skip(i as int)),
        decreases v.len() - i,
    {
        if v[i] == ':' && v[i + 1] == ':' {
            return i;
        }
        assert(v@.skip(i as int).drop_first() =~= v@.skip(i as int + 1));
        i += 1;
    }
    v.len()
}

/// Whether a text is an IP address: a dotted IPv4 address or an IPv6
/// address.
pub fn is_ip_address(s: &str) -> (r: bool)
    ensures
        r == valid_ip(s@),
{
    if Ipv4Addr::parse(s).is_some() {
        return true;
    }
    let v = chars_of(s);
    let k = find_double_colon(&v);
    if k >= v.len() {
        match units(&v, true) {
            Some(n) => n == 8,
            None => false,
        }
    } else {
        let head = slice(&v, 0, k);
        let tail = slice(&v, k + 2, v.len());
        assert(head@ =~= v@.take(k as int));
        assert(tail@ =~= v@.skip(k as int + 2));
        match (side(&head, false), side(&tail, true)) {
            (Some(h), Some(t)) => h <= 7 && t <= 7 && h + t <= 7,
            _ => false,
        }
    }
}

/// The address at a place in the subnet.
pub open spec fn ip_at(offset: int) -> Ipv4Addr {
    Ipv4Addr { a: 10, b: 11, c: (offset / 256) as u8, d: (offset % 256) as u8 }
}

/// The addresses at the taken places below `upto`, lowest first.
pub open spec fn listing(taken: Set<int>, upto: int) -> Seq<Ipv4Addr>
    decreases upto,
{
    if upto <= 0 {
        Seq::empty()
    } else if taken.contains(upto - 1) {
        listing(taken, upto - 1).push(ip_at(upto - 1))
    } else {
        listing(taken, upto - 1)
    }
}

/// Addresses as text, each on a line of its own.
pub open spec fn lines_text(ips: Seq<Ipv4Addr>) -> Seq<char>
    decreases ips.len(),
{
    if ips.len() == 0 {
        Seq::empty()
    } else {
        lines_text(ips.drop_last()) + (ips.last().text() + "\n"@)
    }
}

/// The first place that addresses are allocated at.
pub const FIRST_OFFSET: u32 = 2;

/// The place that ends the range of allocated addresses; it is not part of
/// the range.
pub const END_OFFSET: u32 = 65534;

// ---------------------------------------------------------------------------
// The allocator
// ---------------------------------------------------------------------------

/// The smallest place in `[lo, hi)` that is not taken, or `hi`.
pub open spec fn first_free(taken: Set<int>, lo: int, hi: int) -> int
    decreases hi - lo,
{
    if lo >= hi {
        hi
    } else if !taken.contains(lo) {
        lo
    } else {
        first_free(taken, lo + 1, hi)
    }
}

/// `first_free` is the smallest free place of its range.
pub proof fn lemma_first_free(taken: Set<int>, lo: int, hi: int)
    requires
        lo <= hi,
    ensures
        lo <= first_free(taken, lo, hi) <= hi,
        forall|o: int| lo <= o < first_free(taken, lo, hi) ==> taken.contains(o),
        first_free(taken, lo, hi) < hi ==> !taken.contains(first_free(taken, lo, hi)),
    decreases hi - lo,
{
    if lo < hi && taken.contains(lo) {
        lemma_first_free(taken, lo + 1, hi);
    }
}

/// What an allocation does: hand out a place, or find the pool exhausted.
pub enum Allocation {
    Granted(int),
    Exhausted,
}

/// What allocating does in a state. The pool is the places from 2 up to
/// 65533. Those from the cursor on are tried first, then those below the
/// cursor; where none of them is free, the pool is exhausted.
pub open spec fn allocation(taken: Set<int>, next: int) -> Allocation {
    let a = first_free(taken, next, 65534);
    if next <= a < 65534 {
        Allocation::Granted(a)
    } else {
        let hi = if next < 65534 {
            next
        } else {
            65534
        };
        let b = first_free(taken, 2, hi);
        if 2 <= b < hi {
            Allocation::Granted(b)
        } else {
            Allocation::Exhausted
        }
    }
}

/// The allocator of container addresses.
pub struct IpAllocator {
    taken: Vec<bool>,
    count: usize,
    next_ip: u32,
}

impl IpAllocator {
    /// The places that are taken.
    pub closed spec fn allocated(&self) -> Set<int> {
        Set::new(|o: int| 0 <= o < 65536 && self.taken@[o])
    }

    /// The place where the next search starts.
    pub closed spec fn cursor(&self) -> int {
        self.next_ip as int
    }

    /// Whether an address is allocated.
    pub open spec fn holds(&self, ip: Ipv4Addr) -> bool {
        ip.in_network() && self.allocated().contains(ip.offset())
    }

    /// The allocator's invariant, which `new` sets up and every operation
    /// keeps.
    pub closed spec fn wf(&self) -> bool {
        &&& self.taken@.len() == 65536
        &&& 2 <= self.next_ip <= 65536
        &&& self.allocated().finite()
        &&& self.allocated().len() == self.count
    }

    /// An allocator with nothing allocated, which starts at 10.11.0.2.
    pub fn new() -> (r: IpAllocator)
        ensures
            r.wf(),
            r.allocated() == Set::<int>::empty(),
            r.cursor() == 2,
    {
        let mut taken: Vec<bool> = Vec::new();
        let mut i: usize = 0;
        while i < 65536
            invariant
                i <= 65536,
                taken.len() == i,
                forall|j: int| 0 <= j < i ==> !(#[trigger] taken@[j]),
            decreases 65536 - i,
        {
            taken.push(false);
            i += 1;
        }
        assert(Set::new(|o: int| 0 <= o < 65536 && taken@[o]) =~= Set::<int>::empty());
        IpAllocator { taken, count: 0, next_ip: 2 }
    }

    /// The number of allocated addresses.
    pub fn allocated_count(&self) -> (r: usize)
        requires
            self.wf(),
        ensures
            r == self.allocated().len(),
            self.allocated().finite(),
    {
        self.count
    }

    /// Whether an address lies in 10.11.0.0/16.
    pub fn is_in_network(&self, ip: Ipv4Addr) -> (r: bool)
        ensures
            r == ip.in_network(),
    {
        ip.a == 10 && ip.b == 11
    }

    /// The address at a place of the subnet, for places from 2 to 65534.
    pub fn offset_to_ip(&self, offset: u32) -> (r: Result<Ipv4Addr, NetworkError>)
        ensures
            2 <= offset <= 65534 ==> r == Ok::<Ipv4Addr, NetworkError>(ip_at(offset as int)),
            !(2 <= offset <= 65534) ==> (r matches Err(NetworkError::IpAllocationFailed(m)) && m@
                == "Invalid IP offset: "@ + decimal(offset as nat)),
    {
        if offset > 65534 || offset < 2 {
            let n = string_of(&decimal_chars(offset as u64));
            return Err(NetworkError::IpAllocationFailed(concat2("Invalid IP offset: ", n.as_str())));
        }
        Ok(Ipv4Addr { a: 10, b: 11, c: (offset / 256) as u8, d: (offset % 256) as u8 })
    }

    /// Whether an address is allocated.
    pub fn is_allocated(&self, ip: Ipv4Addr) -> (r: bool)
        requires
            self.wf(),
        ensures
            r == self.holds(ip),
    {
        if ip.a == 10 && ip.b == 11 {
            let o: usize = ip.c as usize * 256 + ip.d as usize;
            self.taken[o]
        } else {
            false
        }
    }

    fn mark(&mut self, offset: usize)
        requires
            old(self).wf(),
            offset < 65536,
            !old(self).allocated().contains(offset as int),
        ensures
            final(self).wf(),
            final(self).allocated() == old(self).allocated().insert(offset as int),
            final(self).cursor() == old(self).cursor(),
    {
        let ghost before = self.allocated();
        self.taken.set(offset, true);
        proof {
            assert(self.allocated() =~= before.insert(offset as int));
            assert(self.count < 65536) by {
                vstd::set_lib::lemma_int_range(0, 65536);
                vstd::set_lib::lemma_len_subset(
                    before.insert(offset as int),
                    vstd::set_lib::set_int_range(0, 65536),
                );
            }
        }
        self.count = self.count + 1;
    }

    fn unmark(&mut self, offset: usize)
        requires
            old(self).wf(),
            offset < 65536,
            old(self).allocated().contains(offset as int),
        ensures
            final(self).wf(),
            final(self).allocated() == old(self).allocated().remove(offset as int),
            final(self).cursor() == old(self).cursor(),
    {
        let ghost before = self.allocated();
        self.taken.set(offset, false);
        assert(self.allocated() =~= before.remove(offset as int));
        self.count = self.count - 1;
    }

    fn set_cursor(&mut self, next: u32)
        requires
            old(self).wf(),
            2 <= next <= 65536,
        ensures
            final(self).wf(),
            final(self).allocated() == old(self).allocated(),
            final(self).cursor() == next,
    {
        self.next_ip = next;
    }

    /// The first free place in `[lo, hi)`, or `hi`.
    fn search(&self, lo: u32, hi: u32) -> (r: u32)
        requires
            self.wf(),
            lo <= hi <= 65536,
        ensures
            r == first_free(self.allocated(), lo as int, hi as int),
            lo <= r <= hi,
            r < hi ==> !self.allocated().contains(r as int),
    {
        let mut o: u32 = lo;
        while o < hi && self.taken[o as usize]
            invariant
                lo <= o <= hi <= 65536,
                self.wf(),
                self.taken@.len() == 65536,
                first_free(self.allocated(), o as int, hi as int) == first_free(
                    self.allocated(),
                    lo as int,
                    hi as int,
                ),
            decreases hi - o,
        {
            assert(self.allocated().contains(o as int));
            o += 1;
        }
        proof {
            if o < hi {
                assert(!self.allocated().contains(o as int));
            }
        }
        o
    }

    /// Allocates an address: the first free one from the cursor up to
    /// 10.11.255.253, or else the first free one from 10.11.0.2 up to the
    /// cursor. The address was free before and is taken afterwards; after an
    /// allocation from the cursor on, the cursor stands behind the address.
    pub fn allocate(&mut self) -> (r: Result<Ipv4Addr, NetworkError>)
        requires
            old(self).wf(),
        ensures
            final(self).wf(),
            match allocation(old(self).allocated(), old(self).cursor()) {
                Allocation::Granted(o) => {
                    &&& r == Ok::<Ipv4Addr, NetworkError>(ip_at(o))
                    &&& 2 <= o < 65534
                    &&& !old(self).allocated().contains(o)
                    &&& final(self).allocated() == old(self).allocated().insert(o)
                    &&& final(self).cursor() == if o >= old(self).cursor() {
                        o + 1
                    } else {
                        old(self).cursor()
                    }
                },
                Allocation::Exhausted => {
                    &&& r == Err::<Ipv4Addr, NetworkError>(NetworkError::IpExhausted)
                    &&& final(self).allocated() == old(self).allocated()
                    &&& final(self).cursor() == old(self).cursor()
                },
            },
    {
        let next = self.next_ip;
        if next < 65534 {
            let a = self.search(next, 65534);
            if a < 65534 {
                self.mark(a as usize);
                self.set_cursor(a + 1);
                return self.offset_to_ip(a);
            }
        }
        let hi: u32 = if next < 65534 {
            next
        } else {
            65534
        };
        let b = self.search(2, hi);
        if b < hi {
            self.mark(b as usize);
            return self.offset_to_ip(b);
        }
        Err(NetworkError::IpExhausted)
    }

    /// Allocates a given address. An address outside 10.11.0.0/16, or one
    /// that is allocated already, is refused.
    pub fn allocate_specific(&mut self, ip: Ipv4Addr) -> (r: Result<(), NetworkError>)
        requires
            old(self).wf(),
        ensures
            final(self).wf(),
            final(self).cursor() == old(self).cursor(),
            !ip.in_network() ==> {
                &&& r matches Err(NetworkError::IpAllocationFailed(m)) && m@ == "IP "@ + ip.text()
                    + " is not in the 10.11.0.0/16 network"@
                &&& final(self).allocated() == old(self).allocated()
            },
            old(self).holds(ip) ==> {
                &&& r matches Err(NetworkError::IpAllocationFailed(m)) && m@ == "IP "@ + ip.text()
                    + " is already allocated"@
                &&& final(self).allocated() == old(self).allocated()
            },
            ip.in_network() && !old(self).holds(ip) ==> {
                &&& r is Ok
                &&& final(self).allocated() == old(self).allocated().insert(ip.offset())
            },
    {
        if !self.is_in_network(ip) {
            return Err(
                NetworkError::IpAllocationFailed(
                    concat3("IP ", ip.to_string().as_str(), " is not in the 10.11.0.0/16 network"),
                ),
            );
        }
        if self.is_allocated(ip) {
            return Err(
                NetworkError::IpAllocationFailed(
                    concat3("IP ", ip.to_string().as_str(), " is already allocated"),
                ),
            );
        }
        let o: usize = ip.c as usize * 256 + ip.d as usize;
        self.mark(o);
        Ok(())
    }

    /// Gives an address back. An address that is not allocated is left as it
    /// is.
    pub fn release(&mut self, ip: Ipv4Addr) -> (r: Result<(), NetworkError>)
        requires
            old(self).wf(),
        ensures
            final(self).wf(),
            r is Ok,
            final(self).cursor() == old(self).cursor(),
            old(self).holds(ip) ==> final(self).allocated() == old(self).allocated().remove(
                ip.offset(),
            ),
            !old(self).holds(ip) ==> final(self).allocated() == old(self).allocated(),
    {
        if self.is_allocated(ip) {
            let o: usize = ip.c as usize * 256 + ip.d as usize;
            self.unmark(o);
        }
        Ok(())
    }

    /// After the state file was written, or not: an allocation whose state
    /// could not be saved is taken back, and the failure is reported.
    pub fn settle(&mut self, ip: Ipv4Addr, saved: Result<(), String>) -> (r: Result<
        Ipv4Addr,
        NetworkError,
    >)
        requires
            old(self).wf(),
        ensures
            final(self).wf(),
            final(self).cursor() == old(self).cursor(),
            match saved {
                Ok(()) => r == Ok::<Ipv4Addr, NetworkError>(ip)
                    && final(self).allocated() == old(self).allocated(),
                Err(e) => r == Err::<Ipv4Addr, NetworkError>(NetworkError::IoError(e))
                    && final(self).allocated() == if old(self).holds(ip) {
                    old(self).allocated().remove(ip.offset())
                } else {
                    old(self).allocated()
                },
            },
    {
        match saved {
            Ok(()) => Ok(ip),
            Err(e) => {
                let _ = self.release(ip);
                Err(NetworkError::IoError(e))
            },
        }
    }

    /// The allocated addresses, lowest first.
    pub fn allocated_ips(&self) -> (r: Vec<Ipv4Addr>)
        requires
            self.wf(),
        ensures
            r@ == listing(self.allocated(), 65536),
    {
        let mut out: Vec<Ipv4Addr> = Vec::new();
        let mut o: usize = 0;
        while o < 65536
            invariant
                o <= 65536,
                self.wf(),
                self.taken@.len() == 65536,
                out@ == listing(self.allocated(), o as int),
            decreases 65536 - o,
        {
            if self.taken[o] {
                let ip = Ipv4Addr { a: 10, b: 11, c: (o / 256) as u8, d: (o % 256) as u8 };
                out.push(ip);
            }
            o += 1;
        }
        out
    }

    /// The text of the state file: one allocated address per line, lowest
    /// first.
    pub fn state_text(&self) -> (r: String)
        requires
            self.wf(),
        ensures
            r@ == lines_text(listing(self.allocated(), 65536)),
    {
        let ips = self.allocated_ips();
        let mut out = String::new();
        let mut i: usize = 0;
        assert(ips@.take(0) =~= Seq::<Ipv4Addr>::empty());
        while i < ips.len()
            invariant
                i <= ips.len(),
                out@ == lines_text(ips@.take(i as int)),
            decreases ips.len() - i,
        {
            let line = concat2(ips[i].to_string().as_str(), "\n");
            out.append(line.as_str());
            proof {
                assert(ips@.take(i as int + 1).drop_last() =~= ips@.take(i as int));
                assert(ips@.take(i as int + 1).last() == ips@[i as int]);
            }
            i += 1;
        }
        assert(ips@.take(ips.len() as int) =~= ips@);
        out
    }

    /// Takes in the state file: each line that is an address of the subnet
    /// becomes allocated. The cursor is set behind the highest address among
    /// those lines, and to 2 if there is none.
    pub fn load_state(&mut self, content: &str)
        requires
            old(self).wf(),
        ensures
            final(self).wf(),
            forall|o: int|
                final(self).allocated().contains(o) <==> (old(self).allocated().contains(o)
                    || listed(lines(content@), lines(content@).len() as int, o)),
            final(self).cursor() == max_listed(lines(content@), lines(content@).len() as int) + 1,
    {
        let ls = split_lines(&chars_of(content));
        let ghost sl = lines(content@);
        let ghost init = self.allocated();
        let mut max_offset: u32 = 1;
        let mut i: usize = 0;
        while i < ls.len()
            invariant
                i <= ls.len(),
                views(ls@) == sl,
                sl == lines(content@),
                self.wf(),
                init == old(self).allocated(),
                1 <= max_offset <= 65535,
                max_offset == max_listed(sl, i as int),
                forall|o: int|
                    #![trigger self.allocated().contains(o)]
                    self.allocated().contains(o) <==> (init.contains(o) || listed(
                        sl,
                        i as int,
                        o,
                    )),
            decreases ls.len() - i,
        {
            assert(views(ls@)[i as int] == ls@[i as int]@);
            let text = string_of(&ls[i]);
            let ghost before = self.allocated();
            let ghost found = line_offset(sl[i as int]);
            match Ipv4Addr::parse(text.as_str()) {
                Some(ip) => {
                    if self.is_in_network(ip) {
                        let offset: u32 = ip.c as u32 * 256 + ip.d as u32;
                        if offset > max_offset {
                            max_offset = offset;
                        }
                        if !self.is_allocated(ip) {
                            self.mark(offset as usize);
                        }
                        assert(found == Some(offset as int));
                        assert(self.allocated() =~= before.insert(offset as int));
                    } else {
                        assert(found is None);
                    }
                },
                None => {
                    assert(found is None);
                },
            }
            proof {
                assert(self.allocated() == match found {
                    Some(x) => before.insert(x),
                    None => before,
                });
                assert forall|o: int|
                    #![trigger self.allocated().contains(o)]
                    self.allocated().contains(o) <==> (init.contains(o) || listed(sl, i + 1, o)) by {
                    assert(before.contains(o) <==> (init.contains(o) || listed(sl, i as int, o)));
                    assert(listed(sl, i + 1, o) <==> (listed(sl, i as int, o) || found == Some(o)));
                }
            }
            i += 1;
        }
        let ghost loaded = self.allocated();
        assert(sl.len() == ls@.len());
        assert(forall|o: int|
            loaded.contains(o) <==> (init.contains(o) || listed(sl, i as int, o)));
        self.set_cursor(max_offset + 1);
        assert forall|o: int|
            self.allocated().contains(o) <==> (init.contains(o) || listed(
                lines(content@),
                lines(content@).len() as int,
                o,
            )) by {
            assert(self.allocated().contains(o) == loaded.contains(o));
            assert(listed(sl, i as int, o) == listed(
                lines(content@),
                lines(content@).len() as int,
                o,
            ));
            assert(loaded.contains(o) <==> (init.contains(o) || listed(
                sl,
                i as int,
                o,
            )));
        }
    }
}

/// The place that a line of the state file names, if it is an address of the
/// subnet.
pub open spec fn line_offset(line: Seq<char>) -> Option<int> {
    match ipv4_of(line) {
        Some(ip) => if ip.in_network() {
            Some(ip.offset())
        } else {
            None
        },
        None => None,
    }
}

/// Whether one of the first `n` lines names the place `o`.
pub open spec fn listed(ls: Seq<Seq<char>>, n: int, o: int) -> bool
    decreases n,
{
    if n <= 0 {
        false
    } else {
        listed(ls, n - 1, o) || line_offset(ls[n - 1]) == Some(o)
    }
}

/// The highest place that the first `n` lines name, and 1 if they name none.
pub open spec fn max_listed(ls: Seq<Seq<char>>, n: int) -> int
    decreases n,
{
    if n <= 0 {
        1
    } else {
        let m = max_listed(ls, n - 1);
        match line_offset(ls[n - 1]) {
            Some(o) => if o > m {
                o
            } else {
                m
            },
            None => m,
        }
    }
}

impl Default for IpAllocator {
    fn default() -> (r: IpAllocator)
        ensures
            r.wf(),
            r.allocated() == Set::<int>::empty(),
            r.cursor() == 2,
    {
        IpAllocator::new()
    }
}

/// Every address that allocation hands out lies in the subnet 10.11.0.0/16,
/// between 10.11.0.2 and 10.11.255.253, and was not allocated before: as
/// long as it is not released, no second allocation hands it out.
pub proof fn lemma_allocation_is_fresh(taken: Set<int>, next: int)
    requires
        2 <= next,
    ensures
        allocation(taken, next) matches Allocation::Granted(o) ==> {
            &&& 2 <= o < 65534
            &&& !taken.contains(o)
            &&& ip_at(o).in_network()
            &&& ip_at(o).offset() == o
        },
{
    let hi = if next < 65534 {
        next
    } else {
        65534
    };
    lemma_first_free(taken, 2, hi);
    if next <= 65534 {
        lemma_first_free(taken, next, 65534);
    }
}

/// The pool is exhausted when every place from 2 up to 65533 is taken, and
/// only then, wherever the cursor stands.
pub proof fn lemma_exhausted_is_full(taken: Set<int>, next: int)
    requires
        2 <= next,
    ensures
        allocation(taken, next) is Exhausted <==> (forall|o: int|
            2 <= o < 65534 ==> taken.contains(o)),
{
    let hi = if next < 65534 {
        next
    } else {
        65534
    };
    lemma_first_free(taken, 2, hi);
    if next <= 65534 {
        lemma_first_free(taken, next, 65534);
    }
    if allocation(taken, next) is Exhausted {
        assert forall|o: int| 2 <= o < 65534 implies taken.contains(o) by {
            if o < hi {
            } else {
            }
        }
    }
}

} // verus!

verus! {

// ---------------------------------------------------------------------------
// The default route
// ---------------------------------------------------------------------------

/// Whether a line of the routing table describes the default route.
pub open spec fn is_default_route(line: Seq<char>) -> bool {
    has_prefix(line, "default"@) || has_prefix(line, "0.0.0.0"@)
}

/// The interface of the default route among the lines from `i` on: the
/// fourth column of the first default-route line that has four columns.
pub open spec fn default_interface_in(ls: Seq<Seq<char>>, i: int) -> Option<Seq<char>>
    decreases ls.len() - i,
{
    if i < 0 || i >= ls.len() {
        None
    } else if is_default_route(ls[i]) && words(ls[i]).len() >= 4 {
        Some(words(ls[i])[3])
    } else {
        default_interface_in(ls, i + 1)
    }
}

/// Finds the interface of the default route in the output of
/// `netstat -nr -f inet`.
pub fn parse_default_interface(netstat_output: &str) -> (r: Option<String>)
    ensures
        match default_interface_in(lines(netstat_output@), 0) {
            Some(i) => r matches Some(s) && s@ == i,
            None => r is None,
        },
{
    let ls = split_lines(&chars_of(netstat_output));
    let d = chars_of("default");
    let z = chars_of("0.0.0.0");
    let mut i: usize = 0;
    while i < ls.len()
        invariant
            i <= ls.len(),
            views(ls@) == lines(netstat_output@),
            d@ == "default"@,
            z@ == "0.0.0.0"@,
            default_interface_in(lines(netstat_output@), i as int) == default_interface_in(
                lines(netstat_output@),
                0,
            ),
        decreases ls.len() - i,
    {
        assert(views(ls@)[i as int] == ls@[i as int]@);
        if starts_with(&ls[i], &d) || starts_with(&ls[i], &z) {
            let w = split_words(&ls[i]);
            if w.len() >= 4 {
                assert(views(w@)[3] == w@[3]@);
                return Some(string_of(&w[3]));
            }
        }
        i += 1;
    }
    None
}

// ---------------------------------------------------------------------------
// Rules of the packet filter
// ---------------------------------------------------------------------------

/// The NAT rule for containers that leave through `interface`.
pub open spec fn nat_rule_text(interface: Seq<char>) -> Seq<char> {
    "nat on "@ + interface + " from 10.11.0.0/16 to any -> ("@ + interface + ")\n"@
}

/// The rule that leads a host port to a container port.
pub open spec fn rdr_rule_text(
    protocol: Seq<char>,
    host_port: u16,
    container_ip: Seq<char>,
    container_port: u16,
) -> Seq<char> {
    "rdr pass on bridge0 inet proto "@ + protocol + " from any to any port "@ + decimal(
        host_port as nat,
    ) + " -> "@ + container_ip + " port "@ + decimal(container_port as nat) + "\n"@
}

/// The network of one container.
#[derive(Debug, PartialEq, Eq)]
pub struct ContainerNetwork {
    pub ip: String,
    pub bridge: String,
    /// The end of the epair that stays on the host.
    pub epair_host: String,
    /// The end of the epair that goes into the jail.
    pub epair_jail: String,
    pub gateway: String,
}

/// The name of an epair's jail end: the host end's name with its last
/// character replaced by `b`.
pub open spec fn jail_end(host_end: Seq<char>) -> Seq<char> {
    if host_end.len() == 0 {
        seq!['b']
    } else {
        host_end.drop_last().push('b')
    }
}

/// What to do after an attempt to move an interface into a jail.
#[derive(Debug, PartialEq, Eq)]
pub enum MoveStep {
    /// The interface is in the jail.
    Done,
    /// Wait `wait_ms`, then try again; after the next failure wait
    /// `next_delay_ms`.
    Retry { wait_ms: u64, next_delay_ms: u64 },
    /// Give up.
    Failed(NetworkError),
}

/// How long to wait before the first attempt, and after the first failure.
pub const FIRST_DELAY_MS: u64 = 500;

/// The longest wait between attempts.
pub const MAX_DELAY_MS: u64 = 5000;

/// How often moving an interface is tried.
pub const MAX_ATTEMPTS: u32 = 10;

/// The wait that follows a wait of `delay_ms`: twice as long, at most five
/// seconds.
pub open spec fn next_delay(delay_ms: int) -> int {
    if delay_ms * 2 < 5000 {
        delay_ms * 2
    } else {
        5000
    }
}

/// The manager of the container network.
pub struct NetworkManager {
    ip_allocator: IpAllocator,
}

fn stderr_message(prefix: &str, output: &CommandOutput) -> (r: String)
    ensures
        r@ == prefix@ + output.stderr@,
{
    concat2(prefix, output.stderr.as_str())
}

impl NetworkManager {
    /// The allocator's taken places.
    pub closed spec fn allocated(&self) -> Set<int> {
        self.ip_allocator.allocated()
    }

    /// The allocator's cursor.
    pub closed spec fn cursor(&self) -> int {
        self.ip_allocator.cursor()
    }

    /// The manager's invariant: that of its allocator.
    pub closed spec fn wf(&self) -> bool {
        self.ip_allocator.wf()
    }

    /// A manager with nothing allocated.
    pub fn new() -> (r: NetworkManager)
        ensures
            r.wf(),
            r.allocated() == Set::<int>::empty(),
            r.cursor() == 2,
    {
        NetworkManager { ip_allocator: IpAllocator::new() }
    }

    /// A manager around an allocator.
    pub fn with_allocator(ip_allocator: IpAllocator) -> (r: NetworkManager)
        requires
            ip_allocator.wf(),
        ensures
            r.wf(),
            r.allocated() == ip_allocator.allocated(),
            r.cursor() == ip_allocator.cursor(),
    {
        NetworkManager { ip_allocator }
    }

    /// Whether the network may be set up on this host: only root can, and
    /// only on FreeBSD. Setting up means: create the bridge unless it is
    /// there, load the NAT rule, switch forwarding on.
    pub fn initialize(&self, host: &Host) -> (r: Result<(), NetworkError>)
        ensures
            !host.is_root ==> (r matches Err(NetworkError::BridgeCreationFailed(m)) && m@
                == "Network initialization requires root privileges"@),
            host.is_root && !host.is_freebsd ==> (r matches Err(
                NetworkError::BridgeCreationFailed(m),
            ) && m@ == "Networking is only supported on FreeBSD"@),
            host.is_root && host.is_freebsd ==> r is Ok,
    {
        if !host.is_root {
            return Err(
                NetworkError::BridgeCreationFailed(
                    "Network initialization requires root privileges".to_owned(),
                ),
            );
        }
        if !host.is_freebsd {
            return Err(
                NetworkError::BridgeCreationFailed(
                    "Networking is only supported on FreeBSD".to_owned(),
                ),
            );
        }
        Ok(())
    }

    /// The command whose success says that the bridge exists.
    pub fn bridge_exists(&self) -> (c: HostCommand)
        ensures
            c.line() == seq!["ifconfig"@, "bridge0"@],
            c.input() is None,
    {
        let mut a = no_args();
        push_arg(&mut a, "bridge0");
        let c = HostCommand::new("ifconfig", a);
        assert(c.line() =~= seq!["ifconfig"@, "bridge0"@]);
        c
    }

    /// The two commands that create the bridge and give it its address.
    pub fn create_bridge(&self) -> (c: (HostCommand, HostCommand))
        ensures
            c.0.line() == seq!["ifconfig"@, "bridge0"@, "create"@],
            c.1.line() == seq!["ifconfig"@, "bridge0"@, "inet"@, "10.11.0.1/16"@, "up"@],
            c.0.input() is None,
            c.1.input() is None,
    {
        let mut a = no_args();
        push_arg(&mut a, "bridge0");
        push_arg(&mut a, "create");
        let first = HostCommand::new("ifconfig", a);
        assert(first.line() =~= seq!["ifconfig"@, "bridge0"@, "create"@]);
        let mut b = no_args();
        push_arg(&mut b, "bridge0");
        push_arg(&mut b, "inet");
        push_arg(&mut b, "10.11.0.1/16");
        push_arg(&mut b, "up");
        let second = HostCommand::new("ifconfig", b);
        assert(second.line() =~= seq!["ifconfig"@, "bridge0"@, "inet"@, "10.11.0.1/16"@, "up"@]);
        (first, second)
    }

    /// Reads how creating the bridge went: `created` and `configured` are
    /// the outcomes of the two commands of `create_bridge`, the second one
    /// absent if the first failed.
    pub fn bridge_created(&self, created: &CommandOutput, configured: Option<&CommandOutput>) -> (r:
        Result<(), NetworkError>)
        ensures
            !created.success ==> (r matches Err(NetworkError::BridgeCreationFailed(m)) && m@
                == "Failed to create bridge: "@ + created.stderr@),
            created.success ==> match configured {
                Some(o) => if o.success {
                    r is Ok
                } else {
                    r matches Err(NetworkError::BridgeCreationFailed(m)) && m@
                        == "Failed to configure bridge IP: "@ + o.stderr@
                },
                None => r is Ok,
            },
    {
        if !created.success {
            return Err(
                NetworkError::BridgeCreationFailed(
                    stderr_message("Failed to create bridge: ", created),
                ),
            );
        }
        match configured {
            Some(o) => {
                if !o.success {
                    return Err(
                        NetworkError::BridgeCreationFailed(
                            stderr_message("Failed to configure bridge IP: ", o),
                        ),
                    );
                }
                Ok(())
            },
            None => Ok(()),
        }
    }

    /// The command that switches IP forwarding on. Its failure is a warning.
    pub fn enable_ip_forwarding(&self) -> (c: HostCommand)
        ensures
            c.line() == seq!["sysctl"@, "net.inet.ip.forwarding=1"@],
            c.input() is None,
    {
        let mut a = no_args();
        push_arg(&mut a, "net.inet.ip.forwarding=1");
        let c = HostCommand::new("sysctl", a);
        assert(c.line() =~= seq!["sysctl"@, "net.inet.ip.forwarding=1"@]);
        c
    }

    /// The command that switches the packet filter on. Its failure is
    /// ignored: the filter may be on already.
    pub fn enable_pf(&self) -> (c: HostCommand)
        ensures
            c.line() == seq!["pfctl"@, "-e"@],
            c.input() is None,
    {
        let mut a = no_args();
        push_arg(&mut a, "-e");
        let c = HostCommand::new("pfctl", a);
        assert(c.line() =~= seq!["pfctl"@, "-e"@]);
        c
    }

    /// The command that prints the routing table.
    pub fn routing_table(&self) -> (c: HostCommand)
        ensures
            c.line() == seq!["netstat"@, "-nr"@, "-f"@, "inet"@],
            c.input() is None,
    {
        let mut a = no_args();
        push_arg(&mut a, "-nr");
        push_arg(&mut a, "-f");
        push_arg(&mut a, "inet");
        let c = HostCommand::new("netstat", a);
        assert(c.line() =~= seq!["netstat"@, "-nr"@, "-f"@, "inet"@]);
        c
    }

    /// The interface of the default route, read from what `routing_table`
    /// printed; nothing if the command failed or names no default route.
    pub fn get_default_interface(&self, output: &CommandOutput) -> (r: Result<
        Option<String>,
        NetworkError,
    >)
        ensures
            !output.success ==> (r matches Ok(None)),
            output.success ==> match default_interface_in(lines(output.stdout@), 0) {
                Some(i) => r matches Ok(Some(s)) && s@ == i,
                None => r matches Ok(None),
            },
    {
        if !output.success {
            return Ok(None);
        }
        Ok(parse_default_interface(output.stdout.as_str()))
    }

    /// The commands that set NAT up for containers leaving through
    /// `interface`: flush the anchor, whose failure is ignored, then load
    /// the NAT rule, which is fed to the second command.
    pub fn setup_nat(&self, interface: &str) -> (c: (HostCommand, HostCommand))
        ensures
            c.0.line() == seq!["pfctl"@, "-a"@, "kawakaze"@, "-F"@, "all"@],
            c.0.input() is None,
            c.1.line() == seq!["pfctl"@, "-a"@, "kawakaze"@, "-f"@, "-"@],
            c.1.input() == Some(nat_rule_text(interface@)),
    {
        let mut a = no_args();
        push_arg(&mut a, "-a");
        push_arg(&mut a, "kawakaze");
        push_arg(&mut a, "-F");
        push_arg(&mut a, "all");
        let flush = HostCommand::new("pfctl", a);
        assert(flush.line() =~= seq!["pfctl"@, "-a"@, "kawakaze"@, "-F"@, "all"@]);
        let mut b = no_args();
        push_arg(&mut b, "-a");
        push_arg(&mut b, "kawakaze");
        push_arg(&mut b, "-f");
        push_arg(&mut b, "-");
        let mut rule = concat3("nat on ", interface, " from 10.11.0.0/16 to any -> (");
        rule.append(interface);
        rule.append(")\n");
        let load = HostCommand::with_input("pfctl", b, rule);
        assert(load.line() =~= seq!["pfctl"@, "-a"@, "kawakaze"@, "-f"@, "-"@]);
        (flush, load)
    }

    /// Reads how loading the NAT rule went.
    pub fn nat_loaded(&self, output: &CommandOutput) -> (r: Result<(), NetworkError>)
        ensures
            output.success ==> r is Ok,
            !output.success ==> (r matches Err(NetworkError::PfError(m)) && m@
                == "Failed to load NAT rules: "@ + output.stderr@),
    {
        if output.success {
            Ok(())
        } else {
            Err(NetworkError::PfError(stderr_message("Failed to load NAT rules: ", output)))
        }
    }

    /// Allocates an address for a container.
    pub fn allocate_ip(&mut self) -> (r: Result<Ipv4Addr, NetworkError>)
        requires
            old(self).wf(),
        ensures
            final(self).wf(),
            match allocation(old(self).allocated(), old(self).cursor()) {
                Allocation::Granted(o) => {
                    &&& r == Ok::<Ipv4Addr, NetworkError>(ip_at(o))
                    &&& 2 <= o < 65534
                    &&& !old(self).allocated().contains(o)
                    &&& final(self).allocated() == old(self).allocated().insert(o)
                    &&& final(self).cursor() == if o >= old(self).cursor() {
                        o + 1
                    } else {
                        old(self).cursor()
                    }
                },
                Allocation::Exhausted => {
                    &&& r == Err::<Ipv4Addr, NetworkError>(NetworkError::IpExhausted)
                    &&& final(self).allocated() == old(self).allocated()
                    &&& final(self).cursor() == old(self).cursor()
                },
            },
    {
        self.ip_allocator.allocate()
    }

    /// The command that creates an epair. It prints the name of the host
    /// end.
    pub fn create_epair(&self) -> (c: HostCommand)
        ensures
            c.line() == seq!["ifconfig"@, "epair"@, "create"@],
            c.input() is None,
    {
        let mut a = no_args();
        push_arg(&mut a, "epair");
        push_arg(&mut a, "create");
        let c = HostCommand::new("ifconfig", a);
        assert(c.line() =~= seq!["ifconfig"@, "epair"@, "create"@]);
        c
    }

    /// Reads the name of the new epair's host end.
    pub fn epair_created(&self, output: &CommandOutput) -> (r: Result<String, NetworkError>)
        ensures
            output.success ==> (r matches Ok(n) && n@ == trimmed(output.stdout@)),
            !output.success ==> (r matches Err(NetworkError::EpairCreationFailed(m)) && m@
                == "Failed to create epair: "@ + output.stderr@),
    {
        if output.success {
            Ok(string_of(&trim(&chars_of(output.stdout.as_str()))))
        } else {
            Err(
                NetworkError::EpairCreationFailed(
                    stderr_message("Failed to create epair: ", output),
                ),
            )
        }
    }

    /// The two commands that attach an interface to the bridge and bring it
    /// up. The failure of the second is a warning.
    pub fn attach_to_bridge(&self, interface: &str) -> (c: (HostCommand, HostCommand))
        ensures
            c.0.line() == seq!["ifconfig"@, "bridge0"@, "addm"@, interface@, "up"@],
            c.1.line() == seq!["ifconfig"@, interface@, "up"@],
            c.0.input() is None,
            c.1.input() is None,
    {
        let mut a = no_args();
        push_arg(&mut a, "bridge0");
        push_arg(&mut a, "addm");
        push_arg(&mut a, interface);
        push_arg(&mut a, "up");
        let first = HostCommand::new("ifconfig", a);
        assert(first.line() =~= seq!["ifconfig"@, "bridge0"@, "addm"@, interface@, "up"@]);
        let mut b = no_args();
        push_arg(&mut b, interface);
        push_arg(&mut b, "up");
        let second = HostCommand::new("ifconfig", b);
        assert(second.line() =~= seq!["ifconfig"@, interface@, "up"@]);
        (first, second)
    }

    /// Reads how attaching an interface to the bridge went.
    pub fn attached(&self, interface: &str, output: &CommandOutput) -> (r: Result<(), NetworkError>)
        ensures
            output.success ==> r is Ok,
            !output.success ==> (r matches Err(NetworkError::EpairAttachmentFailed(m)) && m@
                == "Failed to attach "@ + interface@ + " to bridge: "@ + output.stderr@),
    {
        if output.success {
            Ok(())
        } else {
            let mut m = concat3("Failed to attach ", interface, " to bridge: ");
            m.append(output.stderr.as_str());
            Err(NetworkError::EpairAttachmentFailed(m))
        }
    }

    /// The network of a container with address `ip` whose epair's host end
    /// is `epair_host`.
    pub fn allocate_network(&self, ip: Ipv4Addr, epair_host: String) -> (r: ContainerNetwork)
        ensures
            r.ip@ == ip.text(),
            r.bridge@ == "bridge0"@,
            r.epair_host@ == epair_host@,
            r.epair_jail@ == jail_end(epair_host@),
            r.gateway@ == "10.11.0.1"@,
    {
        let h = chars_of(epair_host.as_str());
        let mut j: Vec<char> = if h.len() == 0 {
            Vec::new()
        } else {
            slice(&h, 0, h.len() - 1)
        };
        j.push('b');
        proof {
            if h.len() > 0 {
                assert(j@ =~= epair_host@.drop_last().push('b'));
            } else {
                assert(j@ =~= seq!['b']);
            }
        }
        ContainerNetwork {
            ip: ip.to_string(),
            bridge: "bridge0".to_owned(),
            epair_host,
            epair_jail: string_of(&j),
            gateway: "10.11.0.1".to_owned(),
        }
    }

    /// The command that moves an interface into a running jail.
    pub fn move_epair_to_vnet_jail(&self, epair: &str, jail_name: &str) -> (c: HostCommand)
        ensures
            c.line() == seq!["ifconfig"@, epair@, "-vnet"@, jail_name@],
            c.input() is None,
    {
        let mut a = no_args();
        push_arg(&mut a, epair);
        push_arg(&mut a, "-vnet");
        push_arg(&mut a, jail_name);
        let c = HostCommand::new("ifconfig", a);
        assert(c.line() =~= seq!["ifconfig"@, epair@, "-vnet"@, jail_name@]);
        c
    }

    /// Decides what follows attempt number `attempt` (counted from one) at
    /// moving an interface into a jail. A failure that says "Device not
    /// configured" is tried again, up to ten attempts in all, after a wait
    /// that doubles each time and never exceeds five seconds.
    pub fn after_move_attempt(
        &self,
        epair: &str,
        jail_name: &str,
        attempt: u32,
        delay_ms: u64,
        output: &CommandOutput,
    ) -> (r: MoveStep)
        requires
            delay_ms <= 5000,
        ensures
            output.success ==> r == MoveStep::Done,
            !output.success && has_infix(output.stderr@, "Device not configured"@) && attempt < 10
                ==> r == (MoveStep::Retry {
                wait_ms: delay_ms,
                next_delay_ms: next_delay(delay_ms as int) as u64,
            }),
            !output.success && !(has_infix(output.stderr@, "Device not configured"@) && attempt
                < 10) ==> (r matches MoveStep::Failed(NetworkError::EpairAttachmentFailed(m)) && m@
                == "Failed to move "@ + epair@ + " to jail "@ + jail_name@ + " after "@ + decimal(
                attempt as nat,
            ) + " attempt(s): "@ + output.stderr@),
    {
        if output.success {
            return MoveStep::Done;
        }
        let timing = contains(
            &chars_of(output.stderr.as_str()),
            &chars_of("Device not configured"),
        );
        if timing && attempt < MAX_ATTEMPTS {
            let doubled = delay_ms * 2;
            let next: u64 = if doubled < MAX_DELAY_MS {
                doubled
            } else {
                MAX_DELAY_MS
            };
            return MoveStep::Retry { wait_ms: delay_ms, next_delay_ms: next };
        }
        let mut m = concat3("Failed to move ", epair, " to jail ");
        m.append(jail_name);
        m.append(" after ");
        m.append(string_of(&decimal_chars(attempt as u64)).as_str());
        m.append(" attempt(s): ");
        m.append(output.stderr.as_str());
        MoveStep::Failed(NetworkError::EpairAttachmentFailed(m))
    }

    /// The two commands that configure the network inside a jail: give the
    /// jail's interface its address, then set the default route, whose
    /// failure is a warning.
    pub fn configure_jail_network(&self, jail_name: &str, network: &ContainerNetwork) -> (c: (
        HostCommand,
        HostCommand,
    ))
        ensures
            c.0.line() == seq![
                "jexec"@,
                jail_name@,
                "ifconfig"@,
                network.epair_jail@,
                "inet"@,
                network.ip@ + "/16"@,
                "up"@,
            ],
            c.1.line() == seq![
                "jexec"@,
                jail_name@,
                "route"@,
                "add"@,
                "default"@,
                network.gateway@,
            ],
            c.0.input() is None,
            c.1.input() is None,
    {
        let mut a = no_args();
        push_arg(&mut a, jail_name);
        push_arg(&mut a, "ifconfig");
        push_arg(&mut a, network.epair_jail.as_str());
        push_arg(&mut a, "inet");
        push_arg(&mut a, concat2(network.ip.as_str(), "/16").as_str());
        push_arg(&mut a, "up");
        let first = HostCommand::new("jexec", a);
        assert(first.line() =~= seq![
            "jexec"@,
            jail_name@,
            "ifconfig"@,
            network.epair_jail@,
            "inet"@,
            network.ip@ + "/16"@,
            "up"@,
        ]);
        let mut b = no_args();
        push_arg(&mut b, jail_name);
        push_arg(&mut b, "route");
        push_arg(&mut b, "add");
        push_arg(&mut b, "default");
        push_arg(&mut b, network.gateway.as_str());
        let second = HostCommand::new("jexec", b);
        assert(second.line() =~= seq![
            "jexec"@,
            jail_name@,
            "route"@,
            "add"@,
            "default"@,
            network.gateway@,
        ]);
        (first, second)
    }

    /// Reads how giving the jail's interface its address went.
    pub fn jail_network_configured(&self, jail_name: &str, output: &CommandOutput) -> (r: Result<
        (),
        NetworkError,
    >)
        ensures
            output.success ==> r is Ok,
            !output.success ==> (r matches Err(NetworkError::EpairAttachmentFailed(m)) && m@
                == "Failed to configure IP in jail "@ + jail_name@ + ": "@ + output.stderr@),
    {
        if output.success {
            Ok(())
        } else {
            let mut m = concat3("Failed to configure IP in jail ", jail_name, ": ");
            m.append(output.stderr.as_str());
            Err(NetworkError::EpairAttachmentFailed(m))
        }
    }

    /// Gives up the network of a container: its address is released if it
    /// is one, and the result says how to take the host end off the bridge
    /// and destroy it. The failure of these commands is ignored; the jail
    /// end goes away with the jail.
    pub fn release_network(&mut self, network: &ContainerNetwork) -> (c: (HostCommand, HostCommand))
        requires
            old(self).wf(),
        ensures
            final(self).wf(),
            c.0.line() == seq!["ifconfig"@, "bridge0"@, "remm"@, network.epair_host@],
            c.1.line() == seq!["ifconfig"@, network.epair_host@, "destroy"@],
            final(self).cursor() == old(self).cursor(),
            match ipv4_of(network.ip@) {
                Some(ip) => final(self).allocated() == if ip.in_network() {
                    old(self).allocated().remove(ip.offset())
                } else {
                    old(self).allocated()
                },
                None => final(self).allocated() == old(self).allocated(),
            },
    {
        match Ipv4Addr::parse(network.ip.as_str()) {
            Some(ip) => {
                let ghost before = self.ip_allocator.allocated();
                let _ = self.ip_allocator.release(ip);
                proof {
                    if ip.in_network() && !before.contains(ip.offset()) {
                        assert(before.remove(ip.offset()) =~= before);
                    }
                }
            },
            None => {},
        }
        let mut a = no_args();
        push_arg(&mut a, "bridge0");
        push_arg(&mut a, "remm");
        push_arg(&mut a, network.epair_host.as_str());
        let first = HostCommand::new("ifconfig", a);
        assert(first.line() =~= seq!["ifconfig"@, "bridge0"@, "remm"@, network.epair_host@]);
        let mut b = no_args();
        push_arg(&mut b, network.epair_host.as_str());
        push_arg(&mut b, "destroy");
        let second = HostCommand::new("ifconfig", b);
        assert(second.line() =~= seq!["ifconfig"@, network.epair_host@, "destroy"@]);
        (first, second)
    }

    /// The command that leads a host port to a container port: the redirect
    /// rule is fed to `pfctl`, which loads it into the forwarding anchor.
    pub fn setup_port_forwarding(
        &self,
        container_ip: &str,
        host_port: u16,
        container_port: u16,
        protocol: &str,
    ) -> (c: HostCommand)
        ensures
            c.line() == seq!["pfctl"@, "-a"@, "kawakaze_forwarding"@, "-f"@, "-"@],
            c.input() == Some(rdr_rule_text(protocol@, host_port, container_ip@, container_port)),
    {
        let mut rule = concat3("rdr pass on bridge0 inet proto ", protocol, " from any to any port ");
        rule.append(string_of(&decimal_chars(host_port as u64)).as_str());
        rule.append(" -> ");
        rule.append(container_ip);
        rule.append(" port ");
        rule.append(string_of(&decimal_chars(container_port as u64)).as_str());
        rule.append("\n");
        let mut a = no_args();
        push_arg(&mut a, "-a");
        push_arg(&mut a, "kawakaze_forwarding");
        push_arg(&mut a, "-f");
        push_arg(&mut a, "-");
        let c = HostCommand::with_input("pfctl", a, rule);
        assert(c.line() =~= seq!["pfctl"@, "-a"@, "kawakaze_forwarding"@, "-f"@, "-"@]);
        c
    }

    /// Reads how loading a redirect rule went.
    pub fn port_forwarding_loaded(&self, output: &CommandOutput) -> (r: Result<(), NetworkError>)
        ensures
            output.success ==> r is Ok,
            !output.success ==> (r matches Err(NetworkError::PfError(m)) && m@
                == "Failed to load port forwarding rule: "@ + output.stderr@),
    {
        if output.success {
            Ok(())
        } else {
            Err(
                NetworkError::PfError(
                    stderr_message("Failed to load port forwarding rule: ", output),
                ),
            )
        }
    }

    /// The command that removes every redirect rule. Its failure is ignored.
    pub fn remove_port_forwarding(&self, container_ip: &str) -> (c: HostCommand)
        ensures
            c.line() == seq!["pfctl"@, "-a"@, "kawakaze_forwarding"@, "-F"@, "all"@],
            c.input() is None,
    {
        let mut a = no_args();
        push_arg(&mut a, "-a");
        push_arg(&mut a, "kawakaze_forwarding");
        push_arg(&mut a, "-F");
        push_arg(&mut a, "all");
        let c = HostCommand::new("pfctl", a);
        assert(c.line() =~= seq!["pfctl"@, "-a"@, "kawakaze_forwarding"@, "-F"@, "all"@]);
        c
    }
}

impl Default for NetworkManager {
    fn default() -> (r: NetworkManager)
        ensures
            r.wf(),
            r.allocated() == Set::<int>::empty(),
    {
        NetworkManager::new()
    }
}

// ---------------------------------------------------------------------------
// The order of the work
// ---------------------------------------------------------------------------

/// Where the setup of the network stands: the command that was run last.
#[derive(Debug, PartialEq, Eq)]
pub enum SetupStage {
    /// Looking whether the bridge is there.
    BridgeLookup,
    /// Creating the bridge.
    BridgeCreation,
    /// Giving the bridge its address.
    BridgeAddress,
    /// Switching forwarding on.
    Forwarding,
    /// Switching pf on.
    PfEnable,
    /// Reading the routing table.
    Routes,
    /// Flushing the NAT anchor, for NAT on this interface.
    NatFlush { interface: String },
    /// Loading the NAT rule.
    NatLoad,
}

/// What the setup of the network asks of the host next.
#[derive(Debug, PartialEq, Eq)]
pub enum SetupStep {
    /// Run the command and report how it went.
    Run { stage: SetupStage, command: HostCommand },
    /// The setup is over.
    Done { outcome: Result<(), NetworkError> },
}

/// Whether a run of a program ended well.
pub open spec fn went_well(run: Result<CommandOutput, String>) -> bool {
    run matches Ok(o) && o.success
}

/// Whether the step is to run this command line, without input.
pub open spec fn runs(step: SetupStep, line: Seq<Seq<char>>) -> bool {
    step matches SetupStep::Run { stage, command } && command.line() == line && command.input()
        is None
}

/// What follows a step of the setup. The bridge is created and given its
/// address unless it is there; forwarding and pf are switched on, whether
/// or not that works; the NAT rule is loaded for the interface of the
/// default route, after the anchor was flushed; without a default route
/// the setup ends without NAT. A command that cannot be run ends the
/// setup, but for switching pf on and flushing the anchor.
pub open spec fn setup_follows(
    stage: SetupStage,
    run: Result<CommandOutput, String>,
    step: SetupStep,
) -> bool {
    let forwarding = seq!["sysctl"@, "net.inet.ip.forwarding=1"@];
    match stage {
        SetupStage::BridgeLookup => match run {
            Err(e) => step matches SetupStep::Done { outcome: Err(NetworkError::IoError(m)) } && m@
                == e@,
            Ok(o) => if o.success {
                step matches SetupStep::Run { stage: s, command } && s is Forwarding && runs(
                    step,
                    forwarding,
                )
            } else {
                step matches SetupStep::Run { stage: s, command } && s is BridgeCreation && runs(
                    step,
                    seq!["ifconfig"@, "bridge0"@, "create"@],
                )
            },
        },
        SetupStage::BridgeCreation => match run {
            Err(e) => step matches SetupStep::Done { outcome: Err(NetworkError::IoError(m)) } && m@
                == e@,
            Ok(o) => if o.success {
                step matches SetupStep::Run { stage: s, command } && s is BridgeAddress && runs(
                    step,
                    seq!["ifconfig"@, "bridge0"@, "inet"@, "10.11.0.1/16"@, "up"@],
                )
            } else {
                step matches SetupStep::Done {
                    outcome: Err(NetworkError::BridgeCreationFailed(m)),
                } && m@ == "Failed to create bridge: "@ + o.stderr@
            },
        },
        SetupStage::BridgeAddress => match run {
            Err(e) => step matches SetupStep::Done { outcome: Err(NetworkError::IoError(m)) } && m@
                == e@,
            Ok(o) => if o.success {
                step matches SetupStep::Run { stage: s, command } && s is Forwarding && runs(
                    step,
                    forwarding,
                )
            } else {
                step matches SetupStep::Done {
                    outcome: Err(NetworkError::BridgeCreationFailed(m)),
                } && m@ == "Failed to configure bridge IP: "@ + o.stderr@
            },
        },
        SetupStage::Forwarding => match run {
            Err(e) => step matches SetupStep::Done { outcome: Err(NetworkError::IoError(m)) } && m@
                == e@,
            Ok(_) => step matches SetupStep::Run { stage: s, command } && s is PfEnable && runs(
                step,
                seq!["pfctl"@, "-e"@],
            ),
        },
        SetupStage::PfEnable => step matches SetupStep::Run { stage: s, command } && s is Routes
            && runs(step, seq!["netstat"@, "-nr"@, "-f"@, "inet"@]),
        SetupStage::Routes => match run {
            Err(e) => step matches SetupStep::Done { outcome: Err(NetworkError::IoError(m)) } && m@
                == e@,
            Ok(o) => match (if o.success {
                default_interface_in(lines(o.stdout@), 0)
            } else {
                None
            }) {
                Some(i) => step matches SetupStep::Run {
                    stage: SetupStage::NatFlush { interface },
                    command,
                } && interface@ == i && runs(step, seq!["pfctl"@, "-a"@, "kawakaze"@, "-F"@, "all"@]),
                None => step matches SetupStep::Done { outcome: Ok(_) },
            },
        },
        SetupStage::NatFlush { interface } => step matches SetupStep::Run { stage: s, command }
            && s is NatLoad && command.line() == seq!["pfctl"@, "-a"@, "kawakaze"@, "-f"@, "-"@]
            && command.input() == Some(nat_rule_text(interface@)),
        SetupStage::NatLoad => match run {
            Err(e) => step matches SetupStep::Done { outcome: Err(NetworkError::PfError(m)) } && m@
                == "Failed to execute pfctl: "@ + e@,
            Ok(o) => if o.success {
                step matches SetupStep::Done { outcome: Ok(_) }
            } else {
                step matches SetupStep::Done { outcome: Err(NetworkError::PfError(m)) } && m@
                    == "Failed to load NAT rules: "@ + o.stderr@
            },
        },
    }
}

/// Where giving a container its network stands: the command that was run
/// last.
#[derive(Debug, PartialEq, Eq)]
pub enum AttachStage {
    /// Creating the epair.
    EpairCreation,
    /// Making the host end of the epair a member of the bridge.
    BridgeAttachment { epair_host: String },
    /// Bringing the host end of the epair up.
    LinkUp { epair_host: String },
}

/// What giving a container its network asks of the host next.
#[derive(Debug, PartialEq, Eq)]
pub enum AttachStep {
    /// Run the command and report how it went.
    Run { stage: AttachStage, command: HostCommand },
    /// The network is there, or it is not.
    Done { outcome: Result<ContainerNetwork, NetworkError> },
}

/// Whether `n` is the network of the address `ip` on the epair whose host
/// end is `epair_host`.
pub open spec fn is_network(n: ContainerNetwork, ip: Ipv4Addr, epair_host: Seq<char>) -> bool {
    n.ip@ == ip.text() && n.bridge@ == "bridge0"@ && n.epair_host@ == epair_host && n.epair_jail@
        == jail_end(epair_host) && n.gateway@ == "10.11.0.1"@
}

/// What follows a step of giving a container its network: the epair that
/// was created is named by what the command printed; its host end is made
/// a member of the bridge and brought up; whether or not it comes up, the
/// network is there. A command that cannot be run ends the work, and so
/// does a failure to create the epair or to attach it.
pub open spec fn attach_follows(
    ip: Ipv4Addr,
    stage: AttachStage,
    run: Result<CommandOutput, String>,
    step: AttachStep,
) -> bool {
    match run {
        Err(e) => step matches AttachStep::Done { outcome: Err(NetworkError::IoError(m)) } && m@
            == e@,
        Ok(o) => match stage {
            AttachStage::EpairCreation => if o.success {
                step matches AttachStep::Run {
                    stage: AttachStage::BridgeAttachment { epair_host },
                    command,
                } && epair_host@ == trimmed(o.stdout@) && command.input() is None && command.line()
                    == seq!["ifconfig"@, "bridge0"@, "addm"@, trimmed(o.stdout@), "up"@]
            } else {
                step matches AttachStep::Done {
                    outcome: Err(NetworkError::EpairCreationFailed(m)),
                } && m@ == "Failed to create epair: "@ + o.stderr@
            },
            AttachStage::BridgeAttachment { epair_host } => if o.success {
                step matches AttachStep::Run { stage: AttachStage::LinkUp { epair_host: e }, command }
                    && e@ == epair_host@ && command.input() is None && command.line() == seq![
                    "ifconfig"@,
                    epair_host@,
                    "up"@,
                ]
            } else {
                step matches AttachStep::Done {
                    outcome: Err(NetworkError::EpairAttachmentFailed(m)),
                } && m@ == "Failed to attach "@ + epair_host@ + " to bridge: "@ + o.stderr@
            },
            AttachStage::LinkUp { epair_host } => step matches AttachStep::Done { outcome: Ok(n) }
                && is_network(n, ip, epair_host@),
        },
    }
}

fn gone_wrong(reason: &String) -> (r: SetupStep)
    ensures
        r matches SetupStep::Done { outcome: Err(NetworkError::IoError(m)) } && m@ == reason@,
{
    SetupStep::Done { outcome: Err(NetworkError::IoError(reason.clone())) }
}

impl NetworkManager {
    /// Begins the setup of the network: on a host where it may be set up,
    /// the first thing is to look whether the bridge is there.
    pub fn setup(&self, host: &Host) -> (r: SetupStep)
        ensures
            !host.is_root ==> (r matches SetupStep::Done {
                outcome: Err(NetworkError::BridgeCreationFailed(m)),
            } && m@ == "Network initialization requires root privileges"@),
            host.is_root && !host.is_freebsd ==> (r matches SetupStep::Done {
                outcome: Err(NetworkError::BridgeCreationFailed(m)),
            } && m@ == "Networking is only supported on FreeBSD"@),
            host.is_root && host.is_freebsd ==> (r matches SetupStep::Run { stage, command }
                && stage is BridgeLookup && runs(r, seq!["ifconfig"@, "bridge0"@])),
    {
        match self.initialize(host) {
            Ok(()) => SetupStep::Run {
                stage: SetupStage::BridgeLookup,
                command: self.bridge_exists(),
            },
            Err(e) => SetupStep::Done { outcome: Err(e) },
        }
    }

    /// Says what follows a step of the setup.
    pub fn setup_next(&self, stage: SetupStage, run: Result<CommandOutput, String>) -> (r:
        SetupStep)
        ensures
            setup_follows(stage, run, r),
    {
        match stage {
            SetupStage::BridgeLookup => match &run {
                Err(e) => gone_wrong(e),
                Ok(o) => {
                    if o.success {
                        SetupStep::Run {
                            stage: SetupStage::Forwarding,
                            command: self.enable_ip_forwarding(),
                        }
                    } else {
                        SetupStep::Run {
                            stage: SetupStage::BridgeCreation,
                            command: self.create_bridge().0,
                        }
                    }
                },
            },
            SetupStage::BridgeCreation => match &run {
                Err(e) => gone_wrong(e),
                Ok(o) => match self.bridge_created(o, None) {
                    Ok(()) => SetupStep::Run {
                        stage: SetupStage::BridgeAddress,
                        command: self.create_bridge().1,
                    },
                    Err(e) => SetupStep::Done { outcome: Err(e) },
                },
            },
            SetupStage::BridgeAddress => match &run {
                Err(e) => gone_wrong(e),
                Ok(o) => {
                    if o.success {
                        SetupStep::Run {
                            stage: SetupStage::Forwarding,
                            command: self.enable_ip_forwarding(),
                        }
                    } else {
                        SetupStep::Done {
                            outcome: Err(
                                NetworkError::BridgeCreationFailed(
                                    stderr_message("Failed to configure bridge IP: ", o),
                                ),
                            ),
                        }
                    }
                },
            },
            SetupStage::Forwarding => match &run {
                Err(e) => gone_wrong(e),
                Ok(_) => SetupStep::Run { stage: SetupStage::PfEnable, command: self.enable_pf() },
            },
            SetupStage::PfEnable => SetupStep::Run {
                stage: SetupStage::Routes,
                command: self.routing_table(),
            },
            SetupStage::Routes => match &run {
                Err(e) => gone_wrong(e),
                Ok(o) => match self.get_default_interface(o) {
                    Ok(Some(interface)) => {
                        let command = self.setup_nat(interface.as_str()).0;
                        SetupStep::Run { stage: SetupStage::NatFlush { interface }, command }
                    },
                    Ok(None) => SetupStep::Done { outcome: Ok(()) },
                    Err(e) => SetupStep::Done { outcome: Err(e) },
                },
            },
            SetupStage::NatFlush { interface } => SetupStep::Run {
                stage: SetupStage::NatLoad,
                command: self.setup_nat(interface.as_str()).1,
            },
            SetupStage::NatLoad => match &run {
                Err(e) => SetupStep::Done {
                    outcome: Err(
                        NetworkError::PfError(concat2("Failed to execute pfctl: ", e.as_str())),
                    ),
                },
                Ok(o) => SetupStep::Done { outcome: self.nat_loaded(o) },
            },
        }
    }

    /// Begins giving a container its network: an address is allocated, and
    /// the first thing to ask of the host is an epair.
    pub fn attach(&mut self) -> (r: Result<(Ipv4Addr, AttachStep), NetworkError>)
        requires
            old(self).wf(),
        ensures
            final(self).wf(),
            match allocation(old(self).allocated(), old(self).cursor()) {
                Allocation::Granted(o) => {
                    &&& r matches Ok(x) && x.0 == ip_at(o) && (x.1 matches AttachStep::Run {
                        stage,
                        command,
                    } && stage is EpairCreation && command.input() is None && command.line() == seq![
                        "ifconfig"@,
                        "epair"@,
                        "create"@,
                    ])
                    &&& final(self).allocated() == old(self).allocated().insert(o)
                },
                _ => r is Err && final(self).allocated() == old(self).allocated(),
            },
    {
        match self.allocate_ip() {
            Ok(ip) => Ok(
                (ip, AttachStep::Run { stage: AttachStage::EpairCreation, command: self.create_epair() }),
            ),
            Err(e) => Err(e),
        }
    }

    /// Says what follows a step of giving a container its network.
    pub fn attach_next(&self, ip: Ipv4Addr, stage: AttachStage, run: Result<CommandOutput, String>)
        -> (r: AttachStep)
        ensures
            attach_follows(ip, stage, run, r),
    {
        let output = match &run {
            Ok(o) => o,
            Err(e) => {
                return AttachStep::Done { outcome: Err(NetworkError::IoError(e.clone())) };
            },
        };
        match stage {
            AttachStage::EpairCreation => match self.epair_created(output) {
                Ok(epair_host) => {
                    let command = self.attach_to_bridge(epair_host.as_str()).0;
                    AttachStep::Run { stage: AttachStage::BridgeAttachment { epair_host }, command }
                },
                Err(e) => AttachStep::Done { outcome: Err(e) },
            },
            AttachStage::BridgeAttachment { epair_host } => match self.attached(
                epair_host.as_str(),
                output,
            ) {
                Ok(()) => {
                    let command = self.attach_to_bridge(epair_host.as_str()).1;
                    AttachStep::Run { stage: AttachStage::LinkUp { epair_host }, command }
                },
                Err(e) => AttachStep::Done { outcome: Err(e) },
            },
            AttachStage::LinkUp { epair_host } => AttachStep::Done {
                outcome: Ok(self.allocate_network(ip, epair_host)),
            },
        }
    }
}

} // verus!
