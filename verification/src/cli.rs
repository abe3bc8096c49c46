//! Helpers of the command line client: reading port mappings and volume
//! mounts as users write them, and printing sizes.

use crate::api::{Mount, PortMapping};
use crate::number::{
    decimal, one_decimal, parse_u16, parse_upto, push_one_decimal, rounded_tenths,
    tenths_of,
};
use crate::text::{
    chars_of, split, split_at_char, split_once, split_once_at, string_of, views,
};
use vstd::prelude::*;

verus! {

/// The protocol of a port mapping as written: what stands after the first
/// slash, and `tcp` if there is no slash.
pub open spec fn written_protocol(s: Seq<char>) -> Seq<char> {
    let p = split(s, '/');
    if p.len() > 1 {
        p[1]
    } else {
        "tcp"@
    }
}

/// The two ports of a port mapping as written, `host:container`, before any
/// slash.
pub open spec fn written_ports(s: Seq<char>) -> Option<(nat, nat)> {
    let q = split(split(s, '/')[0], ':');
    if q.len() == 2 && parse_upto(q[0], 65535) is Some && parse_upto(q[1], 65535) is Some {
        Some((parse_upto(q[0], 65535)->0, parse_upto(q[1], 65535)->0))
    } else {
        None
    }
}

/// Reads a port mapping: `hostPort:containerPort`, with `/protocol` after it
/// if the protocol is not `tcp`.
pub fn parse_port_mapping(s: &str) -> (r: Option<PortMapping>)
    ensures
        match written_ports(s@) {
            Some((h, c)) => r matches Some(m) && m.host_port == h && m.container_port == c
                && m.protocol@ == written_protocol(s@),
            None => r is None,
        },
{
    let p = split_at_char(&chars_of(s), '/');
    proof {
        crate::text::lemma_split_nonempty(s@, '/');
    }
    assert(views(p@)[0] == p@[0]@);
    let protocol: String = if p.len() > 1 {
        assert(views(p@)[1] == p@[1]@);
        string_of(&p[1])
    } else {
        "tcp".to_owned()
    };
    let q = split_at_char(&p[0], ':');
    if q.len() != 2 {
        return None;
    }
    assert(views(q@)[0] == q@[0]@);
    assert(views(q@)[1] == q@[1]@);
    let host_port = match parse_u16(&q[0]) {
        Some(n) => n,
        None => {
            return None;
        },
    };
    let container_port = match parse_u16(&q[1]) {
        Some(n) => n,
        None => {
            return None;
        },
    };
    Some(PortMapping { host_port, container_port, protocol })
}

/// Reads a volume mount, `source:destination`, split at the first colon.
pub fn parse_volume_mount(s: &str) -> (r: Option<Mount>)
    ensures
        split_once(s@, ':').len() == 2 ==> (r matches Some(m) && m.source@ == split_once(s@, ':')[0]
            && m.destination@ == split_once(s@, ':')[1] && m.mount_type@ == "nullfs"@),
        split_once(s@, ':').len() != 2 ==> r is None,
{
    let p = split_once_at(&chars_of(s), ':');
    if p.len() != 2 {
        return None;
    }
    assert(views(p@)[0] == p@[0]@);
    assert(views(p@)[1] == p@[1]@);
    Some(
        Mount {
            source: string_of(&p[0]),
            destination: string_of(&p[1]),
            mount_type: "nullfs".to_owned(),
        },
    )
}

/// A size as people read it: gigabytes, megabytes or kilobytes with one
/// decimal place from 1024 bytes on, bytes below.
pub open spec fn size_text(bytes: nat) -> Seq<char> {
    if bytes >= 1073741824 {
        one_decimal(rounded_tenths(bytes, 1073741824)) + "GB"@
    } else if bytes >= 1048576 {
        one_decimal(rounded_tenths(bytes, 1048576)) + "MB"@
    } else if bytes >= 1024 {
        one_decimal(rounded_tenths(bytes, 1024)) + "KB"@
    } else {
        decimal(bytes) + "B"@
    }
}

/// Writes a size as people read it.
pub fn format_size(bytes: u64) -> (r: String)
    ensures
        r@ == size_text(bytes as nat),
{
    let mut v: Vec<char> = Vec::new();
    let unit: &str = if bytes >= 1073741824 {
        push_one_decimal(&mut v, tenths_of(bytes, 1073741824));
        "GB"
    } else if bytes >= 1048576 {
        push_one_decimal(&mut v, tenths_of(bytes, 1048576));
        "MB"
    } else if bytes >= 1024 {
        push_one_decimal(&mut v, tenths_of(bytes, 1024));
        "KB"
    } else {
        crate::number::push_decimal(&mut v, bytes);
        "B"
    };
    let mut out = string_of(&v);
    out.append(unit);
    assert(out@ =~= size_text(bytes as nat));
    out
}

} // verus!
