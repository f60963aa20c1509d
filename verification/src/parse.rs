use vstd::prelude::*;
use vstd::string::StrSliceExecFns;

use crate::text::{
    contains_seq, extract_field, field_value, find_pat, find_pat_from, has_prefix,
    lemma_find_pat_from, match_at, str_contains, str_eq,
};
use crate::{Error, SysDNS};

verus! {

/// The phrase the configuration tool prints when a service has no DNS
/// servers configured.
pub open spec fn no_dns_marker() -> Seq<char> {
    "aren't any"@
}

/// The sentinel token the configuration tool uses for "no DNS servers".
pub open spec fn empty_sentinel() -> Seq<char> {
    "Empty"@
}

/// Whether a DNS-query output reports explicitly configured servers: any
/// output carrying the tool's "no DNS configured" phrase does not.
pub open spec fn parsed_enable(stdout: Seq<char>) -> bool {
    !contains_seq(stdout, no_dns_marker())
}

/// The server text a DNS-query output stands for: the output with exactly one
/// trailing line terminator removed, or the sentinel when the output reports
/// no configured servers or ends in no line terminator.
pub open spec fn parsed_server(stdout: Seq<char>) -> Seq<char> {
    if !parsed_enable(stdout) {
        empty_sentinel()
    } else if stdout.len() > 0 && stdout.last() == '\n' {
        stdout.drop_last()
    } else {
        empty_sentinel()
    }
}

/// Parse the output of the tool's DNS query into a configuration.
pub fn parse_dns_output(stdout: &str) -> (r: SysDNS)
    ensures
        r.enable == parsed_enable(stdout@),
        r.server@ == parsed_server(stdout@),
        r.wf(),
{
    proof {
        reveal_strlit("aren't any");
    }
    let enable = !str_contains(stdout, "aren't any");
    let n = stdout.unicode_len();
    let mut server = "Empty".to_owned();
    if enable && n > 0 && stdout.get_char(n - 1) == '\n' {
        let stripped = stdout.substring_char(0, n - 1);
        proof {
            assert(stripped@ =~= stdout@.drop_last());
        }
        server = stripped.to_owned();
    }
    SysDNS { enable, server }
}

/// The first service entry of a services listing: the text between the first
/// and second line terminators (the first line is the tool's advisory
/// header). There is none when the listing holds no line terminator at all,
/// and none when that first entry line is empty — a blank line is no
/// service.
pub open spec fn parsed_first_service(stdout: Seq<char>) -> Option<Seq<char>> {
    let h = find_pat_from(stdout, "\n"@, 0);
    if h == stdout.len() {
        None
    } else {
        let line = stdout.subrange(h + 1, find_pat_from(stdout, "\n"@, h + 1));
        if line.len() == 0 {
            None
        } else {
            Some(line)
        }
    }
}

/// The view of an optional owned string.
pub open spec fn opt_str_view(o: Option<String>) -> Option<Seq<char>> {
    match o {
        Some(s) => Some(s@),
        None => None,
    }
}

/// Extract the first service entry of a services listing; an empty listing
/// — no entry line, or a blank one — is the absence of an active service.
pub fn first_service_line(stdout: &str) -> (r: Result<String, Error>)
    ensures
        match r {
            Ok(s) => parsed_first_service(stdout@) == Some(s@),
            Err(e) => parsed_first_service(stdout@) is None && e == Error::NetworkInterface,
        },
{
    proof {
        reveal_strlit("\n");
    }
    let n = stdout.unicode_len();
    let h = find_pat(stdout, "\n", 0);
    proof {
        lemma_find_pat_from(stdout@, "\n"@, 0);
    }
    if h == n {
        return Err(Error::NetworkInterface);
    }
    let e = find_pat(stdout, "\n", h + 1);
    if e == h + 1 {
        return Err(Error::NetworkInterface);
    }
    Ok(stdout.substring_char(h + 1, e).to_owned())
}

/// The line prefix carrying a stanza's service display name.
pub open spec fn hardware_port_prefix() -> Seq<char> {
    "Hardware Port:"@
}

/// The line prefix carrying a stanza's device identifier.
pub open spec fn device_prefix() -> Seq<char> {
    "Device:"@
}

/// The marker line field separating the stanzas of the hardware-ports
/// listing.
pub open spec fn stanza_marker() -> Seq<char> {
    "Ethernet Address:"@
}

/// The value of the last line of `chunk` that starts with the prefix `p`,
/// scanning line by line from `from` with `cur` as the value seen so far.
pub open spec fn field_scan(
    chunk: Seq<char>,
    p: Seq<char>,
    from: int,
    cur: Option<Seq<char>>,
) -> Option<Seq<char>>
    decreases chunk.len() - from,
    via field_scan_decreases
{
    if from < 0 || from > chunk.len() {
        cur
    } else {
        let e = find_pat_from(chunk, "\n"@, from);
        let line = chunk.subrange(from, e);
        let cur2 = if match_at(line, p, 0) {
            Some(field_value(line, p))
        } else {
            cur
        };
        if e >= chunk.len() {
            cur2
        } else {
            field_scan(chunk, p, e + 1, cur2)
        }
    }
}

#[via_fn]
proof fn field_scan_decreases(chunk: Seq<char>, p: Seq<char>, from: int, cur: Option<Seq<char>>) {
    reveal_strlit("\n");
    if 0 <= from <= chunk.len() {
        lemma_find_pat_from(chunk, "\n"@, from);
    }
}

/// The last value of the prefixed field among the lines of `chunk`.
pub open spec fn last_field(chunk: Seq<char>, p: Seq<char>) -> Option<Seq<char>> {
    field_scan(chunk, p, 0, None)
}

/// The service name stanza `chunk` assigns to `device`: the value of its last
/// "Hardware Port:" line, provided its last "Device:" line carries `device`.
pub open spec fn stanza_service(chunk: Seq<char>, device: Seq<char>) -> Option<Seq<char>> {
    match last_field(chunk, device_prefix()) {
        None => None,
        Some(d) => if d == device {
            last_field(chunk, hardware_port_prefix())
        } else {
            None
        },
    }
}

/// The service name of the first stanza at or after `from` of the
/// hardware-ports listing `stdout` whose device field equals `device`.
pub open spec fn service_scan(stdout: Seq<char>, device: Seq<char>, from: int) -> Option<
    Seq<char>,
>
    decreases stdout.len() - from,
    via service_scan_decreases
{
    if from < 0 || from > stdout.len() {
        None
    } else {
        let e = find_pat_from(stdout, stanza_marker(), from);
        match stanza_service(stdout.subrange(from, e), device) {
            Some(v) => Some(v),
            None => if e >= stdout.len() {
                None
            } else {
                service_scan(stdout, device, e + stanza_marker().len())
            },
        }
    }
}

#[via_fn]
proof fn service_scan_decreases(stdout: Seq<char>, device: Seq<char>, from: int) {
    reveal_strlit("Ethernet Address:");
    if 0 <= from <= stdout.len() {
        lemma_find_pat_from(stdout, stanza_marker(), from);
    }
}

/// The service name the hardware-ports listing `stdout` assigns to `device`.
pub open spec fn parsed_service_for_device(stdout: Seq<char>, device: Seq<char>) -> Option<
    Seq<char>,
> {
    service_scan(stdout, device, 0)
}

/// The value of the last line of `chunk` that starts with the prefix `p`.
fn scan_last_field(chunk: &str, p: &str) -> (r: Option<String>)
    ensures
        opt_str_view(r) == last_field(chunk@, p@),
{
    let n = chunk.unicode_len();
    let mut from: usize = 0;
    let mut cur: Option<String> = None;
    loop
        invariant
            from <= n,
            n == chunk@.len(),
            last_field(chunk@, p@) == field_scan(chunk@, p@, from as int, opt_str_view(cur)),
        decreases n - from,
    {
        proof {
            reveal_strlit("\n");
        }
        let e = find_pat(chunk, "\n", from);
        proof {
            lemma_find_pat_from(chunk@, "\n"@, from as int);
        }
        let line = chunk.substring_char(from, e);
        let cur2: Option<String> = if has_prefix(line, p) {
            Some(extract_field(line, p))
        } else {
            cur
        };
        if e >= n {
            return cur2;
        }
        from = e + 1;
        cur = cur2;
    }
}

/// Find the service name the hardware-ports listing assigns to `device`; a
/// device no stanza lists is the absence of an active interface.
pub fn service_for_device(listing: &str, device: &str) -> (r: Result<String, Error>)
    ensures
        match r {
            Ok(s) => parsed_service_for_device(listing@, device@) == Some(s@),
            Err(e) => parsed_service_for_device(listing@, device@) is None && e
                == Error::NetworkInterface,
        },
{
    proof {
        reveal_strlit("Ethernet Address:");
    }
    let n = listing.unicode_len();
    let mlen = "Ethernet Address:".unicode_len();
    let mut from: usize = 0;
    loop
        invariant
            from <= n,
            n == listing@.len(),
            mlen == stanza_marker().len(),
            mlen >= 1,
            parsed_service_for_device(listing@, device@) == service_scan(
                listing@,
                device@,
                from as int,
            ),
        decreases n - from,
    {
        let e = find_pat(listing, "Ethernet Address:", from);
        proof {
            lemma_find_pat_from(listing@, stanza_marker(), from as int);
        }
        let chunk = listing.substring_char(from, e);
        let found = stanza_lookup(chunk, device);
        proof {
            assert(chunk@ == listing@.subrange(from as int, e as int));
        }
        match found {
            Some(v) => {
                return Ok(v);
            },
            None => {},
        }
        if e >= n {
            return Err(Error::NetworkInterface);
        }
        from = e + mlen;
    }
}

/// The service name stanza `chunk` assigns to `device`, if any.
fn stanza_lookup(chunk: &str, device: &str) -> (r: Option<String>)
    ensures
        opt_str_view(r) == stanza_service(chunk@, device@),
{
    proof {
        reveal_strlit("Device:");
        reveal_strlit("Hardware Port:");
    }
    match scan_last_field(chunk, "Device:") {
        Some(d) => {
            if str_eq(d.as_str(), device) {
                scan_last_field(chunk, "Hardware Port:")
            } else {
                None
            }
        },
        None => None,
    }
}

} // verus!
