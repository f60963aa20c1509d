use vstd::prelude::*;

use crate::dns::set_argument;
use crate::parse::{empty_sentinel, no_dns_marker, parsed_enable, parsed_server};
use crate::text::{contains_seq, match_at};
use crate::SysDNS;

verus! {

/// Round trip of an enabled configuration: the server value handed to the
/// configuration tool, echoed back by the tool's DNS query as output with a
/// single trailing line terminator, parses to the very configuration that
/// was applied — provided the server text does not itself carry the tool's
/// "no DNS configured" phrase.
pub proof fn lemma_enable_round_trip(dns: SysDNS)
    requires
        dns.enable,
        !contains_seq(dns.server@, no_dns_marker()),
    ensures
        parsed_enable(set_argument(dns).push('\n')),
        parsed_server(set_argument(dns).push('\n')) == dns.server@,
{
    reveal_strlit("aren't any");
    let s = dns.server@;
    let s2 = s.push('\n');
    assert forall|i: int| !match_at(s2, no_dns_marker(), i) by {
        if match_at(s2, no_dns_marker(), i) {
            if i + no_dns_marker().len() <= s.len() {
                // the occurrence would lie wholly inside the server text
                assert(s2.subrange(i, i + 10) =~= s.subrange(i, i + 10));
                assert(match_at(s, no_dns_marker(), i));
                assert(false);
            } else {
                // the occurrence would cover the trailing terminator
                assert(s2.subrange(i, i + 10)[9] == s2[i + 9]);
                assert(s2[i + 9] == '\n');
                assert(no_dns_marker()[9] == 'y');
                assert(false);
            }
        }
    };
    assert(!contains_seq(s2, no_dns_marker()));
    assert(s2.last() == '\n');
    assert(s2.drop_last() =~= s);
}

/// Disabling is idempotent: applying a disabled configuration hands the
/// sentinel token to the tool, and any DNS-query output carrying the tool's
/// "no DNS configured" phrase parses back to that same disabled
/// configuration — so a second application starts from the state the first
/// one left, and every read in between observes the one disabled state.
pub proof fn lemma_disable_round_trip(dns: SysDNS, stdout: Seq<char>)
    requires
        !dns.enable,
        dns.wf(),
        contains_seq(stdout, no_dns_marker()),
    ensures
        set_argument(dns) == empty_sentinel(),
        !parsed_enable(stdout),
        parsed_server(stdout) == dns.server@,
{
}

} // verus!
