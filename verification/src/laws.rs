//! Laws relating the decoder's and encoder's specifications across calls:
//! properties that no single function's contract states by itself.

use vstd::prelude::*;
use crate::decode::has_ro_option;
use crate::decode::spec_normalize_stdio;
use crate::encode::spec_status_wire;
use crate::encode::stdio_wire_of;
use crate::types::ProcessStatus;
use crate::wire;

verus! {

/// The characters behind an optional owned path.
pub open spec fn stdio_view(o: Option<String>) -> Option<Seq<char>> {
    match o {
        Some(p) => Some(p@),
        None => None,
    }
}

/// Stdio normalization is idempotent across the wire: take a normalized
/// path (as the decoder produces, so never present-but-empty), encode it for
/// the wire (absent becomes the empty string), and re-normalize whatever
/// string carries those characters back in — the same normalized path comes
/// out. In particular, "absent" comes back as "absent", never as a
/// present-but-empty path.
pub proof fn lemma_stdio_round_trip(o: Option<String>, carried: String)
    requires
        o matches Some(p) ==> p@.len() > 0,
        carried@ == stdio_wire_of(o),
    ensures
        stdio_view(spec_normalize_stdio(carried)) == stdio_view(o),
{
}

/// Normalizing a stdio path twice is the same as normalizing it once: a
/// path the normalization has produced passes through it unchanged.
pub proof fn lemma_stdio_normalize_idempotent(s: String)
    ensures
        spec_normalize_stdio(s) matches Some(p) ==> spec_normalize_stdio(p) == Some(p),
{
}

/// The derived read-only flag depends only on which options are present,
/// never on their order: any two option lists with the same members derive
/// the same flag.
pub proof fn lemma_read_only_order_independent(a: Seq<String>, b: Seq<String>)
    requires
        a.to_multiset() == b.to_multiset(),
    ensures
        has_ro_option(a) == has_ro_option(b),
{
    broadcast use vstd::seq_lib::group_to_multiset_ensures;

    if has_ro_option(a) {
        let i = choose|i: int| 0 <= i < a.len() && (#[trigger] a[i])@ == "ro"@;
        assert(a.contains(a[i]));
        assert(b.to_multiset().count(a[i]) > 0);
        assert(b.contains(a[i]));
        let j = choose|j: int| 0 <= j < b.len() && b[j] == a[i];
        assert((b[j])@ == "ro"@);
    }
    if has_ro_option(b) {
        let i = choose|i: int| 0 <= i < b.len() && (#[trigger] b[i])@ == "ro"@;
        assert(b.contains(b[i]));
        assert(a.to_multiset().count(b[i]) > 0);
        assert(a.contains(b[i]));
        let j = choose|j: int| 0 <= j < a.len() && a[j] == b[i];
        assert((a[j])@ == "ro"@);
    }
}

/// Process status encoding is deterministic and collapses exactly `Stopped`
/// and `Exited` to the wire `Stopped`; every other internal status encodes
/// to its own wire status, distinct from every other status's encoding.
pub proof fn lemma_status_encoding(a: ProcessStatus, b: ProcessStatus)
    ensures
        spec_status_wire(ProcessStatus::Stopped) == wire::Status::Stopped,
        spec_status_wire(ProcessStatus::Exited) == wire::Status::Stopped,
        !(a is Stopped) && !(a is Exited) && a != b ==> spec_status_wire(a) != spec_status_wire(b),
{
}

} // verus!
