//! Parsing of the embedded pod-sandbox config: the opaque bytes a
//! sandbox-creation request carries, laid out in protobuf wire format.
//! Only the two fields this layer consumes are decoded — the hostname
//! (field 2, a string) and the annotation map (field 7, repeated entry
//! messages with key = field 1 and value = field 2); every other field is
//! skipped by its wire type. Within a message, a repeated scalar occurrence
//! wins last; missing fields default to empty, as the wire format
//! prescribes.

use vstd::prelude::*;
use vstd::slice::slice_subrange;
use vstd::utf8::decode_utf8;
use vstd::utf8::valid_utf8;
use crate::error::Error;

verus! {

/// The structured pod-sandbox config: exactly what the decoder reads of it.
#[derive(Clone, Debug, PartialEq, Eq)]
pub struct PodSandboxConfig {
    pub hostname: String,
    pub annotations: Vec<(String, String)>,
}

/// The raw fields a well-formed config carries, before text decoding.
pub struct RawConfig {
    pub hostname: Seq<u8>,
    pub annotations: Seq<(Seq<u8>, Seq<u8>)>,
}

/// A base-128 varint read at `pos`, bounded by `end`: at most ten bytes, the
/// tenth contributing at most one bit, so the value is exactly the little-
/// endian concatenation of the payload bits.
pub open spec fn spec_varint_rec(s: Seq<u8>, pos: int, end: int, idx: int, acc: u64) -> Option<
    (u64, int),
>
    decreases 10 - idx,
{
    if idx < 0 || idx >= 10 || pos < 0 || pos >= end || end > s.len() {
        None
    } else {
        let b = s[pos];
        let low = (b & 0x7f) as u64;
        if idx == 9 && low > 1 {
            None
        } else {
            let acc2 = acc | (low << ((7 * idx) as u64));
            if b & 0x80 == 0 {
                Some((acc2, pos + 1))
            } else {
                spec_varint_rec(s, pos + 1, end, idx + 1, acc2)
            }
        }
    }
}

/// A varint read from scratch.
pub open spec fn spec_varint(s: Seq<u8>, pos: int, end: int) -> Option<(u64, int)> {
    spec_varint_rec(s, pos, end, 0, 0)
}

/// Where an unknown field's payload ends, by its wire type: varint, 64-bit,
/// length-delimited, or 32-bit; anything else is malformed.
pub open spec fn spec_skip_field(s: Seq<u8>, pos: int, end: int, wire_type: u64) -> Option<int> {
    if wire_type == 0 {
        match spec_varint(s, pos, end) {
            Some((_v, p)) => Some(p),
            None => None,
        }
    } else if wire_type == 1 {
        if pos + 8 <= end {
            Some(pos + 8)
        } else {
            None
        }
    } else if wire_type == 5 {
        if pos + 4 <= end {
            Some(pos + 4)
        } else {
            None
        }
    } else if wire_type == 2 {
        match spec_varint(s, pos, end) {
            Some((len, p)) => if len <= (end - p) as u64 {
                Some(p + len)
            } else {
                None
            },
            None => None,
        }
    } else {
        None
    }
}

/// The fields of one annotation entry message on `[pos, end)`, folded over
/// the accumulated key and value; a repeated occurrence wins last.
pub open spec fn spec_entry_fields(
    s: Seq<u8>,
    pos: int,
    end: int,
    key: Seq<u8>,
    value: Seq<u8>,
) -> Option<(Seq<u8>, Seq<u8>)>
    decreases end - pos,
{
    if pos == end {
        Some((key, value))
    } else if !(0 <= pos < end && end <= s.len()) {
        None
    } else {
        match spec_varint(s, pos, end) {
            None => None,
            Some((tag, p)) => {
                let field = tag >> 3u64;
                let wt = tag & 7;
                if field == 0 {
                    None
                } else if (field == 1 || field == 2) && wt == 2 {
                    match spec_varint(s, p, end) {
                        None => None,
                        Some((len, q)) => if len <= (end - q) as u64 && pos < q + len <= end {
                            let bytes = s.subrange(q, q + len);
                            if field == 1 {
                                spec_entry_fields(s, q + len, end, bytes, value)
                            } else {
                                spec_entry_fields(s, q + len, end, key, bytes)
                            }
                        } else {
                            None
                        },
                    }
                } else {
                    match spec_skip_field(s, p, end, wt) {
                        None => None,
                        Some(np) => if pos < np <= end {
                            spec_entry_fields(s, np, end, key, value)
                        } else {
                            None
                        },
                    }
                }
            },
        }
    }
}

/// The fields of the config message on `[pos, end)`, folded over the raw
/// fields accumulated so far.
pub open spec fn spec_config_fields(s: Seq<u8>, pos: int, end: int, acc: RawConfig) -> Option<
    RawConfig,
>
    decreases end - pos,
{
    if pos == end {
        Some(acc)
    } else if !(0 <= pos < end && end <= s.len()) {
        None
    } else {
        match spec_varint(s, pos, end) {
            None => None,
            Some((tag, p)) => {
                let field = tag >> 3u64;
                let wt = tag & 7;
                if field == 0 {
                    None
                } else if (field == 2 || field == 7) && wt == 2 {
                    match spec_varint(s, p, end) {
                        None => None,
                        Some((len, q)) => if len <= (end - q) as u64 && pos < q + len <= end {
                            if field == 2 {
                                spec_config_fields(
                                    s,
                                    q + len,
                                    end,
                                    RawConfig {
                                        hostname: s.subrange(q, q + len),
                                        annotations: acc.annotations,
                                    },
                                )
                            } else {
                                match spec_entry_fields(
                                    s,
                                    q,
                                    q + len,
                                    Seq::<u8>::empty(),
                                    Seq::<u8>::empty(),
                                ) {
                                    None => None,
                                    Some(entry) => spec_config_fields(
                                        s,
                                        q + len,
                                        end,
                                        RawConfig {
                                            hostname: acc.hostname,
                                            annotations: acc.annotations.push(entry),
                                        },
                                    ),
                                }
                            }
                        } else {
                            None
                        },
                    }
                } else {
                    match spec_skip_field(s, p, end, wt) {
                        None => None,
                        Some(np) => if pos < np <= end {
                            spec_config_fields(s, np, end, acc)
                        } else {
                            None
                        },
                    }
                }
            },
        }
    }
}

/// The raw fields of a whole config payload, if it is well-formed.
pub open spec fn spec_parse_config(s: Seq<u8>) -> Option<RawConfig> {
    spec_config_fields(
        s,
        0,
        s.len() as int,
        RawConfig { hostname: Seq::<u8>::empty(), annotations: Seq::<(Seq<u8>, Seq<u8>)>::empty() },
    )
}

/// Every annotation pair in the list carries valid UTF-8 on both sides.
pub open spec fn anns_utf8_ok(a: Seq<(Seq<u8>, Seq<u8>)>) -> bool {
    forall|i: int|
        0 <= i < a.len() ==> valid_utf8(#[trigger] a[i].0) && valid_utf8(a[i].1)
}

/// All text carried by the raw fields is valid UTF-8.
pub open spec fn config_utf8_ok(raw: RawConfig) -> bool {
    valid_utf8(raw.hostname) && anns_utf8_ok(raw.annotations)
}

/// Appending a valid pair keeps an annotation list valid.
proof fn lemma_anns_utf8_push(a: Seq<(Seq<u8>, Seq<u8>)>, e: (Seq<u8>, Seq<u8>))
    requires
        anns_utf8_ok(a),
        valid_utf8(e.0),
        valid_utf8(e.1),
    ensures
        anns_utf8_ok(a.push(e)),
{
    assert forall|i: int| 0 <= i < a.push(e).len() implies valid_utf8(#[trigger] a.push(e)[i].0)
        && valid_utf8(a.push(e)[i].1) by {
        if i < a.len() {
            assert(a.push(e)[i] == a[i]);
        } else {
            assert(a.push(e)[i] == e);
        }
    }
}

/// A payload parses as a pod-sandbox config: well-formed wire framing and
/// valid UTF-8 in every text field.
pub open spec fn config_wf(s: Seq<u8>) -> bool {
    spec_parse_config(s) matches Some(raw) && config_utf8_ok(raw)
}

/// The annotation pairs a parsed config presents, as character sequences.
pub open spec fn decoded_annotations(raws: Seq<(Seq<u8>, Seq<u8>)>) -> Seq<
    (Seq<char>, Seq<char>),
> {
    raws.map_values(|p: (Seq<u8>, Seq<u8>)| (decode_utf8(p.0), decode_utf8(p.1)))
}

/// The character sequences behind a list of owned string pairs.
pub open spec fn annotation_views(v: Seq<(String, String)>) -> Seq<(Seq<char>, Seq<char>)> {
    v.map_values(|p: (String, String)| (p.0@, p.1@))
}

/// Relies on str::from_utf8: returns the borrowed text exactly when the
/// bytes are valid UTF-8, and that text's characters are the UTF-8 decoding
/// of the bytes.
#[verifier::external_body]
fn str_from_utf8(v: &[u8]) -> (r: Option<&str>)
    ensures
        (r is Some) == valid_utf8(v@),
        r matches Some(s) ==> s@ == decode_utf8(v@),
{
    core::str::from_utf8(v).ok()
}

/// Reads one varint.
fn read_varint(s: &[u8], pos: usize, end: usize) -> (r: Option<(u64, usize)>)
    requires
        pos <= end <= s@.len(),
    ensures
        (r is Some) == (spec_varint(s@, pos as int, end as int) is Some),
        r matches Some((v, p)) ==> spec_varint(s@, pos as int, end as int) == Some((v, p as int))
            && pos < p <= end,
{
    let mut p = pos;
    let mut idx: usize = 0;
    let mut acc: u64 = 0;
    while idx < 10
        invariant
            pos <= p <= end <= s@.len(),
            idx <= 10,
            spec_varint(s@, pos as int, end as int) == spec_varint_rec(
                s@,
                p as int,
                end as int,
                idx as int,
                acc,
            ),
        decreases 10 - idx,
    {
        if p >= end {
            return None;
        }
        let b = s[p];
        let low = (b & 0x7f) as u64;
        if idx == 9 && low > 1 {
            return None;
        }
        let shift: u64 = 7 * (idx as u64);
        let acc2 = acc | (low << shift);
        if b & 0x80 == 0 {
            return Some((acc2, p + 1));
        }
        acc = acc2;
        p = p + 1;
        idx = idx + 1;
    }
    None
}

/// Skips one unknown field's payload by its wire type.
fn skip_field(s: &[u8], pos: usize, end: usize, wire_type: u64) -> (r: Option<usize>)
    requires
        pos <= end <= s@.len(),
    ensures
        (r is Some) == (spec_skip_field(s@, pos as int, end as int, wire_type) is Some),
        r matches Some(p) ==> spec_skip_field(s@, pos as int, end as int, wire_type) == Some(
            p as int,
        ) && pos <= p <= end,
{
    if wire_type == 0 {
        match read_varint(s, pos, end) {
            Some((_v, p)) => Some(p),
            None => None,
        }
    } else if wire_type == 1 {
        if end - pos >= 8 {
            Some(pos + 8)
        } else {
            None
        }
    } else if wire_type == 5 {
        if end - pos >= 4 {
            Some(pos + 4)
        } else {
            None
        }
    } else if wire_type == 2 {
        match read_varint(s, pos, end) {
            Some((len, p)) => {
                if len <= (end - p) as u64 {
                    Some(p + (len as usize))
                } else {
                    None
                }
            },
            None => None,
        }
    } else {
        None
    }
}

/// A byte range recorded while scanning, standing for the bytes of the last
/// occurrence of a field; `None` stands for the field's empty default.
pub open spec fn range_wf(s: Seq<u8>, r: Option<(usize, usize)>) -> bool {
    match r {
        None => true,
        Some((a, b)) => a <= b <= s.len(),
    }
}

/// The bytes a recorded range stands for.
pub open spec fn range_bytes(s: Seq<u8>, r: Option<(usize, usize)>) -> Seq<u8> {
    match r {
        None => Seq::<u8>::empty(),
        Some((a, b)) => s.subrange(a as int, b as int),
    }
}

/// Folding more fields into an accumulated config never forgets an
/// annotation already accumulated: the result's annotation list extends the
/// accumulator's.
proof fn lemma_config_fields_extends(s: Seq<u8>, pos: int, end: int, acc: RawConfig)
    ensures
        spec_config_fields(s, pos, end, acc) matches Some(res) ==> res.annotations.len()
            >= acc.annotations.len() && (forall|i: int|
            0 <= i < acc.annotations.len() ==> #[trigger] res.annotations[i]
                == acc.annotations[i]),
    decreases end - pos,
{
    if pos == end {
    } else if !(0 <= pos < end && end <= s.len()) {
    } else {
        match spec_varint(s, pos, end) {
            None => {},
            Some((tag, p)) => {
                let field = tag >> 3u64;
                let wt = tag & 7;
                if field == 0 {
                } else if (field == 2 || field == 7) && wt == 2 {
                    match spec_varint(s, p, end) {
                        None => {},
                        Some((len, q)) => {
                            if len <= (end - q) as u64 && pos < q + len <= end {
                                if field == 2 {
                                    lemma_config_fields_extends(
                                        s,
                                        q + len,
                                        end,
                                        RawConfig {
                                            hostname: s.subrange(q, q + len),
                                            annotations: acc.annotations,
                                        },
                                    );
                                } else {
                                    match spec_entry_fields(
                                        s,
                                        q,
                                        q + len,
                                        Seq::<u8>::empty(),
                                        Seq::<u8>::empty(),
                                    ) {
                                        None => {},
                                        Some(entry) => {
                                            lemma_config_fields_extends(
                                                s,
                                                q + len,
                                                end,
                                                RawConfig {
                                                    hostname: acc.hostname,
                                                    annotations: acc.annotations.push(entry),
                                                },
                                            );
                                        },
                                    }
                                }
                            }
                        },
                    }
                } else {
                    match spec_skip_field(s, p, end, wt) {
                        None => {},
                        Some(np) => {
                            if pos < np <= end {
                                lemma_config_fields_extends(s, np, end, acc);
                            }
                        },
                    }
                }
            },
        }
    }
}

/// The raw fields of an entry exist and all their text is valid UTF-8.
pub open spec fn entry_text_ok(o: Option<(Seq<u8>, Seq<u8>)>) -> bool {
    o matches Some(raw) && valid_utf8(raw.0) && valid_utf8(raw.1)
}

/// Parses one annotation entry message on `[pos, end)` into its key and
/// value, or `None` when the framing is malformed or the text is not UTF-8.
fn parse_entry(s: &[u8], pos: usize, end: usize) -> (r: Option<(String, String)>)
    requires
        pos <= end <= s@.len(),
    ensures
        spec_entry_fields(s@, pos as int, end as int, Seq::<u8>::empty(), Seq::<u8>::empty())
            is None ==> r is None,
        r is None ==> !entry_text_ok(
            spec_entry_fields(s@, pos as int, end as int, Seq::<u8>::empty(), Seq::<u8>::empty()),
        ),
        r matches Some(kv) ==> ({
            let se = spec_entry_fields(
                s@,
                pos as int,
                end as int,
                Seq::<u8>::empty(),
                Seq::<u8>::empty(),
            );
            &&& entry_text_ok(se)
            &&& kv.0@ == decode_utf8(se->Some_0.0)
            &&& kv.1@ == decode_utf8(se->Some_0.1)
        }),
{
    let mut p = pos;
    let mut key_range: Option<(usize, usize)> = None;
    let mut val_range: Option<(usize, usize)> = None;
    while p < end
        invariant
            pos <= p <= end <= s@.len(),
            range_wf(s@, key_range),
            range_wf(s@, val_range),
            spec_entry_fields(s@, pos as int, end as int, Seq::<u8>::empty(), Seq::<u8>::empty())
                == spec_entry_fields(
                s@,
                p as int,
                end as int,
                range_bytes(s@, key_range),
                range_bytes(s@, val_range),
            ),
        decreases end - p,
    {
        let (tag, q) = match read_varint(s, p, end) {
            Some(t) => t,
            None => {
                return None;
            },
        };
        let field = tag >> 3u64;
        let wt = tag & 7;
        if field == 0 {
            return None;
        }
        if (field == 1 || field == 2) && wt == 2 {
            let (len, q2) = match read_varint(s, q, end) {
                Some(t) => t,
                None => {
                    return None;
                },
            };
            if len > (end - q2) as u64 {
                return None;
            }
            let len_us = len as usize;
            if field == 1 {
                key_range = Some((q2, q2 + len_us));
            } else {
                val_range = Some((q2, q2 + len_us));
            }
            p = q2 + len_us;
        } else {
            p = match skip_field(s, q, end, wt) {
                Some(np) => np,
                None => {
                    return None;
                },
            };
        }
    }
    let key: String = match key_range {
        None => {
            proof {
                assert(decode_utf8(Seq::<u8>::empty()) =~= Seq::<char>::empty());
            }
            String::new()
        },
        Some((a, b)) => match str_from_utf8(slice_subrange(s, a, b)) {
            Some(t) => t.to_owned(),
            None => {
                return None;
            },
        },
    };
    let value: String = match val_range {
        None => {
            proof {
                assert(decode_utf8(Seq::<u8>::empty()) =~= Seq::<char>::empty());
            }
            String::new()
        },
        Some((a, b)) => match str_from_utf8(slice_subrange(s, a, b)) {
            Some(t) => t.to_owned(),
            None => {
                return None;
            },
        },
    };
    Some((key, value))
}

/// Parses a whole pod-sandbox config payload: the hostname and the
/// annotation map, every other field skipped by its wire type. Fails with
/// `MalformedConfig` exactly when the payload is not a well-formed config.
pub fn parse_pod_sandbox_config(s: &[u8]) -> (r: Result<PodSandboxConfig, Error>)
    ensures
        (r is Ok) == config_wf(s@),
        r matches Ok(c) ==> spec_parse_config(s@) matches Some(raw) && c.hostname@ == decode_utf8(
            raw.hostname,
        ) && annotation_views(c.annotations@) == decoded_annotations(raw.annotations),
        r matches Err(e) ==> e == Error::MalformedConfig,
{
    let end = s.len();
    let mut p: usize = 0;
    let mut hostname_range: Option<(usize, usize)> = None;
    let mut annotations: Vec<(String, String)> = Vec::new();
    let ghost mut raw_anns: Seq<(Seq<u8>, Seq<u8>)> = Seq::<(Seq<u8>, Seq<u8>)>::empty();
    proof {
        assert(annotation_views(annotations@) =~= decoded_annotations(raw_anns));
    }
    while p < end
        invariant
            p <= end == s@.len(),
            range_wf(s@, hostname_range),
            spec_parse_config(s@) == spec_config_fields(
                s@,
                p as int,
                end as int,
                RawConfig { hostname: range_bytes(s@, hostname_range), annotations: raw_anns },
            ),
            annotation_views(annotations@) == decoded_annotations(raw_anns),
            anns_utf8_ok(raw_anns),
        decreases end - p,
    {
        let ghost acc = RawConfig {
            hostname: range_bytes(s@, hostname_range),
            annotations: raw_anns,
        };
        let (tag, q) = match read_varint(s, p, end) {
            Some(t) => t,
            None => {
                return Err(Error::MalformedConfig);
            },
        };
        let field = tag >> 3u64;
        let wt = tag & 7;
        if field == 0 {
            return Err(Error::MalformedConfig);
        }
        if (field == 2 || field == 7) && wt == 2 {
            let (len, q2) = match read_varint(s, q, end) {
                Some(t) => t,
                None => {
                    return Err(Error::MalformedConfig);
                },
            };
            if len > (end - q2) as u64 {
                return Err(Error::MalformedConfig);
            }
            let len_us = len as usize;
            if field == 2 {
                hostname_range = Some((q2, q2 + len_us));
                p = q2 + len_us;
            } else {
                match parse_entry(s, q2, q2 + len_us) {
                    Some((k, v)) => {
                        let ghost prev_views = annotation_views(annotations@);
                        let ghost prev_dec = decoded_annotations(raw_anns);
                        proof {
                            let se = spec_entry_fields(
                                s@,
                                q2 as int,
                                (q2 + len_us) as int,
                                Seq::<u8>::empty(),
                                Seq::<u8>::empty(),
                            );
                            match se {
                                Some(raw_e) => {
                                    assert(k@ == decode_utf8(raw_e.0));
                                    assert(v@ == decode_utf8(raw_e.1));
                                    assert(valid_utf8(raw_e.0) && valid_utf8(raw_e.1));
                                    lemma_anns_utf8_push(raw_anns, raw_e);
                                    raw_anns = raw_anns.push(raw_e);
                                    assert(decoded_annotations(raw_anns) =~= prev_dec.push(
                                        (decode_utf8(raw_e.0), decode_utf8(raw_e.1)),
                                    ));
                                },
                                None => {
                                    assert(false);
                                },
                            }
                        }
                        annotations.push((k, v));
                        proof {
                            assert(annotation_views(annotations@) =~= prev_views.push((k@, v@)));
                            assert(annotation_views(annotations@) == decoded_annotations(
                                raw_anns,
                            ));
                        }
                        p = q2 + len_us;
                    },
                    None => {
                        proof {
                            let se = spec_entry_fields(
                                s@,
                                q2 as int,
                                (q2 + len_us) as int,
                                Seq::<u8>::empty(),
                                Seq::<u8>::empty(),
                            );
                            match se {
                                Some(raw_e) => {
                                    let pushed = RawConfig {
                                        hostname: acc.hostname,
                                        annotations: raw_anns.push(raw_e),
                                    };
                                    assert(spec_parse_config(s@) == spec_config_fields(
                                        s@,
                                        (q2 + len_us) as int,
                                        end as int,
                                        pushed,
                                    ));
                                    lemma_config_fields_extends(
                                        s@,
                                        (q2 + len_us) as int,
                                        end as int,
                                        pushed,
                                    );
                                    assert(!(valid_utf8(raw_e.0) && valid_utf8(raw_e.1)));
                                    match spec_parse_config(s@) {
                                        Some(res) => {
                                            assert(res.annotations[raw_anns.len() as int]
                                                == pushed.annotations[raw_anns.len() as int]);
                                            assert(!config_utf8_ok(res));
                                        },
                                        None => {},
                                    }
                                    assert(!config_wf(s@));
                                },
                                None => {
                                    assert(!config_wf(s@));
                                },
                            }
                        }
                        return Err(Error::MalformedConfig);
                    },
                }
            }
        } else {
            p = match skip_field(s, q, end, wt) {
                Some(np) => np,
                None => {
                    return Err(Error::MalformedConfig);
                },
            };
        }
    }
    let hostname: String = match hostname_range {
        None => {
            proof {
                assert(decode_utf8(Seq::<u8>::empty()) =~= Seq::<char>::empty());
            }
            String::new()
        },
        Some((a, b)) => match str_from_utf8(slice_subrange(s, a, b)) {
            Some(t) => t.to_owned(),
            None => {
                return Err(Error::MalformedConfig);
            },
        },
    };
    Ok(PodSandboxConfig { hostname, annotations })
}

} // verus!
