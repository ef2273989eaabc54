//! Propagation context codec.
//!
//! An inbound request may carry a trace context in a single designated
//! header whose value has the composite form
//! `version-traceid-spanid-flags`: a 2-digit version (always `00`), a
//! 32-digit trace id, a 16-digit span id and 2 flag digits, all
//! lowercase hex, separated by hyphens. A value whose trace id or span
//! id is all zero is reserved as invalid. Extraction never fails: a
//! missing or malformed value simply yields no context.

use vstd::prelude::*;
use vstd::string::StringSliceAdditionalSpecFns;
use vstd::string::StrSliceExecFns;
use crate::hex::{
    is_lower_hex, hex_seq_val, hex_render, lemma_hex_val_bound, lemma_hex_render_of_val,
    lemma_pow16_widths, parse_hex_range, render_hex,
};

verus! {

/// An immutable cross-process trace context: the identifiers a child
/// span inherits, the sampling flags, and whether the context came in
/// from a remote process.
#[derive(Clone, Copy, PartialEq, Eq, Structural, Debug)]
pub struct TraceContext {
    pub trace_id: u128,
    pub span_id: u64,
    pub trace_flags: u8,
    pub is_remote: bool,
}

impl TraceContext {
    /// Both identifiers are outside the reserved all-zero values.
    pub open spec fn wf(&self) -> bool {
        self.trace_id != 0 && self.span_id != 0
    }

    /// The sampled bit of the flags field.
    pub open spec fn spec_sampled(&self) -> bool {
        self.trace_flags & 1 == 1
    }

    /// Whether the sampled flag is set.
    pub fn sampled(&self) -> (r: bool)
        ensures
            r == self.spec_sampled(),
    {
        self.trace_flags & 1 == 1
    }
}

/// The composite header value is well formed: 55 bytes, version `00`,
/// hyphens at the fixed offsets, lowercase hex fields of fixed widths,
/// and identifiers that are not all zero.
pub open spec fn valid_traceparent(s: Seq<u8>) -> bool {
    &&& s.len() == 55
    &&& s[0] == 48
    &&& s[1] == 48
    &&& s[2] == 45
    &&& s[35] == 45
    &&& s[52] == 45
    &&& is_lower_hex(s.subrange(3, 35))
    &&& is_lower_hex(s.subrange(36, 52))
    &&& is_lower_hex(s.subrange(53, 55))
    &&& hex_seq_val(s.subrange(3, 35)) != 0
    &&& hex_seq_val(s.subrange(36, 52)) != 0
}

/// The context denoted by a well-formed composite header value.
pub open spec fn parsed_context(s: Seq<u8>) -> TraceContext {
    TraceContext {
        trace_id: hex_seq_val(s.subrange(3, 35)) as u128,
        span_id: hex_seq_val(s.subrange(36, 52)) as u64,
        trace_flags: hex_seq_val(s.subrange(53, 55)) as u8,
        is_remote: true,
    }
}

/// The canonical composite header value of a context.
pub open spec fn rendered_traceparent(c: TraceContext) -> Seq<u8> {
    seq![48u8, 48u8, 45u8] + hex_render(c.trace_id as nat, 32) + seq![45u8] + hex_render(
        c.span_id as nat,
        16,
    ) + seq![45u8] + hex_render(c.trace_flags as nat, 2)
}

/// Parse a composite header value. Yields the denoted context exactly
/// on well-formed input and nothing otherwise; malformed input is a
/// normal outcome, never an error.
pub fn parse_traceparent(s: &[u8]) -> (r: Option<TraceContext>)
    ensures
        r is Some <==> valid_traceparent(s@),
        r matches Some(c) ==> c == parsed_context(s@) && c.wf() && c.is_remote,
{
    if s.len() != 55 {
        return None;
    }
    if !(s[0] == 48 && s[1] == 48 && s[2] == 45 && s[35] == 45 && s[52] == 45) {
        return None;
    }
    let t = match parse_hex_range(s, 3, 35) {
        Some(v) => v,
        None => { return None; },
    };
    let sp = match parse_hex_range(s, 36, 52) {
        Some(v) => v,
        None => { return None; },
    };
    let fl = match parse_hex_range(s, 53, 55) {
        Some(v) => v,
        None => { return None; },
    };
    proof {
        lemma_hex_val_bound(s@.subrange(3, 35));
        lemma_hex_val_bound(s@.subrange(36, 52));
        lemma_hex_val_bound(s@.subrange(53, 55));
        lemma_pow16_widths();
    }
    if t == 0 || sp == 0 {
        return None;
    }
    Some(
        TraceContext {
            trace_id: t,
            span_id: sp as u64,
            trace_flags: fl as u8,
            is_remote: true,
        },
    )
}

/// Render a context as its canonical composite header value. For a
/// well-formed context the result is itself well formed and denotes
/// the same identifiers and flags.
pub fn render_traceparent(c: &TraceContext) -> (r: Vec<u8>)
    ensures
        r@ == rendered_traceparent(*c),
        c.wf() ==> valid_traceparent(r@),
        c.wf() ==> parsed_context(r@) == (TraceContext { is_remote: true, ..*c }),
{
    proof {
        lemma_pow16_widths();
    }
    let mut out: Vec<u8> = Vec::new();
    out.push(48);
    out.push(48);
    out.push(45);
    let mut t = render_hex(c.trace_id, 32);
    out.append(&mut t);
    out.push(45);
    let mut sp = render_hex(c.span_id as u128, 16);
    out.append(&mut sp);
    out.push(45);
    let mut fl = render_hex(c.trace_flags as u128, 2);
    out.append(&mut fl);
    proof {
        let s = rendered_traceparent(*c);
        assert(out@ =~= s);
        if c.wf() {
            assert(s.subrange(3, 35) =~= hex_render(c.trace_id as nat, 32));
            assert(s.subrange(36, 52) =~= hex_render(c.span_id as nat, 16));
            assert(s.subrange(53, 55) =~= hex_render(c.trace_flags as nat, 2));
        }
    }
    out
}

/// Law: the codec round-trips. Re-rendering the context extracted from
/// any well-formed composite header value reproduces the identical
/// byte string.
pub proof fn lemma_extract_inject_roundtrip(s: Seq<u8>)
    requires
        valid_traceparent(s),
    ensures
        rendered_traceparent(parsed_context(s)) == s,
{
    let t = s.subrange(3, 35);
    let sp = s.subrange(36, 52);
    let fl = s.subrange(53, 55);
    lemma_hex_val_bound(t);
    lemma_hex_val_bound(sp);
    lemma_hex_val_bound(fl);
    lemma_pow16_widths();
    lemma_hex_render_of_val(t);
    lemma_hex_render_of_val(sp);
    lemma_hex_render_of_val(fl);
    assert(rendered_traceparent(parsed_context(s)) =~= s);
}

/// The ASCII-lowercase image of a byte.
pub open spec fn lower_byte(b: u8) -> u8 {
    if 65 <= b && b <= 90 {
        (b + 32) as u8
    } else {
        b
    }
}

/// The ASCII-lowercase image of a byte string.
pub open spec fn lower_seq(s: Seq<u8>) -> Seq<u8> {
    s.map(|i: int, b: u8| lower_byte(b))
}

/// First value stored under a name whose lowercase image is `key`.
pub open spec fn lookup(entries: Seq<(Seq<u8>, Seq<u8>)>, key: Seq<u8>) -> Option<Seq<u8>>
    decreases entries.len(),
{
    if entries.len() == 0 {
        Option::None
    } else if lower_seq(entries[0].0) == key {
        Option::Some(entries[0].1)
    } else {
        lookup(entries.subrange(1, entries.len() as int), key)
    }
}

/// The designated header name, `traceparent`, as bytes.
pub open spec fn traceparent_key() -> Seq<u8> {
    seq![116u8, 114u8, 97u8, 99u8, 101u8, 112u8, 97u8, 114u8, 101u8, 110u8, 116u8]
}

/// A header carrier: an ordered list of name/value byte-string pairs
/// with case-insensitive lookup by name. Extraction only reads it;
/// injection only appends to it.
pub struct HeaderCarrier {
    entries: Vec<(Vec<u8>, Vec<u8>)>,
}

impl View for HeaderCarrier {
    type V = Seq<(Seq<u8>, Seq<u8>)>;

    closed spec fn view(&self) -> Seq<(Seq<u8>, Seq<u8>)> {
        self.entries@.map(|i: int, e: (Vec<u8>, Vec<u8>)| (e.0@, e.1@))
    }
}

/// The ASCII-lowercase image of a byte, executably.
fn ascii_lower(b: u8) -> (r: u8)
    ensures
        r == lower_byte(b),
{
    if 65 <= b && b <= 90 {
        b + 32
    } else {
        b
    }
}

/// Whether a stored header name matches an already-lowercase key,
/// ignoring ASCII case.
fn name_matches(name: &[u8], key: &[u8]) -> (r: bool)
    ensures
        r == (lower_seq(name@) == key@),
{
    if name.len() != key.len() {
        assert(lower_seq(name@).len() == name@.len());
        return false;
    }
    let n = name.len();
    let mut i: usize = 0;
    while i < n
        invariant
            n == name@.len() == key@.len(),
            i <= n,
            forall|j: int| 0 <= j < i ==> lower_seq(name@)[j] == key@[j],
        decreases n - i,
    {
        if ascii_lower(name[i]) != key[i] {
            assert(lower_seq(name@)[i as int] != key@[i as int]);
            return false;
        }
        i = i + 1;
    }
    proof {
        assert(lower_seq(name@) =~= key@);
    }
    true
}

impl HeaderCarrier {
    /// An empty carrier.
    pub fn new() -> (r: HeaderCarrier)
        ensures
            r@ == Seq::<(Seq<u8>, Seq<u8>)>::empty(),
    {
        let r = HeaderCarrier { entries: Vec::new() };
        proof {
            assert(r@ =~= Seq::<(Seq<u8>, Seq<u8>)>::empty());
        }
        r
    }

    /// Append one header, keeping all existing entries.
    pub fn append(&mut self, name: Vec<u8>, value: Vec<u8>)
        ensures
            final(self)@ == old(self)@.push((name@, value@)),
    {
        let ghost n = name@;
        let ghost v = value@;
        self.entries.push((name, value));
        proof {
            assert(self@ =~= old(self)@.push((n, v)));
        }
    }

    /// Append one header given as string slices.
    pub fn append_str(&mut self, name: &str, value: &str)
        ensures
            final(self)@ == old(self)@.push((name.spec_bytes(), value.spec_bytes())),
    {
        self.append(name.as_bytes_vec(), value.as_bytes_vec());
    }

    /// First value stored under `key`, compared case-insensitively.
    /// `key` itself must already be lowercase.
    pub fn get<'a>(&'a self, key: &[u8]) -> (r: Option<&'a Vec<u8>>)
        requires
            lower_seq(key@) == key@,
        ensures
            match lookup(self@, key@) {
                Option::None => r is None,
                Option::Some(v) => r matches Some(x) && x@ == v,
            },
    {
        let n = self.entries.len();
        proof {
            assert(self@.subrange(0, n as int) =~= self@);
        }
        let mut i: usize = 0;
        while i < n
            invariant
                n == self.entries@.len(),
                i <= n,
                lookup(self@, key@) == lookup(self@.subrange(i as int, n as int), key@),
            decreases n - i,
        {
            let e = &self.entries[i];
            let ghost rest = self@.subrange(i as int, n as int);
            proof {
                assert(rest[0] == self@[i as int]);
                assert(self@[i as int] == (self.entries@[i as int].0@, self.entries@[i as int].1@));
            }
            if name_matches(e.0.as_slice(), key) {
                return Some(&e.1);
            }
            proof {
                assert(rest.subrange(1, rest.len() as int) =~= self@.subrange(
                    i + 1 as int,
                    n as int,
                ));
            }
            i = i + 1;
        }
        proof {
            assert(self@.subrange(n as int, n as int) =~= Seq::<(Seq<u8>, Seq<u8>)>::empty());
        }
        None
    }
}

/// The designated header name as an executable byte vector, lowercase.
pub fn traceparent_key_bytes() -> (k: Vec<u8>)
    ensures
        k@ == traceparent_key(),
        lower_seq(k@) == k@,
{
    let mut k: Vec<u8> = Vec::new();
    k.push(116);
    k.push(114);
    k.push(97);
    k.push(99);
    k.push(101);
    k.push(112);
    k.push(97);
    k.push(114);
    k.push(101);
    k.push(110);
    k.push(116);
    proof {
        assert(k@ =~= traceparent_key());
        assert(lower_seq(k@) =~= k@);
    }
    k
}

/// Extract a trace context from a carrier: look up the designated
/// header case-insensitively and parse its value. A missing, malformed
/// or all-zero-identifier value yields no context, never an error.
pub fn extract(carrier: &HeaderCarrier) -> (r: Option<TraceContext>)
    ensures
        match lookup(carrier@, traceparent_key()) {
            Option::None => r is None,
            Option::Some(v) => {
                &&& r is Some <==> valid_traceparent(v)
                &&& r matches Some(c) ==> c == parsed_context(v)
            },
        },
        r matches Some(c) ==> c.wf() && c.is_remote,
{
    let key = traceparent_key_bytes();
    match carrier.get(key.as_slice()) {
        None => None,
        Some(value) => parse_traceparent(value.as_slice()),
    }
}

/// Inject a context into a carrier: append the designated header with
/// the canonical composite rendering of `c`.
pub fn inject(c: &TraceContext, carrier: &mut HeaderCarrier)
    ensures
        final(carrier)@ == old(carrier)@.push((traceparent_key(), rendered_traceparent(*c))),
{
    let key = traceparent_key_bytes();
    let value = render_traceparent(c);
    carrier.append(key, value);
}

} // verus!
