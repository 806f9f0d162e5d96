//! The protocol registry: which protocols an endpoint recognises, and how
//! the first bytes of a stream select one of them.

use vstd::prelude::*;

verus! {

/// One protocol that can be recognised, described by the bytes that its
/// preamble starts with and by the length of that fixed preamble.
#[derive(Debug)]
pub struct ProtocolVariant {
    pub id: u8,
    pub signature: Vec<u8>,
    pub preamble_len: usize,
}

/// The registered protocol variants, in priority order.
#[derive(Debug)]
pub struct SupportedProtocols {
    pub variants: Vec<ProtocolVariant>,
}

/// What the bytes read so far say about the protocol of a stream.
#[derive(Clone, Copy, Debug, PartialEq, Eq, Structural)]
pub enum Detection {
    /// The variant at this position of the registry owns the stream.
    Recognized(usize),
    /// No decision yet: more bytes are needed.
    Incomplete,
    /// No variant will own this stream.
    Unrecognized,
}

/// Scans the signatures from position `from` on. A signature that the bytes
/// start with wins. Below the byte budget, a signature that the bytes may
/// still grow into postpones the decision, so that a later variant never
/// wins over an earlier one that is still possible.
pub open spec fn detect_from(
    signatures: Seq<Seq<u8>>,
    bytes: Seq<u8>,
    budget: nat,
    from: int,
) -> Detection
    decreases signatures.len() - from,
{
    if from < 0 || from >= signatures.len() {
        Detection::Unrecognized
    } else if signatures[from].is_prefix_of(bytes) {
        Detection::Recognized(from as usize)
    } else if bytes.len() < budget && bytes.is_prefix_of(signatures[from]) {
        Detection::Incomplete
    } else {
        detect_from(signatures, bytes, budget, from + 1)
    }
}

/// Whether `bytes` starts with `prefix`.
pub fn starts_with(bytes: &[u8], prefix: &[u8]) -> (r: bool)
    ensures
        r == prefix@.is_prefix_of(bytes@),
{
    if prefix.len() > bytes.len() {
        return false;
    }
    let mut i: usize = 0;
    while i < prefix.len()
        invariant
            i <= prefix.len() <= bytes.len(),
            forall|k: int| 0 <= k < i ==> prefix@[k] == bytes@[k],
        decreases prefix.len() - i,
    {
        if prefix[i] != bytes[i] {
            assert(bytes@.subrange(0, prefix@.len() as int)[i as int] == bytes@[i as int]);
            return false;
        }
        i += 1;
    }
    assert(prefix@ =~= bytes@.subrange(0, prefix@.len() as int));
    true
}

impl ProtocolVariant {
    /// The variant as plain values.
    pub open spec fn view(&self) -> (u8, Seq<u8>, usize) {
        (self.id, self.signature@, self.preamble_len)
    }

    /// A copy of the variant.
    pub fn duplicate(&self) -> (r: ProtocolVariant)
        ensures
            r@ == self@,
    {
        ProtocolVariant {
            id: self.id,
            signature: vstd::slice::slice_to_vec(self.signature.as_slice()),
            preamble_len: self.preamble_len,
        }
    }
}

impl SupportedProtocols {
    /// The variants as plain values, in priority order.
    pub open spec fn view(&self) -> Seq<(u8, Seq<u8>, usize)> {
        Seq::new(self.variants@.len(), |i: int| self.variants@[i]@)
    }

    /// The signatures of the variants, in priority order.
    pub open spec fn signatures(&self) -> Seq<Seq<u8>> {
        Seq::new(self.variants@.len(), |i: int| self.variants@[i].signature@)
    }

    /// A copy of the registry.
    pub fn duplicate(&self) -> (r: SupportedProtocols)
        ensures
            r@ == self@,
    {
        let mut variants: Vec<ProtocolVariant> = Vec::new();
        let mut i: usize = 0;
        while i < self.variants.len()
            invariant
                i <= self.variants.len(),
                variants@.len() == i,
                forall|k: int| 0 <= k < i ==> variants@[k]@ == self.variants@[k]@,
            decreases self.variants.len() - i,
        {
            variants.push(self.variants[i].duplicate());
            i += 1;
        }
        let r = SupportedProtocols { variants };
        assert(r@ =~= self@);
        r
    }

    /// Classifies a stream by the bytes read from it so far, against a
    /// budget of bytes after which an undecided stream is given up.
    pub fn detect(&self, bytes: &[u8], budget: usize) -> (r: Detection)
        ensures
            r == detect_from(self.signatures(), bytes@, budget as nat, 0),
            r matches Detection::Recognized(i) ==> i < self.variants@.len(),
    {
        let mut i: usize = 0;
        while i < self.variants.len()
            invariant
                i <= self.variants.len(),
                detect_from(self.signatures(), bytes@, budget as nat, 0) == detect_from(
                    self.signatures(),
                    bytes@,
                    budget as nat,
                    i as int,
                ),
            decreases self.variants.len() - i,
        {
            let signature = self.variants[i].signature.as_slice();
            assert(signature@ == self.signatures()[i as int]);
            if starts_with(bytes, signature) {
                return Detection::Recognized(i);
            }
            if bytes.len() < budget && starts_with(signature, bytes) {
                return Detection::Incomplete;
            }
            i += 1;
        }
        Detection::Unrecognized
    }
}

/// A stream that starts with no registered signature is refused as soon as
/// the byte budget is used up, and at once if no signature can still come
/// of it. At or above the budget the decision is never postponed.
pub proof fn unmatched_stream_is_refused(
    signatures: Seq<Seq<u8>>,
    bytes: Seq<u8>,
    budget: nat,
    from: int,
)
    requires
        0 <= from,
    ensures
        bytes.len() >= budget ==> detect_from(signatures, bytes, budget, from)
            != Detection::Incomplete,
        ((forall|j: int| from <= j < signatures.len() ==> !(#[trigger] signatures[j]).is_prefix_of(
            bytes,
        )) && (bytes.len() >= budget || forall|j: int|
            from <= j < signatures.len() ==> !bytes.is_prefix_of(#[trigger] signatures[j])))
            ==> detect_from(signatures, bytes, budget, from) == Detection::Unrecognized,
    decreases signatures.len() - from,
{
    if from < signatures.len() {
        unmatched_stream_is_refused(signatures, bytes, budget, from + 1);
    }
}

/// A recognised variant lies in the registry, its signature starts the
/// stream, and no variant before it does.
pub proof fn recognized_is_first_match(
    signatures: Seq<Seq<u8>>,
    bytes: Seq<u8>,
    budget: nat,
    from: int,
    index: usize,
)
    requires
        0 <= from,
        signatures.len() <= usize::MAX,
        detect_from(signatures, bytes, budget, from) == Detection::Recognized(index),
    ensures
        from <= index < signatures.len(),
        signatures[index as int].is_prefix_of(bytes),
        forall|j: int| from <= j < index ==> !(#[trigger] signatures[j]).is_prefix_of(bytes),
    decreases signatures.len() - from,
{
    if from < signatures.len() && !signatures[from].is_prefix_of(bytes) {
        recognized_is_first_match(signatures, bytes, budget, from + 1, index);
    }
}

/// Detection is a single-pass decision: where the byte budget covers every
/// signature, once a variant is recognised no further bytes of the stream
/// select another one.
pub proof fn recognition_is_final(
    signatures: Seq<Seq<u8>>,
    bytes: Seq<u8>,
    more: Seq<u8>,
    budget: nat,
    from: int,
    index: usize,
)
    requires
        0 <= from,
        signatures.len() <= usize::MAX,
        forall|j: int| 0 <= j < signatures.len() ==> (#[trigger] signatures[j]).len() <= budget,
        detect_from(signatures, bytes, budget, from) == Detection::Recognized(index),
    ensures
        detect_from(signatures, bytes + more, budget, from) == Detection::Recognized(index),
    decreases signatures.len() - from,
{
    let longer = bytes + more;
    if from < signatures.len() {
        let s = signatures[from];
        if s.is_prefix_of(bytes) {
            assert(s =~= longer.subrange(0, s.len() as int));
        } else {
            if s.is_prefix_of(longer) {
                assert(s.len() <= bytes.len() ==> s =~= bytes.subrange(0, s.len() as int));
                assert(s.len() > bytes.len() ==> bytes =~= s.subrange(0, bytes.len() as int));
            }
            if longer.is_prefix_of(s) {
                assert(bytes =~= s.subrange(0, bytes.len() as int));
            }
            recognition_is_final(signatures, bytes, more, budget, from + 1, index);
        }
    }
}

} // verus!
