use vstd::prelude::*;

verus! {

/// Which registry-backed string property of a device is being read.
pub enum PropertyKind {
    FriendlyName,
    Description,
}

/// The prefix of a byte sequence that precedes its first null byte: the
/// whole sequence when no byte is null. This is the part of a property
/// buffer that carries text; the operating system pads the rest with nulls.
pub open spec fn null_cut(s: Seq<u8>) -> Seq<u8>
    decreases s.len(),
{
    if s.len() == 0 {
        s
    } else if s[0] == 0 {
        Seq::<u8>::empty()
    } else {
        seq![s[0]] + null_cut(s.subrange(1, s.len() as int))
    }
}

/// The characters that lossy UTF-8 decoding yields for a byte sequence:
/// what `String::from_utf8_lossy` returns, as a function of the bytes
/// alone.
pub uninterp spec fn utf8_lossy(bytes: Seq<u8>) -> Seq<char>;

/// Relies on `String::from_utf8_lossy`: the result depends on the bytes
/// alone; every decoded character — including each replacement character
/// standing for an invalid sequence — consumes at least one input byte, so
/// there are never more characters than bytes; and a null character can
/// only be decoded from a null input byte, since the replacement character
/// is not null.
#[verifier::external_body]
fn from_utf8_lossy(bytes: &Vec<u8>) -> (r: String)
    ensures
        r@ == utf8_lossy(bytes@),
        r@.len() <= bytes@.len(),
        (forall|i: int| 0 <= i < bytes@.len() ==> bytes@[i] != 0) ==> (forall|j: int|
            0 <= j < r@.len() ==> r@[j] != '\0'),
{
    String::from_utf8_lossy(bytes.as_slice()).into_owned()
}

/// `null_cut` cuts at the first null: whatever position holds a null byte,
/// the cut stops no later than it, and the cut itself holds no null byte.
pub proof fn lemma_null_cut_bounds(s: Seq<u8>)
    ensures
        null_cut(s).len() <= s.len(),
        forall|j: int| 0 <= j < null_cut(s).len() ==> null_cut(s)[j] != 0,
        forall|p: int| 0 <= p < s.len() && s[p] == 0 ==> null_cut(s).len() <= p,
    decreases s.len(),
{
    if s.len() == 0 || s[0] == 0 {
    } else {
        let t = s.subrange(1, s.len() as int);
        lemma_null_cut_bounds(t);
        assert forall|j: int| 0 <= j < null_cut(s).len() implies null_cut(s)[j] != 0 by {
            if j > 0 {
                assert(null_cut(s)[j] == null_cut(t)[j - 1]);
            }
        }
        assert forall|p: int| 0 <= p < s.len() && s[p] == 0 implies null_cut(s).len() <= p by {
            assert(t[p - 1] == s[p]);
        }
    }
}

/// Where every byte before `i` is non-null and `i` is either the length or
/// a null position, the cut is exactly the first `i` bytes.
proof fn lemma_null_cut_at(s: Seq<u8>, i: int)
    requires
        0 <= i <= s.len(),
        forall|j: int| 0 <= j < i ==> s[j] != 0,
        i == s.len() || s[i] == 0,
    ensures
        null_cut(s) == s.subrange(0, i),
    decreases s.len(),
{
    if i == 0 {
        assert(null_cut(s) =~= s.subrange(0, 0));
    } else {
        let t = s.subrange(1, s.len() as int);
        lemma_null_cut_at(t, i - 1);
        assert(null_cut(s) =~= s.subrange(0, i));
    }
}

/// Copy the text-bearing prefix of a property buffer: every byte before
/// the first null, and the whole buffer when no byte is null.
fn prefix_before_null(buf: &Vec<u8>) -> (r: Vec<u8>)
    ensures
        r@ == null_cut(buf@),
{
    let mut r: Vec<u8> = Vec::new();
    let mut i: usize = 0;
    while i < buf.len() && buf[i] != 0
        invariant
            i <= buf@.len(),
            forall|j: int| 0 <= j < i ==> buf@[j] != 0,
            r@ == buf@.subrange(0, i as int),
        decreases buf@.len() - i,
    {
        r.push(buf[i]);
        i = i + 1;
        proof {
            assert(r@ =~= buf@.subrange(0, i as int));
        }
    }
    proof {
        lemma_null_cut_at(buf@, i as int);
    }
    r
}

/// Decode a successful property buffer as the report shows it: cut the
/// buffer at its first null byte, then decode the prefix as UTF-8,
/// replacing invalid sequences rather than failing. The decoded text never
/// runs past an embedded null and never contains a null character.
pub fn decode_property_buffer(buf: &Vec<u8>) -> (r: String)
    ensures
        r@ == utf8_lossy(null_cut(buf@)),
        forall|p: int| 0 <= p < buf@.len() && buf@[p] == 0 ==> r@.len() <= p,
        forall|j: int| 0 <= j < r@.len() ==> r@[j] != '\0',
{
    let prefix = prefix_before_null(buf);
    proof {
        lemma_null_cut_bounds(buf@);
    }
    from_utf8_lossy(&prefix)
}

/// The decoded text of one property query, over the outcome the operating
/// system gave: nothing at all when the query failed, the decoded buffer
/// otherwise.
pub open spec fn decoded_property(outcome: Option<Seq<u8>>) -> Option<Seq<char>> {
    match outcome {
        None => None,
        Some(b) => Some(utf8_lossy(null_cut(b))),
    }
}

/// Read one device property from the outcome of its query. A failed query
/// — whatever the reason, including the property simply being absent —
/// yields `None` and never an error; a successful buffer is cut at its
/// first null byte and decoded leniently. The result is the same for every
/// property kind: the kind only selects which query was made.
pub fn read_property(kind: PropertyKind, outcome: &Option<Vec<u8>>) -> (r: Option<String>)
    ensures
        r.deep_view() == decoded_property(outcome.deep_view()),
        r is None <==> outcome is None,
        match (outcome, r) {
            (Some(b), Some(s)) => {
                &&& s@ == utf8_lossy(null_cut(b@))
                &&& forall|p: int| 0 <= p < b@.len() && b@[p] == 0 ==> s@.len() <= p
                &&& forall|j: int| 0 <= j < s@.len() ==> s@[j] != '\0'
            },
            (None, None) => true,
            _ => false,
        },
{
    let _ = kind;
    let r: Option<String> = match outcome {
        None => None,
        Some(buf) => Some(decode_property_buffer(buf)),
    };
    proof {
        match outcome {
            Some(buf) => {
                assert(buf.deep_view() =~= buf@);
            },
            None => {},
        }
    }
    r
}

} // verus!
