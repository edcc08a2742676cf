//! Conversion between host text and the native library's nul-terminated byte buffers.
//!
//! Text goes to the native side as its UTF-8 bytes followed by one nul ([`SpiceString`]).
//! Text comes back in a fixed-capacity buffer that the native side fills and terminates with a
//! nul; only the bytes before the first nul are text ([`SpiceStr`], [`SpiceString::from_buffer`]).
use vstd::prelude::*;
use vstd::string::StringSliceAdditionalSpecFns;
use vstd::utf8::*;

verus! {

broadcast use vstd::utf8::encode_utf8_decode_utf8, vstd::utf8::encode_utf8_valid_utf8;

/// No byte of `b` is a nul.
pub open spec fn nul_free(b: Seq<u8>) -> bool {
    forall|i: int| 0 <= i < b.len() ==> b[i] != 0
}

/// The bytes of `b` before its first nul; all of `b` when it holds none.
pub open spec fn before_nul(b: Seq<u8>) -> Seq<u8>
    decreases b.len(),
{
    if b.len() == 0 {
        b
    } else if b[0] == 0 {
        Seq::empty()
    } else {
        seq![b[0]] + before_nul(b.drop_first())
    }
}

/// What the native side receives for the host text `s`: its UTF-8 bytes and a nul.
pub open spec fn native_text(s: Seq<char>) -> Seq<u8> {
    encode_utf8(s).push(0)
}

/// What `String::from_utf8_lossy` makes of `b`.
pub uninterp spec fn lossy_text(b: Seq<u8>) -> Seq<char>;

/// The host text that the bytes `b` read as: their UTF-8 decoding, where invalid sequences are
/// replaced rather than refused.
pub open spec fn host_text(b: Seq<u8>) -> Seq<char> {
    if valid_utf8(b) {
        decode_utf8(b)
    } else {
        lossy_text(b)
    }
}

/// Where the first nul of `b` stands at `k`, the text before it is `b`'s first `k` bytes.
pub proof fn lemma_before_nul_at(b: Seq<u8>, k: int)
    requires
        0 <= k < b.len(),
        b[k] == 0,
        nul_free(b.take(k)),
    ensures
        before_nul(b) == b.take(k),
    decreases k,
{
    if k > 0 {
        assert(b[0] != 0) by {
            assert(b.take(k)[0] == b[0]);
        }
        assert(b.drop_first().take(k - 1) =~= b.take(k).drop_first());
        assert(nul_free(b.drop_first().take(k - 1))) by {
            assert forall|i: int| 0 <= i < k - 1 implies #[trigger] b.drop_first().take(k - 1)[i] != 0 by {
                assert(b.take(k)[i + 1] == b.drop_first().take(k - 1)[i]);
            }
        }
        lemma_before_nul_at(b.drop_first(), k - 1);
        assert(b.take(k) =~= seq![b[0]] + b.drop_first().take(k - 1));
    } else {
        assert(b.take(0) =~= Seq::<u8>::empty());
    }
}

/// A buffer without a nul is all text.
pub proof fn lemma_before_nul_whole(b: Seq<u8>)
    requires
        nul_free(b),
    ensures
        before_nul(b) == b,
    decreases b.len(),
{
    if b.len() > 0 {
        lemma_before_nul_whole(b.drop_first());
        assert(b =~= seq![b[0]] + b.drop_first());
    }
}

/// Host text that holds no nul byte comes back unchanged from its own native form: reading the
/// buffer up to its first nul and decoding it gives the text that was sent.
pub proof fn lemma_native_round_trip(s: Seq<char>)
    requires
        nul_free(encode_utf8(s)),
    ensures
        before_nul(native_text(s)) == encode_utf8(s),
        host_text(before_nul(native_text(s))) == s,
{
    let b = native_text(s);
    let k = encode_utf8(s).len() as int;
    assert(b.take(k) =~= encode_utf8(s));
    lemma_before_nul_at(b, k);
}

/// Text made of ASCII characters other than nul has a nul-free native form, byte for character.
pub proof fn lemma_ascii_nul_free(s: Seq<char>)
    requires
        forall|i: int| 0 <= i < s.len() ==> '\u{1}' <= #[trigger] s[i] <= '\u{7f}',
    ensures
        nul_free(encode_utf8(s)),
        encode_utf8(s).len() == s.len(),
{
    assert(is_ascii_chars(s));
    is_ascii_chars_encode_utf8(s);
    assert forall|i: int| 0 <= i < encode_utf8(s).len() implies #[trigger] encode_utf8(s)[i] != 0 by {
        assert(s[i] as u8 == encode_utf8(s)[i]);
    }
}

/// Relies on `String::from_utf8_lossy`: valid UTF-8 is decoded as it is, and any other input is
/// decoded with invalid sequences replaced.
#[verifier::external_body]
fn decode_lossy(b: &[u8]) -> (r: String)
    ensures
        r@ == lossy_text(b@),
        valid_utf8(b@) ==> r@ == decode_utf8(b@),
{
    String::from_utf8_lossy(b).into_owned()
}

/// Decodes `b` as host text.
fn decode_host_text(b: &[u8]) -> (r: String)
    ensures
        r@ == host_text(b@),
{
    decode_lossy(b)
}

/// Where the first nul of `b` stands, or `None` when `b` holds none.
pub fn find_nul(b: &[u8]) -> (r: Option<usize>)
    ensures
        r is None <==> nul_free(b@),
        r matches Some(k) ==> k < b@.len() && b@[k as int] == 0 && nul_free(b@.take(k as int)),
        r matches Some(k) ==> before_nul(b@) == b@.take(k as int),
        r is None ==> before_nul(b@) == b@,
{
    let mut i: usize = 0;
    while i < b.len()
        invariant
            i <= b@.len(),
            nul_free(b@.take(i as int)),
        decreases b@.len() - i,
    {
        if b[i] == 0 {
            proof {
                lemma_before_nul_at(b@, i as int);
            }
            return Some(i);
        }
        assert(b@.take(i as int + 1) =~= b@.take(i as int).push(b@[i as int]));
        i = i + 1;
    }
    assert(b@.take(i as int) =~= b@);
    proof {
        lemma_before_nul_whole(b@);
    }
    None
}

/// The text of a native output buffer: the bytes before its first nul (all of them when it
/// holds none), decoded as host text. Never fails.
pub fn text_before_nul(b: &[u8]) -> (r: String)
    ensures
        r@ == host_text(before_nul(b@)),
{
    match find_nul(b) {
        Some(k) => {
            let text = &b[0..k];
            assert(text@ =~= b@.take(k as int));
            decode_host_text(text)
        },
        None => decode_host_text(b),
    }
}

/// The host text holds a nul byte, so it has no native form.
#[derive(Debug, Clone, Copy, PartialEq, Eq)]
pub struct NulError {
    /// Where the first nul byte stands.
    pub position: usize,
}

/// A native output buffer holds no nul terminator, so where its text ends is unknown.
#[derive(Debug, Clone, Copy, PartialEq, Eq)]
pub struct MissingNul;

/// An owned nul-terminated byte string that can be handed to the native library as input.
#[derive(Debug, PartialEq, Eq, Hash)]
pub struct SpiceString {
    bytes: Vec<u8>,
}

impl View for SpiceString {
    type V = Seq<u8>;

    /// The text bytes, without the terminating nul.
    closed spec fn view(&self) -> Seq<u8> {
        self.bytes@.drop_last()
    }
}

impl SpiceString {
    #[verifier::type_invariant]
    spec fn inv(&self) -> bool {
        &&& self.bytes@.len() > 0
        &&& self.bytes@.last() == 0
        &&& nul_free(self.bytes@.drop_last())
    }

    /// The native form of `s`: its UTF-8 bytes followed by one nul.
    ///
    /// Fails with the position of the first nul byte when `s` holds one, rather than cutting the
    /// text short there.
    pub fn new(s: &str) -> (r: Result<SpiceString, NulError>)
        ensures
            r is Ok <==> nul_free(s.spec_bytes()),
            r matches Ok(n) ==> n@ == s.spec_bytes(),
            r matches Err(e) ==> e.position < s.spec_bytes().len() && s.spec_bytes()[e.position as int]
                == 0 && nul_free(s.spec_bytes().take(e.position as int)),
    {
        let b = s.as_bytes();
        match find_nul(b) {
            Some(k) => Err(NulError { position: k }),
            None => {
                let mut bytes: Vec<u8> = Vec::new();
                let mut i: usize = 0;
                while i < b.len()
                    invariant
                        i <= b@.len(),
                        bytes@ == b@.take(i as int),
                    decreases b@.len() - i,
                {
                    bytes.push(b[i]);
                    assert(b@.take(i as int + 1) =~= b@.take(i as int).push(b@[i as int]));
                    i = i + 1;
                }
                assert(b@.take(i as int) =~= b@);
                bytes.push(0);
                assert(bytes@.drop_last() =~= b@);
                Ok(SpiceString { bytes })
            },
        }
    }

    /// Takes a native output buffer over, cut after its first nul.
    ///
    /// Fails when the buffer holds no nul: the native side did not terminate it as promised.
    pub fn from_buffer(buffer: Vec<u8>) -> (r: Result<SpiceString, MissingNul>)
        ensures
            r is Ok <==> !nul_free(buffer@),
            r matches Ok(s) ==> s@ == before_nul(buffer@),
    {
        let ghost given = buffer@;
        let mut buffer = buffer;
        let n = buffer.len();
        match find_nul(buffer.as_slice()) {
            Some(k) => {
                assert(k < n);
                buffer.truncate(k + 1);
                assert(buffer@.drop_last() =~= given.take(k as int)) by {
                    assert(buffer@.len() == k + 1);
                }
                Ok(SpiceString { bytes: buffer })
            },
            None => Err(MissingNul),
        }
    }

    /// The bytes to hand to the native side: the text and its terminating nul.
    pub fn as_bytes_with_nul(&self) -> (r: &[u8])
        ensures
            r@ == self@.push(0),
            nul_free(self@),
    {
        proof {
            use_type_invariant(self);
        }
        assert(self.bytes@ =~= self.bytes@.drop_last().push(0));
        self.bytes.as_slice()
    }

    /// The text, decoded as host text.
    pub fn as_str(&self) -> (r: String)
        ensures
            r@ == host_text(self@),
    {
        proof {
            use_type_invariant(self);
        }
        let n = self.bytes.len() - 1;
        let text = &self.bytes.as_slice()[0..n];
        assert(text@ =~= self@);
        decode_host_text(text)
    }
}

/// A view of the text in a native output buffer, without copying it.
#[derive(Debug, Clone, Copy, PartialEq, Eq, Hash)]
pub struct SpiceStr<'a> {
    text: &'a [u8],
}

impl<'a> View for SpiceStr<'a> {
    type V = Seq<u8>;

    closed spec fn view(&self) -> Seq<u8> {
        self.text@
    }
}

impl<'a> SpiceStr<'a> {
    /// The text of `buffer`: the bytes before its first nul.
    ///
    /// Fails when the buffer holds no nul: the native side did not terminate it as promised.
    pub fn from_buffer(buffer: &'a [u8]) -> (r: Result<SpiceStr<'a>, MissingNul>)
        ensures
            r is Ok <==> !nul_free(buffer@),
            r matches Ok(s) ==> s@ == before_nul(buffer@),
    {
        match find_nul(buffer) {
            Some(k) => {
                let text = &buffer[0..k];
                assert(text@ =~= buffer@.take(k as int));
                Ok(SpiceStr { text })
            },
            None => Err(MissingNul),
        }
    }

    /// The text, decoded as host text.
    pub fn as_str(&self) -> (r: String)
        ensures
            r@ == host_text(self@),
    {
        decode_host_text(self.text)
    }
}

/// A text argument for the native side: a string converted for this call, or one converted
/// earlier and borrowed for as many calls as needed.
pub enum StringParam<'a> {
    Ref(&'a SpiceString),
    Owned(SpiceString),
}

impl<'a> StringParam<'a> {
    /// The native string to pass.
    pub fn get(&self) -> (r: &SpiceString)
        ensures
            r == match self {
                StringParam::Ref(s) => *s,
                StringParam::Owned(s) => s,
            },
    {
        match self {
            StringParam::Ref(s) => s,
            StringParam::Owned(s) => s,
        }
    }
}

} // verus!
