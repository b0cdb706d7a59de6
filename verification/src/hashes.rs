//! Cryptographic digests: the algorithms, a hasher, and the digest with its
//! text form.

pub mod base16;
pub mod sha;

use vstd::prelude::*;
use vstd::string::{StrSliceExecFns, StringExecFns};

use crate::error::Error;
use crate::hashes::base16::{
    hex_decode, hex_decoding, hex_encode, hex_encoding, is_hex_text, lemma_hex_round_trip,
};
use crate::hashes::sha::{
    sha256, sha256_digest, sha512, sha512_256, sha512_256_digest, sha512_digest,
};

verus! {

/// A cryptographic hash algorithm.
#[derive(Debug, Clone, Copy, PartialEq, Eq, Structural, PartialOrd, Ord, Hash)]
#[non_exhaustive]
pub enum HashAlgorithm {
    /// SHA-256.
    Sha256,
    /// SHA-512/256.
    Sha512_256,
    /// SHA-512.
    Sha512,
}

/// The error for a text that names no hash algorithm.
#[derive(Debug)]
pub struct InvalidAlgorithmError;

impl Error for InvalidAlgorithmError {
    open spec fn message_spec(&self) -> Option<Seq<char>> {
        Some("invalid hash algorithm"@)
    }

    open spec fn causes_spec(&self) -> Seq<Seq<char>> {
        Seq::empty()
    }

    fn message(&self) -> (message: Option<String>) {
        Some(String::from_str("invalid hash algorithm"))
    }

    fn causes(&self) -> (causes: Vec<String>) {
        Vec::new()
    }
}

/// The error for a digest that is not valid, or a text that is not the text
/// of a digest. It holds the reason.
#[derive(Debug)]
pub struct InvalidDigestError(pub(crate) &'static str);

impl InvalidDigestError {
    /// The reason, as contracts see it.
    pub closed spec fn reason_spec(&self) -> Seq<char> {
        self.0@
    }

    /// The reason.
    pub fn reason(&self) -> (reason: &'static str)
        ensures
            reason@ == self.reason_spec(),
    {
        self.0
    }
}

impl Error for InvalidDigestError {
    open spec fn message_spec(&self) -> Option<Seq<char>> {
        Some(self.reason_spec())
    }

    open spec fn causes_spec(&self) -> Seq<Seq<char>> {
        Seq::empty()
    }

    fn message(&self) -> (message: Option<String>) {
        Some(String::from_str(self.0))
    }

    fn causes(&self) -> (causes: Vec<String>) {
        Vec::new()
    }
}

impl From<InvalidAlgorithmError> for InvalidDigestError {
    fn from(_error: InvalidAlgorithmError) -> (error: InvalidDigestError)
        ensures
            error.reason_spec() == "invalid hash algorithm"@,
    {
        InvalidDigestError("invalid hash algorithm")
    }
}

impl vstd::std_specs::convert::FromSpecImpl<InvalidAlgorithmError> for InvalidDigestError {
    open spec fn obeys_from_spec() -> bool {
        true
    }

    closed spec fn from_spec(_error: InvalidAlgorithmError) -> InvalidDigestError {
        InvalidDigestError("invalid hash algorithm")
    }
}

impl HashAlgorithm {
    /// The algorithm's name, as contracts see it.
    pub open spec fn name_spec(self) -> Seq<char> {
        match self {
            HashAlgorithm::Sha256 => "sha256"@,
            HashAlgorithm::Sha512_256 => "sha512_256"@,
            HashAlgorithm::Sha512 => "sha512"@,
        }
    }

    /// The algorithm's name as older readers expect it, as contracts see it.
    pub open spec fn legacy_name_spec(self) -> Seq<char> {
        match self {
            HashAlgorithm::Sha256 => "sha256"@,
            HashAlgorithm::Sha512_256 => "sha512-256"@,
            HashAlgorithm::Sha512 => "sha512"@,
        }
    }

    /// The number of bytes of the algorithm's digests, as contracts see it.
    pub open spec fn size_spec(self) -> nat {
        match self {
            HashAlgorithm::Sha256 => 32,
            HashAlgorithm::Sha512_256 => 32,
            HashAlgorithm::Sha512 => 64,
        }
    }

    /// The algorithm that `text` names: each algorithm goes by its name, and
    /// SHA-512/256 also by the same name with a hyphen.
    pub open spec fn named(text: Seq<char>) -> Option<HashAlgorithm> {
        if text == "sha256"@ {
            Some(HashAlgorithm::Sha256)
        } else if text == "sha512_256"@ || text == "sha512-256"@ {
            Some(HashAlgorithm::Sha512_256)
        } else if text == "sha512"@ {
            Some(HashAlgorithm::Sha512)
        } else {
            None
        }
    }

    /// The digest of `data` under this algorithm, as contracts see it.
    pub open spec fn digest_spec(self, data: Seq<u8>) -> Seq<u8> {
        match self {
            HashAlgorithm::Sha256 => sha256(data),
            HashAlgorithm::Sha512_256 => sha512_256(data),
            HashAlgorithm::Sha512 => sha512(data),
        }
    }

    /// The algorithm's name.
    #[must_use]
    pub fn name(self) -> (name: &'static str)
        ensures
            name@ == self.name_spec(),
    {
        match self {
            HashAlgorithm::Sha256 => "sha256",
            HashAlgorithm::Sha512_256 => "sha512_256",
            HashAlgorithm::Sha512 => "sha512",
        }
    }

    /// The algorithm's name as older readers expect it: the name, with a
    /// hyphen where it has an underscore.
    #[must_use]
    pub fn legacy_name(self) -> (name: &'static str)
        ensures
            name@ == self.legacy_name_spec(),
    {
        match self {
            HashAlgorithm::Sha256 => "sha256",
            HashAlgorithm::Sha512_256 => "sha512-256",
            HashAlgorithm::Sha512 => "sha512",
        }
    }

    /// The number of bytes of the algorithm's digests.
    #[must_use]
    pub fn hash_size(self) -> (size: usize)
        ensures
            size == self.size_spec(),
    {
        match self {
            HashAlgorithm::Sha256 => 32,
            HashAlgorithm::Sha512_256 => 32,
            HashAlgorithm::Sha512 => 64,
        }
    }

    /// The algorithm that `text` names.
    pub fn from_str(text: &str) -> (parsed: Result<HashAlgorithm, InvalidAlgorithmError>)
        ensures
            match Self::named(text@) {
                Some(algorithm) => parsed == Ok::<HashAlgorithm, InvalidAlgorithmError>(algorithm),
                None => parsed is Err,
            },
    {
        if text.eq("sha256") {
            Ok(HashAlgorithm::Sha256)
        } else if text.eq("sha512_256") || text.eq("sha512-256") {
            Ok(HashAlgorithm::Sha512_256)
        } else if text.eq("sha512") {
            Ok(HashAlgorithm::Sha512)
        } else {
            Err(InvalidAlgorithmError)
        }
    }
}

/// Whether `c` parts the algorithm's name from the digest's bytes in the text
/// of a digest.
pub open spec fn is_delimiter(c: char) -> bool {
    c == ':' || c == '_'
}

/// The index of the last delimiter in `text`, if there is one.
pub open spec fn last_delimiter(text: Seq<char>) -> Option<int>
    decreases text.len(),
{
    if text.len() == 0 {
        None
    } else if is_delimiter(text.last()) {
        Some(text.len() - 1)
    } else {
        last_delimiter(text.drop_last())
    }
}

/// What the text of a digest stands for: the algorithm and the raw bytes, or
/// the reason why the text is not one of a digest. The text is parted at its
/// last delimiter; before it stands the name of the algorithm, behind it
/// as many bytes in hexadecimal as the algorithm gives.
pub open spec fn parsed_digest(text: Seq<char>) -> Result<DigestView, Seq<char>> {
    match last_delimiter(text) {
        None => Err("missing delimiter, expected ':' or '_'"@),
        Some(at) => match HashAlgorithm::named(text.take(at)) {
            None => Err("invalid hash algorithm"@),
            Some(algorithm) => {
                let digits = text.skip(at + 1);
                if !is_hex_text(digits) {
                    Err("digest is not a hex string"@)
                } else if hex_decoding(digits).len() != algorithm.size_spec() {
                    Err("invalid digest size"@)
                } else {
                    Ok(DigestView { algorithm, raw: hex_decoding(digits) })
                }
            },
        },
    }
}

/// Where the last delimiter is found: it is a delimiter, and none follows.
pub proof fn lemma_last_delimiter(text: Seq<char>)
    ensures
        match last_delimiter(text) {
            Some(at) => 0 <= at < text.len() && is_delimiter(text[at]) && forall|i: int|
                at < i < text.len() ==> !is_delimiter(#[trigger] text[i]),
            None => forall|i: int| 0 <= i < text.len() ==> !is_delimiter(#[trigger] text[i]),
        },
    decreases text.len(),
{
    if text.len() > 0 && !is_delimiter(text.last()) {
        lemma_last_delimiter(text.drop_last());
        assert forall|i: int| 0 <= i < text.len() - 1 implies text.drop_last()[i] == text[i] by {}
    }
}

/// The index of the last delimiter in `text`, counted in characters.
fn find_last_delimiter(text: &str) -> (found: Option<usize>)
    ensures
        match found {
            Some(at) => last_delimiter(text@) == Some(at as int),
            None => last_delimiter(text@) is None,
        },
{
    let length = text.unicode_len();
    let mut found: Option<usize> = None;
    let mut i: usize = 0;
    for c in it: text.chars()
        invariant
            length == text@.len(),
            it.seq() == text@,
            i == it.index(),
            i <= length,
            match found {
                Some(at) => last_delimiter(text@.take(i as int)) == Some(at as int),
                None => last_delimiter(text@.take(i as int)) is None,
            },
    {
        proof {
            let next = text@.take(i + 1);
            assert(next.drop_last() =~= text@.take(i as int));
        }
        if c == ':' || c == '_' {
            found = Some(i);
        }
        i += 1;
    }
    assert(text@.take(i as int) =~= text@);
    found
}

/// What a [`Hasher`] stands for in contracts.
pub ghost struct HasherView {
    /// The algorithm.
    pub algorithm: HashAlgorithm,
    /// The bytes fed so far, in order.
    pub data: Seq<u8>,
}

/// Computes a digest of the bytes that it is fed piece by piece. The hasher
/// keeps the bytes, and the digest is computed over all of them when the
/// hasher is finalized.
#[derive(Debug, Clone)]
#[must_use]
pub struct Hasher {
    algorithm: HashAlgorithm,
    data: Vec<u8>,
}

impl View for Hasher {
    type V = HasherView;

    closed spec fn view(&self) -> HasherView {
        HasherView { algorithm: self.algorithm, data: self.data@ }
    }
}

/// What a [`HashDigest`] stands for in contracts.
pub ghost struct DigestView {
    /// The algorithm.
    pub algorithm: HashAlgorithm,
    /// The raw bytes.
    pub raw: Seq<u8>,
}

impl DigestView {
    /// Whether the digest has as many bytes as its algorithm gives.
    pub open spec fn is_valid(self) -> bool {
        self.raw.len() == self.algorithm.size_spec()
    }

    /// The text of the digest: the algorithm's name, an underscore, and the
    /// raw bytes in hexadecimal.
    pub open spec fn text(self) -> Seq<char> {
        self.algorithm.name_spec() + "_"@ + hex_encoding(self.raw)
    }

    /// The text of the digest as older readers expect it: the algorithm's
    /// name written with a hyphen, a colon, and the raw bytes in hexadecimal.
    pub open spec fn legacy_text(self) -> Seq<char> {
        self.algorithm.legacy_name_spec() + ":"@ + hex_encoding(self.raw)
    }
}

/// A digest: the algorithm that computed it and its raw bytes.
#[derive(Debug, Clone, PartialEq, Eq, PartialOrd, Ord, Hash)]
pub struct HashDigest {
    algorithm: HashAlgorithm,
    raw: Vec<u8>,
}

impl View for HashDigest {
    type V = DigestView;

    closed spec fn view(&self) -> DigestView {
        DigestView { algorithm: self.algorithm, raw: self.raw@ }
    }
}

impl HashAlgorithm {
    /// A hasher for this algorithm that has been fed nothing yet.
    pub fn hasher(self) -> (hasher: Hasher)
        ensures
            hasher@ == (HasherView { algorithm: self, data: Seq::empty() }),
    {
        Hasher { algorithm: self, data: Vec::new() }
    }

    /// The digest of `bytes`.
    #[must_use]
    pub fn hash(self, bytes: &[u8]) -> (digest: HashDigest)
        ensures
            digest@ == (DigestView { algorithm: self, raw: self.digest_spec(bytes@) }),
            digest@.is_valid(),
    {
        let mut hasher = self.hasher();
        hasher.update(bytes);
        hasher.finalize()
    }
}

impl Hasher {
    /// The algorithm.
    #[must_use]
    pub fn algorithm(&self) -> (algorithm: HashAlgorithm)
        ensures
            algorithm == self@.algorithm,
    {
        self.algorithm
    }

    /// Feeds `bytes` to the hasher.
    pub fn update(&mut self, bytes: &[u8])
        ensures
            final(self)@ == (HasherView { data: old(self)@.data + bytes@, ..old(self)@ }),
    {
        self.data.extend_from_slice(bytes);
        assert(self.data@ =~= old(self).data@ + bytes@);
    }

    /// The digest of all the bytes that the hasher was fed.
    #[must_use]
    pub fn finalize(self) -> (digest: HashDigest)
        ensures
            digest@ == (DigestView {
                algorithm: self@.algorithm,
                raw: self@.algorithm.digest_spec(self@.data),
            }),
            digest@.is_valid(),
    {
        let raw = match self.algorithm {
            HashAlgorithm::Sha256 => sha256_digest(self.data.as_slice()),
            HashAlgorithm::Sha512_256 => sha512_256_digest(self.data.as_slice()),
            HashAlgorithm::Sha512 => sha512_digest(self.data.as_slice()),
        };
        HashDigest::new_unchecked(self.algorithm, raw)
    }
}

impl HashDigest {
    /// The digest of `algorithm` with the raw bytes `raw`, which have to be
    /// as many as the algorithm gives.
    pub fn new(algorithm: HashAlgorithm, raw: Vec<u8>) -> (made: Result<
        HashDigest,
        InvalidDigestError,
    >)
        ensures
            raw@.len() == algorithm.size_spec() ==> (made matches Ok(digest) && digest@ == (
            DigestView { algorithm, raw: raw@ })),
            raw@.len() != algorithm.size_spec() ==> (made matches Err(error)
                && error.reason_spec() == "invalid digest size"@),
    {
        if raw.len() != algorithm.hash_size() {
            return Err(InvalidDigestError("invalid digest size"));
        }
        Ok(Self::new_unchecked(algorithm, raw))
    }

    /// The digest of `algorithm` with the raw bytes `raw`, however many
    /// they are.
    pub fn new_unchecked(algorithm: HashAlgorithm, raw: Vec<u8>) -> (digest: HashDigest)
        ensures
            digest@ == (DigestView { algorithm, raw: raw@ }),
    {
        Self { algorithm, raw }
    }

    /// The algorithm that computed the digest.
    pub fn algorithm(&self) -> (algorithm: HashAlgorithm)
        ensures
            algorithm == self@.algorithm,
    {
        self.algorithm
    }

    /// The raw bytes.
    pub fn raw(&self) -> (raw: &[u8])
        ensures
            raw@ == self@.raw,
    {
        self.raw.as_slice()
    }

    /// The raw bytes in hexadecimal.
    pub fn raw_hex_string(&self) -> (text: String)
        ensures
            text@ == hex_encoding(self@.raw),
    {
        hex_encode(self.raw.as_slice())
    }

    /// The raw bytes, leaving the digest behind.
    pub fn into_inner(self) -> (raw: Vec<u8>)
        ensures
            raw@ == self@.raw,
    {
        self.raw
    }

    /// The digest that `text` stands for. The text is the name of an
    /// algorithm, a colon or an underscore, and the raw bytes in hexadecimal.
    pub fn from_str(text: &str) -> (parsed: Result<HashDigest, InvalidDigestError>)
        ensures
            match parsed_digest(text@) {
                Ok(digest) => parsed matches Ok(found) && found@ == digest,
                Err(reason) => parsed matches Err(error) && error.reason_spec() == reason,
            },
    {
        let Some(at) = find_last_delimiter(text) else {
            return Err(InvalidDigestError("missing delimiter, expected ':' or '_'"));
        };
        proof {
            lemma_last_delimiter(text@);
        }
        let length = text.unicode_len();
        let algorithm = match HashAlgorithm::from_str(text.substring_char(0, at)) {
            Ok(algorithm) => algorithm,
            Err(error) => {
                return Err(InvalidDigestError::from(error));
            },
        };
        let Ok(raw) = hex_decode(text.substring_char(at + 1, length)) else {
            return Err(InvalidDigestError("digest is not a hex string"));
        };
        if raw.len() != algorithm.hash_size() {
            return Err(InvalidDigestError("invalid digest size"));
        }
        Ok(Self { algorithm, raw })
    }

    /// The text of the digest: the algorithm's name, an underscore, and the
    /// raw bytes in hexadecimal.
    pub fn to_string(&self) -> (text: String)
        ensures
            text@ == self@.text(),
    {
        let mut text = String::from_str(self.algorithm.name());
        text.append("_");
        text.append(self.raw_hex_string().as_str());
        text
    }

    /// The text of the digest as older readers expect it: the algorithm's
    /// name written with a hyphen, a colon, and the raw bytes in hexadecimal.
    pub fn to_legacy_string(&self) -> (text: String)
        ensures
            text@ == self@.legacy_text(),
    {
        let mut text = String::from_str(self.algorithm.legacy_name());
        text.append(":");
        text.append(self.raw_hex_string().as_str());
        text
    }
}

/// A delimiter that no delimiter follows is the last one.
proof fn lemma_last_delimiter_at(text: Seq<char>, at: int)
    requires
        0 <= at < text.len(),
        is_delimiter(text[at]),
        forall|i: int| at < i < text.len() ==> !is_delimiter(#[trigger] text[i]),
    ensures
        last_delimiter(text) == Some(at),
{
    lemma_last_delimiter(text);
}

/// Each algorithm is the one that its name names, in either spelling.
pub proof fn lemma_named(algorithm: HashAlgorithm)
    ensures
        HashAlgorithm::named(algorithm.name_spec()) == Some(algorithm),
        HashAlgorithm::named(algorithm.legacy_name_spec()) == Some(algorithm),
{
    reveal_strlit("sha256");
    reveal_strlit("sha512_256");
    reveal_strlit("sha512-256");
    reveal_strlit("sha512");
    assert("sha256"@[3] != "sha512"@[3]);
    assert("sha512"@.len() != "sha512_256"@.len());
}

/// Reading the text of a valid digest gives the digest back, whether the
/// text is the usual one or the one that older readers expect.
pub proof fn lemma_text_round_trip(digest: DigestView)
    requires
        digest.is_valid(),
    ensures
        parsed_digest(digest.text()) == Ok::<DigestView, Seq<char>>(digest),
        parsed_digest(digest.legacy_text()) == Ok::<DigestView, Seq<char>>(digest),
{
    reveal_strlit("_");
    reveal_strlit(":");
    lemma_named(digest.algorithm);
    lemma_hex_round_trip(digest.raw);
    let digits = hex_encoding(digest.raw);
    let legacy = digest.legacy_text();
    let at = digest.algorithm.legacy_name_spec().len() as int;
    lemma_last_delimiter_at(legacy, at);
    assert(legacy.take(at) =~= digest.algorithm.legacy_name_spec());
    assert(legacy.skip(at + 1) =~= digits);

    let text = digest.text();
    let at = digest.algorithm.name_spec().len() as int;
    lemma_last_delimiter_at(text, at);
    assert(text.take(at) =~= digest.algorithm.name_spec());
    assert(text.skip(at + 1) =~= digits);
}

} // verus!
