//! Encoding and persisting a captured image.
//!
//! A capture is persisted under a name derived from its capture time,
//! `clip_<milliseconds>.png`, with exclusive-create semantics: a name that
//! already exists makes the creation fail rather than overwrite, so no
//! artifact is ever clobbered. The PNG bytes are produced here; writing them
//! to durable storage is the driver's job, and [`ArtifactStore`] is the
//! in-memory model of that storage with exactly the exclusive-create
//! behaviour the driver must provide.

use vstd::prelude::*;
use vstd::string::StringExecFns;
use crate::codec::{encode_png, png_encode_ok, png_encoding, png_signature, be32_at,
    PNG_WIDTH_OFFSET, PNG_HEIGHT_OFFSET};
use crate::extract::ReconstructedImage;

verus! {

/// Why persisting a captured image failed.
#[derive(Clone, Copy, Debug, PartialEq, Eq, Structural)]
pub enum PersistError {
    /// A file of the derived name already exists; it is left untouched.
    CreateFailed,
    /// The encoder rejected the image.
    EncodeFailed,
}

impl PersistError {
    /// The human-readable description reported for this failure.
    pub fn message(&self) -> (s: &'static str)
        ensures
            self is CreateFailed ==> s@ == "couldn't open file to write"@,
            self is EncodeFailed ==> s@ == "couldn't encode image"@,
    {
        match self {
            PersistError::CreateFailed => "couldn't open file to write",
            PersistError::EncodeFailed => "couldn't encode image",
        }
    }
}

/// The character for one decimal digit.
pub open spec fn digit_char(d: int) -> char {
    if d == 0 {
        '0'
    } else if d == 1 {
        '1'
    } else if d == 2 {
        '2'
    } else if d == 3 {
        '3'
    } else if d == 4 {
        '4'
    } else if d == 5 {
        '5'
    } else if d == 6 {
        '6'
    } else if d == 7 {
        '7'
    } else if d == 8 {
        '8'
    } else {
        '9'
    }
}

/// The decimal digits of a number, most significant first, without leading
/// zeros (a lone zero for zero).
pub open spec fn decimal_seq(n: nat) -> Seq<char>
    decreases n,
{
    if n < 10 {
        seq![digit_char(n as int)]
    } else {
        decimal_seq(n / 10) + seq![digit_char((n % 10) as int)]
    }
}

/// The artifact name derived from a capture time in milliseconds.
pub open spec fn artifact_name_seq(millis: u64) -> Seq<char> {
    "clip_"@ + decimal_seq(millis as nat) + ".png"@
}

/// A decimal rendering is never empty, and has at least two digits from ten
/// upward.
proof fn lemma_decimal_len(n: nat)
    ensures
        decimal_seq(n).len() >= 1,
        n >= 10 ==> decimal_seq(n).len() >= 2,
    decreases n,
{
    if n >= 10 {
        lemma_decimal_len(n / 10);
    }
}

/// Digits map to their characters one to one.
proof fn lemma_digit_char_injective(x: int, y: int)
    requires
        0 <= x < 10,
        0 <= y < 10,
        digit_char(x) == digit_char(y),
    ensures
        x == y,
{
}

/// Distinct numbers have distinct decimal renderings.
proof fn lemma_decimal_injective(a: nat, b: nat)
    requires
        decimal_seq(a) == decimal_seq(b),
    ensures
        a == b,
    decreases a,
{
    lemma_decimal_len(a);
    lemma_decimal_len(b);
    if a < 10 && b < 10 {
        assert(decimal_seq(a)[0] == digit_char(a as int));
        assert(decimal_seq(b)[0] == digit_char(b as int));
        lemma_digit_char_injective(a as int, b as int);
    } else if a >= 10 && b >= 10 {
        assert(decimal_seq(a).last() == digit_char((a % 10) as int));
        assert(decimal_seq(b).last() == digit_char((b % 10) as int));
        lemma_digit_char_injective((a % 10) as int, (b % 10) as int);
        assert(decimal_seq(a).drop_last() =~= decimal_seq(a / 10));
        assert(decimal_seq(b).drop_last() =~= decimal_seq(b / 10));
        lemma_decimal_injective((a / 10) as nat, (b / 10) as nat);
    } else if a < 10 {
        // One digit against two or more: the renderings cannot be equal.
        assert(decimal_seq(a).len() == 1);
        assert(false);
    } else {
        assert(decimal_seq(b).len() == 1);
        assert(false);
    }
}

/// Law: capture times name their artifacts injectively — two captures can
/// only collide on a file name when they fall in the same millisecond.
pub proof fn lemma_artifact_name_injective(a: u64, b: u64)
    requires
        artifact_name_seq(a) == artifact_name_seq(b),
    ensures
        a == b,
{
    reveal_strlit("clip_");
    reveal_strlit(".png");
    let da = decimal_seq(a as nat);
    let db = decimal_seq(b as nat);
    let prefix = "clip_"@;
    let suffix = ".png"@;
    assert(da.len() == db.len()) by {
        assert(prefix.len() == 5);
        assert(suffix.len() == 4);
        assert(artifact_name_seq(a).len() == 5 + da.len() + 4);
        assert(artifact_name_seq(b).len() == 5 + db.len() + 4);
        assert(artifact_name_seq(a).len() == artifact_name_seq(b).len());
    }
    assert(da =~= db) by {
        assert(forall|i: int|
            0 <= i < da.len() ==> da[i] == (prefix + da + suffix)[prefix.len() + i]);
        assert(forall|i: int|
            0 <= i < db.len() ==> db[i] == (prefix + db + suffix)[prefix.len() + i]);
    }
    lemma_decimal_injective(a as nat, b as nat);
}

/// Append one decimal digit.
fn push_digit(s: &mut String, d: u64)
    requires
        d < 10,
    ensures
        final(s)@ == old(s)@ + seq![digit_char(d as int)],
{
    proof {
        reveal_strlit("0");
        reveal_strlit("1");
        reveal_strlit("2");
        reveal_strlit("3");
        reveal_strlit("4");
        reveal_strlit("5");
        reveal_strlit("6");
        reveal_strlit("7");
        reveal_strlit("8");
        reveal_strlit("9");
    }
    if d == 0 {
        s.append("0");
    } else if d == 1 {
        s.append("1");
    } else if d == 2 {
        s.append("2");
    } else if d == 3 {
        s.append("3");
    } else if d == 4 {
        s.append("4");
    } else if d == 5 {
        s.append("5");
    } else if d == 6 {
        s.append("6");
    } else if d == 7 {
        s.append("7");
    } else if d == 8 {
        s.append("8");
    } else {
        s.append("9");
    }
    assert(final(s)@ =~= old(s)@ + seq![digit_char(d as int)]);
}

/// Append a number's decimal digits, most significant first.
fn push_decimal(s: &mut String, n: u64)
    ensures
        final(s)@ == old(s)@ + decimal_seq(n as nat),
    decreases n,
{
    if n >= 10 {
        push_decimal(s, n / 10);
    }
    push_digit(s, n % 10);
    proof {
        if n >= 10 {
            assert(final(s)@ =~= old(s)@ + (decimal_seq((n / 10) as nat) + seq![
                digit_char((n % 10) as int),
            ]));
        }
    }
}

/// The artifact name for a capture time: `clip_<milliseconds>.png`.
pub fn artifact_name(millis: u64) -> (r: String)
    ensures
        r@ == artifact_name_seq(millis),
{
    let mut s = String::new();
    s.append("clip_");
    push_decimal(&mut s, millis);
    s.append(".png");
    assert(s@ =~= artifact_name_seq(millis));
    s
}

/// Encode a captured image into a standalone PNG byte stream.
pub fn encode_image(img: &ReconstructedImage) -> (r: Result<Vec<u8>, PersistError>)
    requires
        img.wf(),
    ensures
        r is Ok <==> png_encode_ok(img.pixels@, img.width, img.height),
        r is Err ==> r == Err::<Vec<u8>, PersistError>(PersistError::EncodeFailed),
        img.width == 0 || img.height == 0 ==> r is Err,
        r matches Ok(b) ==> {
            &&& b@ == png_encoding(img.pixels@, img.width, img.height)
            &&& b@.len() >= 24
            &&& b@.subrange(0, 8) == png_signature()
            &&& be32_at(b@, PNG_WIDTH_OFFSET as int) == img.width
            &&& be32_at(b@, PNG_HEIGHT_OFFSET as int) == img.height
        },
{
    match encode_png(&img.pixels, img.width, img.height) {
        Ok(bytes) => Ok(bytes),
        Err(()) => Err(PersistError::EncodeFailed),
    }
}

/// Encode a captured image and derive the name it is to be created under.
pub fn plan_persist(img: &ReconstructedImage, millis: u64) -> (r: Result<
    (String, Vec<u8>),
    PersistError,
>)
    requires
        img.wf(),
    ensures
        r is Ok <==> png_encode_ok(img.pixels@, img.width, img.height),
        r is Err ==> r == Err::<(String, Vec<u8>), PersistError>(PersistError::EncodeFailed),
        r matches Ok(t) ==> {
            &&& t.0@ == artifact_name_seq(millis)
            &&& t.1@ == png_encoding(img.pixels@, img.width, img.height)
            &&& t.1@.len() >= 24
            &&& t.1@.subrange(0, 8) == png_signature()
            &&& be32_at(t.1@, PNG_WIDTH_OFFSET as int) == img.width
            &&& be32_at(t.1@, PNG_HEIGHT_OFFSET as int) == img.height
        },
{
    match encode_image(img) {
        Ok(bytes) => Ok((artifact_name(millis), bytes)),
        Err(e) => Err(e),
    }
}

/// The artifacts stored at each capture time, keyed by the milliseconds the
/// name is derived from.
pub open spec fn store_map(s: Seq<(u64, Vec<u8>)>) -> Map<u64, Seq<u8>>
    decreases s.len(),
{
    if s.len() == 0 {
        Map::empty()
    } else {
        store_map(s.drop_last()).insert(s.last().0, s.last().1@)
    }
}

/// A key is in the store's map exactly when some entry carries it.
proof fn lemma_store_map_contains(s: Seq<(u64, Vec<u8>)>, k: u64)
    ensures
        store_map(s).contains_key(k) <==> exists|j: int| 0 <= j < s.len() && s[j].0 == k,
    decreases s.len(),
{
    if s.len() > 0 {
        lemma_store_map_contains(s.drop_last(), k);
        if s.last().0 != k && store_map(s).contains_key(k) {
            let j = choose|j: int| 0 <= j < s.len() - 1 && s.drop_last()[j].0 == k;
            assert(s[j].0 == k);
        }
        if exists|j: int| 0 <= j < s.len() && s[j].0 == k {
            let j = choose|j: int| 0 <= j < s.len() && s[j].0 == k;
            if j < s.len() - 1 {
                assert(s.drop_last()[j].0 == k);
            }
        }
    }
}

/// In-memory model of the durable store: one immutable artifact per capture
/// time, created exclusively — creation fails, and changes nothing, if the
/// name is already taken.
pub struct ArtifactStore {
    entries: Vec<(u64, Vec<u8>)>,
}

impl ArtifactStore {
    /// No capture time is taken twice.
    pub closed spec fn wf(&self) -> bool {
        forall|i: int, j: int|
            0 <= i < j < self.entries@.len() ==> self.entries@[i].0 != self.entries@[j].0
    }

    /// The stored artifacts by capture time.
    pub closed spec fn contents(&self) -> Map<u64, Seq<u8>> {
        store_map(self.entries@)
    }

    /// An empty store.
    pub fn new() -> (s: ArtifactStore)
        ensures
            s.wf(),
            s.contents() == Map::<u64, Seq<u8>>::empty(),
    {
        ArtifactStore { entries: Vec::new() }
    }

    /// Whether an artifact exists for this capture time.
    pub fn has_artifact(&self, millis: u64) -> (r: bool)
        ensures
            r == self.contents().contains_key(millis),
    {
        proof {
            lemma_store_map_contains(self.entries@, millis);
        }
        let mut i: usize = 0;
        while i < self.entries.len()
            invariant
                i <= self.entries@.len(),
                forall|j: int| 0 <= j < i ==> self.entries@[j].0 != millis,
            decreases self.entries@.len() - i,
        {
            if self.entries[i].0 == millis {
                proof {
                    lemma_store_map_contains(self.entries@, millis);
                    assert(exists|j: int|
                        0 <= j < self.entries@.len() && self.entries@[j].0 == millis) by {
                        assert(self.entries@[i as int].0 == millis);
                    }
                }
                return true;
            }
            i = i + 1;
        }
        false
    }

    /// Create the artifact for this capture time, failing — and leaving every
    /// stored artifact untouched — if one already exists.
    pub fn create_new(&mut self, millis: u64, bytes: Vec<u8>) -> (r: Result<(), PersistError>)
        requires
            old(self).wf(),
        ensures
            final(self).wf(),
            r is Ok <==> !old(self).contents().contains_key(millis),
            r is Ok ==> final(self).contents() == old(self).contents().insert(millis, bytes@),
            r is Err ==> *final(self) == *old(self) && r == Err::<(), PersistError>(
                PersistError::CreateFailed,
            ),
    {
        if self.has_artifact(millis) {
            return Err(PersistError::CreateFailed);
        }
        proof {
            lemma_store_map_contains(self.entries@, millis);
            assert(self.entries@.push((millis, bytes)).drop_last() =~= self.entries@);
        }
        self.entries.push((millis, bytes));
        Ok(())
    }

    /// The artifact stored for this capture time, if any.
    pub fn lookup(&self, millis: u64) -> (r: Option<&Vec<u8>>)
        requires
            self.wf(),
        ensures
            r is Some <==> self.contents().contains_key(millis),
            r matches Some(b) ==> b@ == self.contents()[millis],
    {
        proof {
            lemma_store_map_contains(self.entries@, millis);
        }
        let mut i: usize = 0;
        while i < self.entries.len()
            invariant
                self.wf(),
                i <= self.entries@.len(),
                forall|j: int| 0 <= j < i ==> self.entries@[j].0 != millis,
            decreases self.entries@.len() - i,
        {
            if self.entries[i].0 == millis {
                proof {
                    lemma_store_map_index(self.entries@, i as int, millis);
                }
                return Some(&self.entries[i].1);
            }
            i = i + 1;
        }
        None
    }

    /// How many artifacts the store holds.
    pub fn count(&self) -> (n: usize)
        requires
            self.wf(),
        ensures
            n == self.contents().len(),
    {
        proof {
            lemma_store_map_len(self.entries@);
        }
        self.entries.len()
    }
}

/// With no key taken twice, the map holds each entry's bytes at its key.
proof fn lemma_store_map_index(s: Seq<(u64, Vec<u8>)>, i: int, k: u64)
    requires
        forall|a: int, b: int| 0 <= a < b < s.len() ==> s[a].0 != s[b].0,
        0 <= i < s.len(),
        s[i].0 == k,
    ensures
        store_map(s).contains_key(k),
        store_map(s)[k] == s[i].1@,
    decreases s.len(),
{
    if i == s.len() - 1 {
    } else {
        lemma_store_map_index(s.drop_last(), i, k);
        assert(s.last().0 != k);
    }
}

/// With no key taken twice, the map holds exactly one artifact per entry.
proof fn lemma_store_map_len(s: Seq<(u64, Vec<u8>)>)
    requires
        forall|a: int, b: int| 0 <= a < b < s.len() ==> s[a].0 != s[b].0,
    ensures
        store_map(s).len() == s.len(),
        store_map(s).dom().finite(),
    decreases s.len(),
{
    if s.len() > 0 {
        lemma_store_map_len(s.drop_last());
        lemma_store_map_contains(s.drop_last(), s.last().0);
    }
}

/// Law: two captures in the same millisecond can never clobber one another.
/// Once the store holds an artifact at a capture time, its contents map that
/// time to exactly those bytes; by [`ArtifactStore::create_new`]'s contract, a
/// second creation at the same time then returns an error and leaves the
/// store — the first artifact's bytes included — unchanged.
pub proof fn lemma_same_millis_never_clobbers(
    before: Map<u64, Seq<u8>>,
    millis: u64,
    first: Seq<u8>,
)
    requires
        !before.contains_key(millis),
    ensures
        before.insert(millis, first).contains_key(millis),
        before.insert(millis, first)[millis] == first,
{
}

} // verus!
