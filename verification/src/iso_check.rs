//! The one-shot integrity check of the game image: the image is digested in
//! the background, the hex digest is compared against a fixed list of known
//! problem builds, and the classification is cached so it can be merged into
//! every subsequently built report.

use vstd::prelude::*;

verus! {

/// Result of the integrity check after hashing completes.
#[derive(Clone, Debug)]
pub enum IsoMd5CheckResult {
    /// Hashing finished and this image is not on the known desync list.
    SafeIso { hash: String },
    /// Hashing finished and this image is on the known desync list.
    KnownDesyncIso { hash: String },
    /// Hashing failed before a valid digest could be produced.
    Failed,
}

/// Current lifecycle status of the integrity check: it moves from
/// `NotStarted` through `InProgress` to `Complete` exactly once.
#[derive(Clone, Debug)]
pub enum IsoMd5CheckState {
    NotStarted,
    InProgress,
    Complete(IsoMd5CheckResult),
}

impl Default for IsoMd5CheckState {
    fn default() -> (r: Self)
        ensures
            r is NotStarted,
    {
        Self::NotStarted
    }
}

/// The cached hex digest carried by a state, when it holds one.
pub open spec fn spec_iso_hash(s: IsoMd5CheckState) -> Option<Seq<char>> {
    match s {
        IsoMd5CheckState::Complete(IsoMd5CheckResult::SafeIso { hash }) => Some(hash@),
        IsoMd5CheckState::Complete(IsoMd5CheckResult::KnownDesyncIso { hash }) => Some(hash@),
        _ => None,
    }
}

impl IsoMd5CheckState {
    /// The hex digest of the image, once hashing has succeeded; reports
    /// built before then simply omit it.
    pub fn iso_hash(&self) -> (r: Option<&str>)
        ensures
            match r {
                Some(h) => spec_iso_hash(*self) == Some(h@),
                None => spec_iso_hash(*self) is None,
            },
    {
        match self {
            IsoMd5CheckState::Complete(IsoMd5CheckResult::SafeIso { hash }) => Some(hash.as_str()),
            IsoMd5CheckState::Complete(IsoMd5CheckResult::KnownDesyncIso { hash }) => Some(
                hash.as_str(),
            ),
            _ => None,
        }
    }

    /// An owned copy of the cached hex digest, when one is available.
    pub fn iso_hash_owned(&self) -> (r: Option<String>)
        ensures
            match r {
                Some(h) => spec_iso_hash(*self) == Some(h@),
                None => spec_iso_hash(*self) is None,
            },
    {
        match self {
            IsoMd5CheckState::Complete(IsoMd5CheckResult::SafeIso { hash }) => Some(hash.clone()),
            IsoMd5CheckState::Complete(IsoMd5CheckResult::KnownDesyncIso { hash }) => Some(
                hash.clone(),
            ),
            _ => None,
        }
    }
}

/// Whether `h` is one of the ten hex digests of game images known to cause
/// desyncs.
pub open spec fn spec_is_known_desync(h: Seq<char>) -> bool {
    ||| h == ("23d6baef06bd65989585096915da20f2")@
    ||| h == ("27a5668769a54cd3515af47b8d9982f3")@
    ||| h == ("5805fa9f1407aedc8804d0472346fc5f")@
    ||| h == ("9bb3e275e77bb1a160276f2330f93931")@
    ||| h == ("8f4d23152be3138b40e7e75a8423da23")@
    ||| h == ("80d765b45265c2d09b3b6dc211eb3364")@
    ||| h == ("da02952aeb9c3b62c4375a3578b7ff61")@
    ||| h == ("2bf0de184f82313c5e8bb2681a17600a")@
    ||| h == ("1f01ed5d8dda6e3eb0402fc6e8f8f36a")@
    ||| h == ("d19d367683fd9f94453bf4e588d26d7d")@
}

/// Compares a hex digest, case-sensitively and exactly, against the fixed
/// list of known problem digests.
pub fn is_known_desync_hash(h: &str) -> (r: bool)
    ensures
        r <==> spec_is_known_desync(h@),
{
    crate::strutil::str_eq(h, "23d6baef06bd65989585096915da20f2") || crate::strutil::str_eq(
        h,
        "27a5668769a54cd3515af47b8d9982f3",
    ) || crate::strutil::str_eq(h, "5805fa9f1407aedc8804d0472346fc5f") || crate::strutil::str_eq(
        h,
        "9bb3e275e77bb1a160276f2330f93931",
    ) || crate::strutil::str_eq(h, "8f4d23152be3138b40e7e75a8423da23") || crate::strutil::str_eq(
        h,
        "80d765b45265c2d09b3b6dc211eb3364",
    ) || crate::strutil::str_eq(h, "da02952aeb9c3b62c4375a3578b7ff61") || crate::strutil::str_eq(
        h,
        "2bf0de184f82313c5e8bb2681a17600a",
    ) || crate::strutil::str_eq(h, "1f01ed5d8dda6e3eb0402fc6e8f8f36a") || crate::strutil::str_eq(
        h,
        "d19d367683fd9f94453bf4e588d26d7d",
    )
}

/// Classifies a completed hex digest against the known desync list.
pub fn classify_digest(hash: String) -> (r: IsoMd5CheckResult)
    ensures
        spec_is_known_desync(hash@) ==> (r matches IsoMd5CheckResult::KnownDesyncIso {
            hash: h,
        } && h@ == hash@),
        !spec_is_known_desync(hash@) ==> (r matches IsoMd5CheckResult::SafeIso { hash: h } && h@
            == hash@),
{
    if is_known_desync_hash(hash.as_str()) {
        IsoMd5CheckResult::KnownDesyncIso { hash }
    } else {
        IsoMd5CheckResult::SafeIso { hash }
    }
}

/// The 32 lower-case hex digits of the MD5 digest of a byte string; a
/// function of the bytes alone.
pub uninterp spec fn md5_hex_of(data: Seq<u8>) -> Seq<char>;

/// Relies on chksum::md5::hash and Digest::to_hex_lowercase: the digest of
/// the bytes, rendered as 32 lower-case hexadecimal digits with leading
/// zeroes kept.
#[verifier::external_body]
fn md5_hex(data: &Vec<u8>) -> (r: String)
    ensures
        r@ == md5_hex_of(data@),
        r@.len() == 32,
{
    chksum::md5::hash(data.as_slice()).to_hex_lowercase()
}

/// Digests an in-memory image and classifies it against the known desync
/// list.
pub fn classify_iso_bytes(data: &Vec<u8>) -> (r: IsoMd5CheckResult)
    ensures
        spec_is_known_desync(md5_hex_of(data@)) ==> (r matches IsoMd5CheckResult::KnownDesyncIso {
            hash: h,
        } && h@ == md5_hex_of(data@)),
        !spec_is_known_desync(md5_hex_of(data@)) ==> (r matches IsoMd5CheckResult::SafeIso {
            hash: h,
        } && h@ == md5_hex_of(data@)),
{
    let hash = md5_hex(data);
    classify_digest(hash)
}

/// The one-shot checker: `begin` is called when the hashing thread starts,
/// and exactly one of `complete_with_digest` or `complete_failed` when it
/// finishes. The boolean returned by `complete_with_digest` tells the caller
/// to raise the long-duration, high-visibility desync warning; because the
/// state can pass through `InProgress` only once, the warning can fire at
/// most once.
#[derive(Clone, Debug)]
pub struct IsoIntegrityChecker {
    pub state: IsoMd5CheckState,
}

impl IsoIntegrityChecker {
    /// A checker that has not started hashing yet.
    pub fn new() -> (r: Self)
        ensures
            r.state is NotStarted,
    {
        IsoIntegrityChecker { state: IsoMd5CheckState::NotStarted }
    }

    /// Marks the check as running.
    pub fn begin(&mut self)
        requires
            old(self).state is NotStarted,
        ensures
            final(self).state is InProgress,
    {
        self.state = IsoMd5CheckState::InProgress;
    }

    /// Records the completed digest, classifies it, and reports whether the
    /// desync warning must be raised: true exactly when the digest is on the
    /// known desync list.
    pub fn complete_with_digest(&mut self, digest: String) -> (warn: bool)
        requires
            old(self).state is InProgress,
        ensures
            warn <==> spec_is_known_desync(digest@),
            final(self).state is Complete,
            spec_iso_hash(final(self).state) == Some(digest@),
            warn ==> (final(self).state matches IsoMd5CheckState::Complete(
                IsoMd5CheckResult::KnownDesyncIso { hash: h },
            ) && h@ == digest@),
            !warn ==> (final(self).state matches IsoMd5CheckState::Complete(
                IsoMd5CheckResult::SafeIso { hash: h },
            ) && h@ == digest@),
    {
        let warn = is_known_desync_hash(digest.as_str());
        let result = classify_digest(digest);
        self.state = IsoMd5CheckState::Complete(result);
        warn
    }

    /// Records that the image could not be opened or read; the failure is
    /// captured, never escalated.
    pub fn complete_failed(&mut self)
        requires
            old(self).state is InProgress,
        ensures
            final(self).state == IsoMd5CheckState::Complete(IsoMd5CheckResult::Failed),
    {
        self.state = IsoMd5CheckState::Complete(IsoMd5CheckResult::Failed);
    }
}

} // verus!
