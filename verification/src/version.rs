//! Version of this package.
use crate::text::{digits_value, parse_unsigned, unsigned_value};
use vstd::prelude::*;

verus! {

/// The version of the package, as the manifest has it.
pub const PKG_VERSION: &'static str = "0.1.0";

/// The first component of [`PKG_VERSION`].
pub const PKG_VERSION_MAJOR: &'static str = "0";

/// The second component of [`PKG_VERSION`].
pub const PKG_VERSION_MINOR: &'static str = "1";

/// The third component of [`PKG_VERSION`].
pub const PKG_VERSION_PATCH: &'static str = "0";

/// Whether the build asked `git` about the sources.
pub const GIT_ASKED: bool = false;

/// What `git describe --tags` said of the sources, if the build asked and got an
/// answer.
pub const GIT_VERSION: Option<&'static str> = None;

/// The short hash of the commit that the sources are at, if the build asked and
/// got an answer.
pub const GIT_COMMIT_HASH: Option<&'static str> = None;

/// What stands for the revision where the build did not ask for it.
pub const UNKNOWN: &'static str = "UNKNOWN";

/// The number that a component of the version stands for.
fn component(text: &str) -> (n: u64)
    requires
        unsigned_value(text@) matches Some(n) && n <= u64::MAX,
    ensures
        unsigned_value(text@) == Some(n as nat),
{
    parse_unsigned(text, u64::MAX).unwrap()
}

/// The components of the version stand for numbers.
proof fn lemma_components()
    ensures
        unsigned_value(PKG_VERSION_MAJOR@) == Some(0nat),
        unsigned_value(PKG_VERSION_MINOR@) == Some(1nat),
        unsigned_value(PKG_VERSION_PATCH@) == Some(0nat),
{
    reveal_strlit("0");
    reveal_strlit("1");
    reveal_with_fuel(digits_value, 2);
}

/// Major version component. It is increased with every incompatible change.
pub fn major() -> (n: u64)
    ensures
        unsigned_value(PKG_VERSION_MAJOR@) == Some(n as nat),
        n == 0,
{
    proof {
        lemma_components();
    }
    component(PKG_VERSION_MAJOR)
}

/// Minor version component. It is increased with every compatible addition.
pub fn minor() -> (n: u64)
    ensures
        unsigned_value(PKG_VERSION_MINOR@) == Some(n as nat),
        n == 1,
{
    proof {
        lemma_components();
    }
    component(PKG_VERSION_MINOR)
}

/// Patch version component. It is increased with every compatible correction.
pub fn patch() -> (n: u64)
    ensures
        unsigned_value(PKG_VERSION_PATCH@) == Some(n as nat),
        n == 0,
{
    proof {
        lemma_components();
    }
    component(PKG_VERSION_PATCH)
}

/// The version of the package: its three components, with dots between them.
pub fn short() -> (version: String)
    ensures
        version@ == PKG_VERSION@,
        version@ == PKG_VERSION_MAJOR@ + "."@ + PKG_VERSION_MINOR@ + "."@ + PKG_VERSION_PATCH@,
{
    proof {
        reveal_strlit("0.1.0");
        reveal_strlit("0");
        reveal_strlit("1");
        reveal_strlit(".");
    }
    let version = PKG_VERSION.to_owned();
    assert(version@ =~= PKG_VERSION_MAJOR@ + "."@ + PKG_VERSION_MINOR@ + "."@
        + PKG_VERSION_PATCH@);
    version
}

/// A version and the commit behind it, if that has a name.
pub open spec fn version_and_hash(version: Seq<char>, hash: Seq<char>) -> Seq<char> {
    if hash.len() == 0 {
        version
    } else {
        version + " - "@ + hash
    }
}

/// A version, and in brackets what `git describe` says of the sources.
pub open spec fn version_and_description(version: Seq<char>, description: Seq<char>) -> Seq<char> {
    version + " ("@ + description + ")"@
}

/// `version`, followed by `hash` if that is not empty.
pub fn with_hash(version: &str, hash: &str) -> (text: String)
    ensures
        text@ == version_and_hash(version@, hash@),
{
    let mut text = version.to_owned();
    if hash.unicode_len() > 0 {
        text.append(" - ");
        text.append(hash);
    }
    text
}

/// `version`, followed by `description` in brackets.
pub fn with_description(version: &str, description: &str) -> (text: String)
    ensures
        text@ == version_and_description(version@, description@),
{
    let mut text = version.to_owned();
    text.append(" (");
    text.append(description);
    text.append(")");
    text
}

/// What a build recorded: the answer that it got, or nothing.
pub open spec fn recorded_text(recorded: Option<&str>) -> Seq<char> {
    match recorded {
        Some(text) => text@,
        None => Seq::empty(),
    }
}

/// The revision as it is shown: what was recorded if the build asked, and
/// [`UNKNOWN`] if it did not.
pub open spec fn revision_text(asked: bool, recorded: Option<&str>) -> Seq<char> {
    if asked {
        recorded_text(recorded)
    } else {
        UNKNOWN@
    }
}

/// What a build recorded: the answer that it got, or the empty text.
pub fn recorded_revision(recorded: Option<&str>) -> (revision: String)
    ensures
        revision@ == recorded_text(recorded),
{
    match recorded {
        Some(text) => text.to_owned(),
        None => String::new(),
    }
}

/// The revision as it is shown, for a build that asked `git` or did not.
pub fn shown_revision(asked: bool, recorded: Option<&str>) -> (revision: String)
    ensures
        revision@ == revision_text(asked, recorded),
{
    if asked {
        recorded_revision(recorded)
    } else {
        UNKNOWN.to_owned()
    }
}

/// The version of the package, followed by the commit that it was built from, if
/// one is known.
pub fn long() -> (version: String)
    ensures
        version@ == version_and_hash(PKG_VERSION@, recorded_text(GIT_COMMIT_HASH)),
        GIT_COMMIT_HASH is None ==> version@ == PKG_VERSION@,
{
    let version = short();
    let hash = recorded_revision(GIT_COMMIT_HASH);
    with_hash(version.as_str(), hash.as_str())
}

/// The commit that the package was built from, or [`UNKNOWN`].
pub fn hash() -> (hash: String)
    ensures
        hash@ == revision_text(GIT_ASKED, GIT_COMMIT_HASH),
        !GIT_ASKED ==> hash@ == UNKNOWN@,
{
    shown_revision(GIT_ASKED, GIT_COMMIT_HASH)
}

/// The version of the package, with what `git describe --tags` said of the
/// sources, or [`UNKNOWN`].
pub fn full() -> (version: String)
    ensures
        version@ == version_and_description(
            PKG_VERSION@,
            revision_text(GIT_ASKED, GIT_VERSION),
        ),
{
    let version = short();
    let description = shown_revision(GIT_ASKED, GIT_VERSION);
    with_description(version.as_str(), description.as_str())
}

/// A version that a hash follows is the version, a hyphen between two spaces, and
/// the hash, each in full. Without a hash it is the version alone.
pub proof fn law_hash_follows_the_version(version: Seq<char>, hash: Seq<char>)
    ensures
        hash.len() == 0 ==> version_and_hash(version, hash) == version,
        hash.len() > 0 ==> version_and_hash(version, hash) == version + seq![' ', '-', ' '] + hash,
{
    reveal_strlit(" - ");
    assert(" - "@ =~= seq![' ', '-', ' ']);
}

/// A version with a description is the version, a space, and the description in
/// round brackets, each in full.
pub proof fn law_description_follows_the_version(version: Seq<char>, description: Seq<char>)
    ensures
        version_and_description(version, description) == version + seq![' ', '('] + description
            + seq![')'],
{
    reveal_strlit(" (");
    reveal_strlit(")");
    assert(" ("@ =~= seq![' ', '(']);
    assert(")"@ =~= seq![')']);
}

/// A build that asked shows what it recorded, in full, and one that recorded
/// nothing shows nothing. A build that did not ask says that the revision is
/// unknown, whatever is recorded.
pub proof fn law_revision_is_what_was_recorded(text: &str, recorded: Option<&str>)
    ensures
        recorded_text(Some(text)) == text@,
        recorded_text(None) == Seq::<char>::empty(),
        revision_text(true, Some(text)) == text@,
        revision_text(true, None) == Seq::<char>::empty(),
        revision_text(false, recorded) == seq!['U', 'N', 'K', 'N', 'O', 'W', 'N'],
{
    reveal_strlit("UNKNOWN");
    assert("UNKNOWN"@ =~= seq!['U', 'N', 'K', 'N', 'O', 'W', 'N']);
}

} // verus!
