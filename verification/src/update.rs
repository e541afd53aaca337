//! The update notice: whether the release that a tag names is newer than
//! the running version.

use crate::report::{decimal, push_decimal};
use vstd::prelude::*;

verus! {

/// `semver::Error`, the error of the version parser.
#[verifier::external_type_specification]
#[verifier::external_body]
pub struct ExSemverError(semver::Error);

/// The version of the running program.
pub const CURRENT_VERSION: &'static str = "0.6.7";

/// A semantic version, in its parts.
#[derive(Clone, Debug, PartialEq, Eq)]
pub struct ReleaseVersion {
    pub major: u64,
    pub minor: u64,
    pub patch: u64,
    /// The pre-release identifiers, without the hyphen; empty for a release.
    pub pre: String,
    /// The build metadata, without the plus sign; mostly empty.
    pub build: String,
}

/// A `ReleaseVersion` as plain values.
pub struct VersionView {
    pub major: nat,
    pub minor: nat,
    pub patch: nat,
    pub pre: Seq<char>,
    pub build: Seq<char>,
}

impl View for ReleaseVersion {
    type V = VersionView;

    open spec fn view(&self) -> VersionView {
        VersionView {
            major: self.major as nat,
            minor: self.minor as nat,
            patch: self.patch as nat,
            pre: self.pre@,
            build: self.build@,
        }
    }
}

/// The version that `semver::Version::parse` reads from a text, or `None`
/// where the text is no semantic version.
pub uninterp spec fn semver_parse(text: Seq<char>) -> Option<VersionView>;

/// Whether the first version is greater than the second in the order of
/// `semver::Version`, or `None` where the parts of one of them do not make
/// up a version.
pub uninterp spec fn semver_exceeds(a: VersionView, b: VersionView) -> Option<bool>;

/// `semver::Version::parse`: reads a version, whose parts are handed out.
/// The result depends on the text alone.
#[verifier::external_body]
fn parse_version(text: &str) -> (r: Result<ReleaseVersion, semver::Error>)
    ensures
        match r {
            Ok(version) => semver_parse(text@) == Some(version@),
            Err(_) => semver_parse(text@).is_none(),
        },
{
    match semver::Version::parse(text) {
        Ok(v) => Ok(
            ReleaseVersion {
                major: v.major,
                minor: v.minor,
                patch: v.patch,
                pre: v.pre.as_str().to_string(),
                build: v.build.as_str().to_string(),
            },
        ),
        Err(error) => Err(error),
    }
}

/// The comparison `>` of `semver::Version`, on two versions put together
/// from their parts. `None` where `Prerelease::new` or `BuildMetadata::new`
/// refuses a part.
#[verifier::external_body]
fn version_exceeds(a: &ReleaseVersion, b: &ReleaseVersion) -> (r: Option<bool>)
    ensures
        r == semver_exceeds(a@, b@),
{
    let mut x = semver::Version::new(a.major, a.minor, a.patch);
    x.pre = semver::Prerelease::new(&a.pre).ok()?;
    x.build = semver::BuildMetadata::new(&a.build).ok()?;
    let mut y = semver::Version::new(b.major, b.minor, b.patch);
    y.pre = semver::Prerelease::new(&b.pre).ok()?;
    y.build = semver::BuildMetadata::new(&b.build).ok()?;
    Some(x > y)
}

/// `to_string` on `semver::Error`: the parser's description of its error.
/// Nothing is claimed of the text.
#[verifier::external_body]
fn parse_error_text(error: &semver::Error) -> String {
    error.to_string()
}

/// Why no answer on updates could be given.
#[derive(Clone, Debug, PartialEq, Eq)]
pub enum UpdateError {
    /// The running version is no semantic version; its text and the
    /// parser's message are kept.
    CurrentVersion(String, String),
    /// The tag of the latest release names no semantic version; the tag and
    /// the parser's message are kept.
    LatestVersion(String, String),
}

/// An `UpdateError` without the parser's message.
pub enum UpdateErrorView {
    CurrentVersion(Seq<char>),
    LatestVersion(Seq<char>),
}

impl View for UpdateError {
    type V = UpdateErrorView;

    open spec fn view(&self) -> UpdateErrorView {
        match self {
            UpdateError::CurrentVersion(text, _) => UpdateErrorView::CurrentVersion(text@),
            UpdateError::LatestVersion(tag, _) => UpdateErrorView::LatestVersion(tag@),
        }
    }
}

/// A text without the characters `c` at its start.
pub open spec fn without_leading(text: Seq<char>, c: char) -> Seq<char>
    decreases text.len(),
{
    if text.len() > 0 && text[0] == c {
        without_leading(text.subrange(1, text.len() as int), c)
    } else {
        text
    }
}

/// A version as it is written: the three numbers with dots between them,
/// then a hyphen and the pre-release identifiers, if there are any, then a
/// plus sign and the build metadata, if there is any.
pub open spec fn version_text(v: VersionView) -> Seq<char> {
    decimal(v.major) + seq!['.'] + decimal(v.minor) + seq!['.'] + decimal(v.patch) + (if v.pre.len()
        > 0 {
        seq!['-'] + v.pre
    } else {
        Seq::empty()
    }) + (if v.build.len() > 0 {
        seq!['+'] + v.build
    } else {
        Seq::empty()
    })
}

/// The notice for the latest release, given whether it exceeds the running
/// version: its text where it does, nothing where it does not or where the
/// two could not be compared.
pub open spec fn notice_for(latest: VersionView, exceeds: Option<bool>) -> Option<Seq<char>> {
    if exceeds == Some(true) {
        Some(version_text(latest))
    } else {
        None
    }
}

/// The answer on updates for the running version `current`, given whether
/// the request for the latest release was answered with success, and the
/// tag that the answer named, if it named one. The running version is read
/// first; an answer without success or without a tag means no update; a
/// tag may start with any number of `v`.
pub open spec fn update_of(current: Seq<char>, success: bool, tag: Option<Seq<char>>) -> Result<
    Option<Seq<char>>,
    UpdateErrorView,
> {
    match semver_parse(current) {
        None => Err(UpdateErrorView::CurrentVersion(current)),
        Some(running) => match tag {
            Some(tag) if success => match semver_parse(without_leading(tag, 'v')) {
                None => Err(UpdateErrorView::LatestVersion(tag)),
                Some(latest) => Ok(notice_for(latest, semver_exceeds(latest, running))),
            },
            _ => Ok(None),
        },
    }
}

/// An answer on updates as plain values.
pub open spec fn answer_view(r: Result<Option<String>, UpdateError>) -> Result<
    Option<Seq<char>>,
    UpdateErrorView,
> {
    match r {
        Ok(Some(text)) => Ok(Some(text@)),
        Ok(None) => Ok(None),
        Err(error) => Err(error@),
    }
}

/// Removes every `c` from the start of a text.
pub fn strip_leading(text: &str, c: char) -> (r: &str)
    ensures
        r@ == without_leading(text@, c),
{
    let len = text.unicode_len();
    let mut i: usize = 0;
    assert(text@.subrange(0, len as int) =~= text@);
    while i < len && text.get_char(i) == c
        invariant
            len == text@.len(),
            i <= len,
            without_leading(text@, c) == without_leading(text@.subrange(i as int, len as int), c),
        decreases len - i,
    {
        proof {
            let rest = text@.subrange(i as int, len as int);
            assert(rest[0] == c);
            assert(rest.subrange(1, rest.len() as int) =~= text@.subrange(
                i as int + 1,
                len as int,
            ));
        }
        i += 1;
    }
    proof {
        let rest = text@.subrange(i as int, len as int);
        if i < len {
            assert(rest[0] == text@[i as int]);
        }
    }
    text.substring_char(i, len)
}

impl ReleaseVersion {
    /// The version as it is written.
    pub fn to_text(&self) -> (r: String)
        ensures
            r@ == version_text(self@),
    {
        let mut r = String::new();
        push_decimal(&mut r, self.major);
        r.push('.');
        push_decimal(&mut r, self.minor);
        r.push('.');
        push_decimal(&mut r, self.patch);
        let ghost numbers = r@;
        assert(numbers =~= decimal(self@.major) + seq!['.'] + decimal(self@.minor) + seq!['.']
            + decimal(self@.patch));
        if !self.pre.as_str().is_empty() {
            r.push('-');
            r.append(self.pre.as_str());
        }
        let ghost with_pre = r@;
        assert(with_pre =~= numbers + (if self@.pre.len() > 0 {
            seq!['-'] + self@.pre
        } else {
            Seq::empty()
        }));
        if !self.build.as_str().is_empty() {
            r.push('+');
            r.append(self.build.as_str());
        }
        assert(r@ =~= with_pre + (if self@.build.len() > 0 {
            seq!['+'] + self@.build
        } else {
            Seq::empty()
        }));
        r
    }
}

impl UpdateError {
    /// The text that tells which version could not be read, and why.
    pub fn message(&self) -> (r: String)
        ensures
            r@ == match self {
                UpdateError::CurrentVersion(text, reason) => "Failed to parse current version '"@
                    + text@ + "': "@ + reason@,
                UpdateError::LatestVersion(tag, reason) => "Failed to parse latest version '"@
                    + tag@ + "': "@ + reason@,
            },
    {
        match self {
            UpdateError::CurrentVersion(text, reason) => {
                let mut r = String::from_str("Failed to parse current version '");
                r.append(text.as_str());
                r.append("': ");
                r.append(reason.as_str());
                r
            },
            UpdateError::LatestVersion(tag, reason) => {
                let mut r = String::from_str("Failed to parse latest version '");
                r.append(tag.as_str());
                r.append("': ");
                r.append(reason.as_str());
                r
            },
        }
    }
}

/// Decides on the notice for the latest release, once it is known whether
/// that release exceeds the running version.
pub fn newer_release(latest: &ReleaseVersion, exceeds: Option<bool>) -> (r: Option<String>)
    ensures
        match r {
            Some(text) => notice_for(latest@, exceeds) == Some(text@),
            None => notice_for(latest@, exceeds).is_none(),
        },
{
    match exceeds {
        Some(true) => Some(latest.to_text()),
        _ => None,
    }
}

/// Answers whether an update is available, from the answer to the request
/// for the latest release: the text of that release where the request
/// succeeded and its tag names a version greater than the running one,
/// nothing where it does not, where no tag was named or where the request
/// did not succeed, and an error where one of the two is no semantic
/// version.
pub fn check_for_updates(current_version: &str, success: bool, tag_name: Option<&str>) -> (r:
    Result<Option<String>, UpdateError>)
    ensures
        answer_view(r) == update_of(
            current_version@,
            success,
            match tag_name {
                Some(tag) => Some(tag@),
                None => None,
            },
        ),
{
    let running = match parse_version(current_version) {
        Ok(version) => version,
        Err(error) => {
            return Err(
                UpdateError::CurrentVersion(
                    String::from_str(current_version),
                    parse_error_text(&error),
                ),
            );
        },
    };
    if !success {
        return Ok(None);
    }
    match tag_name {
        None => Ok(None),
        Some(tag) => match parse_version(strip_leading(tag, 'v')) {
            Ok(latest) => Ok(newer_release(&latest, version_exceeds(&latest, &running))),
            Err(error) => Err(
                UpdateError::LatestVersion(String::from_str(tag), parse_error_text(&error)),
            ),
        },
    }
}

/// What the user is told about updates: a failed check counts as no update.
pub fn update_notice(answer: Result<Option<String>, UpdateError>) -> (r: Option<String>)
    ensures
        r == match answer {
            Ok(notice) => notice,
            Err(_) => None,
        },
{
    match answer {
        Ok(notice) => notice,
        Err(_) => None,
    }
}

} // verus!
