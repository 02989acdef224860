//! Where the running version stands against the latest release.
//!
//! Versions are compared as semantic versions, which is left to `semver`.
//! What is decided here is what is handed to it, and what its answer means.

use crate::text::chars_of;
use vstd::prelude::*;

verus! {

/// Where the running version stands against the latest release.
#[derive(Clone, Copy, Debug, PartialEq, Eq)]
pub enum Standing {
    /// The latest release is newer.
    Behind,
    /// The running version is the latest release.
    Current,
    /// The running version is newer than the latest release.
    Ahead,
    /// One of the two is no version, so nothing can be told.
    Unknown,
}

/// How `semver` orders two versions given as texts: negative where the first
/// comes before the second, zero where neither comes before the other,
/// positive where the first comes after. `None` where `semver::Version::parse`
/// rejects one of the texts.
pub uninterp spec fn version_order(current: Seq<char>, latest: Seq<char>) -> Option<int>;

/// A text without the letters `v` that it starts with.
pub open spec fn without_leading_v(s: Seq<char>) -> Seq<char>
    decreases s.len(),
{
    if s.len() > 0 && s[0] == 'v' {
        without_leading_v(s.skip(1))
    } else {
        s
    }
}

/// What an order of the running version against the latest release means.
pub open spec fn standing_of(order: Option<int>) -> Standing {
    match order {
        Some(n) => if n < 0 {
            Standing::Behind
        } else if n == 0 {
            Standing::Current
        } else {
            Standing::Ahead
        },
        None => Standing::Unknown,
    }
}

/// The order that a number stands for.
pub open spec fn order_of(number: Option<i8>) -> Option<int> {
    match number {
        Some(n) => Some(n as int),
        None => None,
    }
}

/// Calls `semver::Version::parse` on both texts and compares the versions
/// with their `cmp`. The claim is only that the result is a function of the
/// two texts.
#[verifier::external_body]
fn order_versions(current: &str, latest: &str) -> (r: Option<i8>)
    ensures
        r is Some == version_order(current@, latest@) is Some,
        r matches Some(n) ==> version_order(current@, latest@)->0 == n,
{
    match (semver::Version::parse(current), semver::Version::parse(latest)) {
        (Ok(c), Ok(l)) => Some(
            match c.cmp(&l) {
                std::cmp::Ordering::Less => -1,
                std::cmp::Ordering::Equal => 0,
                std::cmp::Ordering::Greater => 1,
            },
        ),
        _ => None,
    }
}

/// Takes the letters `v` off the start of a text.
pub fn strip_leading_v(s: &str) -> (rest: String)
    ensures
        rest@ == without_leading_v(s@),
{
    let c = chars_of(s);
    let mut start: usize = 0;
    assert(s@.skip(0) =~= s@);
    while start < c.len() && c[start] == 'v'
        invariant
            c@ == s@,
            start <= c.len(),
            without_leading_v(s@) == without_leading_v(s@.skip(start as int)),
        decreases c.len() - start,
    {
        proof {
            let tail = s@.skip(start as int);
            assert(tail[0] == 'v');
            assert(tail.skip(1) =~= s@.skip(start + 1));
        }
        start += 1;
    }
    proof {
        let tail = s@.skip(start as int);
        if start < c.len() {
            assert(tail[0] == c@[start as int]);
        }
        assert(tail =~= s@.subrange(start as int, s@.len() as int));
    }
    String::from_str(s.substring_char(start, c.len()))
}

/// Tells what an order of the running version against the latest release
/// means.
pub fn standing_from_order(order: Option<i8>) -> (s: Standing)
    ensures
        s == standing_of(order_of(order)),
{
    match order {
        Some(n) => {
            if n < 0 {
                Standing::Behind
            } else if n == 0 {
                Standing::Current
            } else {
                Standing::Ahead
            }
        },
        None => Standing::Unknown,
    }
}

/// Tells where the running version stands against the tag of the latest
/// release. Either may start with `v`.
pub fn release_standing(current: &str, latest_tag: &str) -> (s: Standing)
    ensures
        s == standing_of(
            version_order(without_leading_v(current@), without_leading_v(latest_tag@)),
        ),
{
    let current = strip_leading_v(current);
    let latest = strip_leading_v(latest_tag);
    standing_from_order(order_versions(current.as_str(), latest.as_str()))
}

} // verus!
