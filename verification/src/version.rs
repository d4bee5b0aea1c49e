//! Release versions: a channel, three version numbers and a revision, with
//! parsing from and formatting to the `major.minor.patch[-channel.revision]`
//! notation.

use vstd::prelude::*;

use crate::text::dec_seq;
use crate::text::parse_u32_or_zero;
use crate::text::parse_u32_or_zero_spec;
use crate::text::str_eq;
use crate::text::u32_to_string;

verus! {

/// The release channel a version belongs to.  `Nightly` is also known as the
/// development branch.
#[derive(Debug, Clone, Copy, PartialEq, Eq, PartialOrd, Ord, Structural)]
pub enum Channel {
    Final,
    Nightly,
    Alpha,
    Beta,
}

impl Channel {
    pub open spec fn label_spec(self) -> Seq<char> {
        match self {
            Channel::Nightly => "nightly"@,
            Channel::Final => "final"@,
            Channel::Alpha => "alpha"@,
            Channel::Beta => "beta"@,
        }
    }

    /// The channel's lower-case name, as it appears in a formatted version.
    pub fn label(&self) -> (r: &'static str)
        ensures
            r@ == self.label_spec(),
    {
        match self {
            Channel::Nightly => "nightly",
            Channel::Final => "final",
            Channel::Alpha => "alpha",
            Channel::Beta => "beta",
        }
    }

    /// Where the channel stands in the release order: `Final` before
    /// `Nightly` before `Alpha` before `Beta`, as versions compare.
    pub open spec fn rank_spec(self) -> u32 {
        match self {
            Channel::Final => 0,
            Channel::Nightly => 1,
            Channel::Alpha => 2,
            Channel::Beta => 3,
        }
    }

    pub fn rank(&self) -> (r: u32)
        ensures
            r == self.rank_spec(),
    {
        match self {
            Channel::Final => 0,
            Channel::Nightly => 1,
            Channel::Alpha => 2,
            Channel::Beta => 3,
        }
    }

    pub open spec fn is_channel_name(s: Seq<char>) -> bool {
        s == "nightly"@ || s == "alpha"@ || s == "beta"@ || s == "final"@
    }

    pub open spec fn of_name_spec(s: Seq<char>) -> Channel {
        if s == "nightly"@ {
            Channel::Nightly
        } else if s == "alpha"@ {
            Channel::Alpha
        } else if s == "beta"@ {
            Channel::Beta
        } else {
            Channel::Final
        }
    }

    /// The channel a lower-case name denotes.  Only the four known names are
    /// accepted; the program this library grew in refuses to continue on any
    /// other name, so the caller must rule them out first.
    pub fn from_name(s: &str) -> (r: Channel)
        requires
            Channel::is_channel_name(s@),
        ensures
            r == Channel::of_name_spec(s@),
    {
        if str_eq(s, "nightly") {
            Channel::Nightly
        } else if str_eq(s, "alpha") {
            Channel::Alpha
        } else if str_eq(s, "beta") {
            Channel::Beta
        } else {
            Channel::Final
        }
    }
}

pub open spec fn is_version_sep(c: char) -> bool {
    c == '.' || c == '-'
}

/// What splitting on `'.'` and `'-'` yields: the pieces between separators,
/// kept in order, empty pieces included.
pub open spec fn split_version_spec(s: Seq<char>) -> Seq<Seq<char>>
    decreases s.len(),
{
    if s.len() == 0 {
        seq![Seq::<char>::empty()]
    } else if is_version_sep(s[0]) {
        seq![Seq::<char>::empty()] + split_version_spec(s.skip(1))
    } else {
        let rest = split_version_spec(s.skip(1));
        seq![seq![s[0]] + rest[0]] + rest.skip(1)
    }
}

fn split_version_at(s: &str, i: usize) -> (r: Vec<String>)
    requires
        i <= s@.len(),
    ensures
        r.deep_view() == split_version_spec(s@.skip(i as int)),
        r@.len() >= 1,
    decreases s@.len() - i,
{
    let n = s.unicode_len();
    if i >= n {
        let mut v: Vec<String> = Vec::new();
        v.push(String::new());
        proof {
            assert(s@.skip(i as int) =~= Seq::<char>::empty());
            assert(v.deep_view() =~~= split_version_spec(s@.skip(i as int)));
        }
        v
    } else {
        let c = s.get_char(i);
        let ghost tail = s@.skip(i as int);
        proof {
            assert(tail[0] == s@[i as int]);
            assert(tail.skip(1) =~= s@.skip(i as int + 1));
        }
        let mut rest = split_version_at(s, i + 1);
        if c == '.' || c == '-' {
            rest.insert(0, String::new());
            proof {
                assert(rest.deep_view() =~~= split_version_spec(tail));
            }
            rest
        } else {
            let head = s.substring_char(i, i + 1);
            let mut first: String = head.to_owned();
            proof {
                assert(head@ =~= seq![s@[i as int]]);
            }
            let old0 = rest.remove(0);
            first.append(old0.as_str());
            rest.insert(0, first);
            proof {
                assert(rest.deep_view() =~~= split_version_spec(tail));
            }
            rest
        }
    }
}

/// Splits a version string on `'.'` and `'-'`, as its parsing reads it.
pub fn split_version(s: &str) -> (r: Vec<String>)
    ensures
        r.deep_view() == split_version_spec(s@),
        r@.len() >= 1,
{
    proof {
        assert(s@.skip(0) =~= s@);
    }
    split_version_at(s, 0)
}

/// A release version.  Versions order lexicographically by major, minor,
/// patch, channel rank and revision, and format as
/// `major.minor.patch` on the final channel, with `-channel.revision`
/// appended on every other channel.
#[derive(Debug, Clone, Copy, PartialEq, Eq, Structural)]
pub struct Version {
    pub channel: Channel,
    pub major: u32,
    pub minor: u32,
    pub patch: u32,
    pub revision: u32,
}

impl Version {
    pub open spec fn formatted_spec(self) -> Seq<char> {
        if self.channel == Channel::Final {
            dec_seq(self.major as nat) + "."@ + dec_seq(self.minor as nat) + "."@ + dec_seq(
                self.patch as nat,
            )
        } else {
            dec_seq(self.major as nat) + "."@ + dec_seq(self.minor as nat) + "."@ + dec_seq(
                self.patch as nat,
            ) + "-"@ + self.channel.label_spec() + "."@ + dec_seq(self.revision as nat)
        }
    }

    /// The version written the way releases are tagged: the channel and the
    /// revision appear only away from the final channel.
    pub fn formatted(&self) -> (r: String)
        ensures
            r@ == self.formatted_spec(),
    {
        let mut r = u32_to_string(self.major);
        r.append(".");
        let minor = u32_to_string(self.minor);
        r.append(minor.as_str());
        r.append(".");
        let patch = u32_to_string(self.patch);
        r.append(patch.as_str());
        match self.channel {
            Channel::Final => {
                proof {
                    assert(r@ =~= self.formatted_spec());
                }
            },
            _ => {
                r.append("-");
                r.append(self.channel.label());
                r.append(".");
                let rev = u32_to_string(self.revision);
                r.append(rev.as_str());
                proof {
                    assert(r@ =~= self.formatted_spec());
                }
            },
        }
        r
    }

    pub open spec fn tuple_spec(self) -> Seq<char> {
        "("@ + dec_seq(self.major as nat) + ", "@ + dec_seq(self.minor as nat) + ", "@ + dec_seq(
            self.patch as nat,
        ) + ", \""@ + self.channel.label_spec() + "\", "@ + dec_seq(self.revision as nat) + ")"@
    }

    /// The version written as a five-place tuple, the channel quoted.
    pub fn tuple(&self) -> (r: String)
        ensures
            r@ == self.tuple_spec(),
    {
        let mut r: String = String::from_str("(");
        let major = u32_to_string(self.major);
        r.append(major.as_str());
        r.append(", ");
        let minor = u32_to_string(self.minor);
        r.append(minor.as_str());
        r.append(", ");
        let patch = u32_to_string(self.patch);
        r.append(patch.as_str());
        r.append(", \"");
        r.append(self.channel.label());
        r.append("\", ");
        let rev = u32_to_string(self.revision);
        r.append(rev.as_str());
        r.append(")");
        proof {
            assert(r@ =~= self.tuple_spec());
        }
        r
    }

    /// The shapes `from_str` accepts: three pieces, or at least five with a
    /// known channel name in the fourth (the program this library grew in
    /// aborts on every other shape).
    pub open spec fn parse_ok_spec(s: Seq<char>) -> bool {
        let parts = split_version_spec(s);
        parts.len() == 3 || (parts.len() >= 5 && Channel::is_channel_name(parts[3]))
    }

    pub open spec fn from_str_spec(s: Seq<char>) -> Version {
        let parts = split_version_spec(s);
        let major = parse_u32_or_zero_spec(parts[0]);
        let minor = parse_u32_or_zero_spec(parts[1]);
        let patch = parse_u32_or_zero_spec(parts[2]);
        if parts.len() > 3 {
            Version {
                channel: Channel::of_name_spec(parts[3]),
                major,
                minor,
                patch,
                revision: parse_u32_or_zero_spec(parts[4]),
            }
        } else {
            Version { channel: Channel::Final, major, minor, patch, revision: 0 }
        }
    }

    /// Reads a version back from its notation, split on `'.'` and `'-'`:
    /// the first three pieces are the numbers, and a fourth piece names the
    /// channel with the revision in the fifth.  A piece that is no number
    /// counts as zero.
    pub fn from_str(version: &str) -> (r: Version)
        requires
            Version::parse_ok_spec(version@),
        ensures
            r == Version::from_str_spec(version@),
    {
        let parts = split_version(version);
        proof {
            assert(parts@[0]@ == parts.deep_view()[0]);
            assert(parts@[1]@ == parts.deep_view()[1]);
            assert(parts@[2]@ == parts.deep_view()[2]);
        }
        let major = parse_u32_or_zero(parts[0].as_str());
        let minor = parse_u32_or_zero(parts[1].as_str());
        let patch = parse_u32_or_zero(parts[2].as_str());
        if parts.len() > 3 {
            proof {
                assert(parts@[3]@ == parts.deep_view()[3]);
                assert(parts@[4]@ == parts.deep_view()[4]);
            }
            let channel = Channel::from_name(parts[3].as_str());
            let revision = parse_u32_or_zero(parts[4].as_str());
            Version { channel, major, minor, patch, revision }
        } else {
            Version { channel: Channel::Final, major, minor, patch, revision: 0 }
        }
    }

    /// Whether this version comes strictly before `other`: lexicographic on
    /// the major, minor and patch numbers, then on the channel's rank, then
    /// on the revision.
    pub open spec fn lt_spec(self, other: Version) -> bool {
        if self.major != other.major {
            self.major < other.major
        } else if self.minor != other.minor {
            self.minor < other.minor
        } else if self.patch != other.patch {
            self.patch < other.patch
        } else if self.channel != other.channel {
            self.channel.rank_spec() < other.channel.rank_spec()
        } else {
            self.revision < other.revision
        }
    }

    /// How this version stands to `other` in the release order.
    pub fn compare(&self, other: &Version) -> (r: core::cmp::Ordering)
        ensures
            (r == core::cmp::Ordering::Equal) == (*self == *other),
            (r == core::cmp::Ordering::Less) == self.lt_spec(*other),
            (r == core::cmp::Ordering::Greater) == other.lt_spec(*self),
    {
        if self.major != other.major {
            if self.major < other.major {
                core::cmp::Ordering::Less
            } else {
                core::cmp::Ordering::Greater
            }
        } else if self.minor != other.minor {
            if self.minor < other.minor {
                core::cmp::Ordering::Less
            } else {
                core::cmp::Ordering::Greater
            }
        } else if self.patch != other.patch {
            if self.patch < other.patch {
                core::cmp::Ordering::Less
            } else {
                core::cmp::Ordering::Greater
            }
        } else if self.channel.rank() != other.channel.rank() {
            if self.channel.rank() < other.channel.rank() {
                core::cmp::Ordering::Less
            } else {
                core::cmp::Ordering::Greater
            }
        } else {
            if self.revision != other.revision {
                if self.revision < other.revision {
                    core::cmp::Ordering::Less
                } else {
                    core::cmp::Ordering::Greater
                }
            } else {
                core::cmp::Ordering::Equal
            }
        }
    }
}

} // verus!
