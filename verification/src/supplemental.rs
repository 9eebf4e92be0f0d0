//! Supplemental-data negotiation and extraction.
//!
//! Before verifying a quote, the protocol asks the oracle which
//! supplemental-data schema it supports and how large the filled structure
//! will be. A supplemental buffer is requested only when that size matches
//! the size this build expects; any mismatch signals a version skew between
//! the verification library and the compiled structure definitions, and the
//! protocol degrades gracefully by skipping supplemental data. After a
//! verification, the oracle-filled payload is distilled into version fields
//! and the list of advisory identifiers.

use vstd::prelude::*;
use vstd::string::*;

verus! {

/// The oracle's reply to the supplemental-data size query: the latest
/// supported schema version (major in the upper half, minor in the lower
/// half) and the byte size of the filled structure.
#[derive(Clone, Copy, Debug, PartialEq, Eq, Structural)]
pub struct SizeQueryReply {
    /// Combined schema version: major in the upper 16 bits, minor below.
    pub version: u32,
    /// Byte size the oracle will fill for this schema version.
    pub size: u32,
}

/// The major half of a combined supplemental-data version word.
pub open spec fn spec_major_of(version: u32) -> u16 {
    (version / 0x10000) as u16
}

/// The minor half of a combined supplemental-data version word.
pub open spec fn spec_minor_of(version: u32) -> u16 {
    (version % 0x10000) as u16
}

/// Splits a combined version word into its major and minor halves.
pub fn split_version(version: u32) -> (parts: (u16, u16))
    ensures
        parts.0 == spec_major_of(version),
        parts.1 == spec_minor_of(version),
{
    ((version / 0x10000) as u16, (version % 0x10000) as u16)
}

/// What the size negotiation decided: the schema version the oracle offered
/// and the buffer size to request, zero when no buffer is to be requested.
#[derive(Clone, Copy, Debug, PartialEq, Eq, Structural)]
pub struct SupplementalDataDescriptor {
    /// Major version of the schema the oracle offered, zero when inactive.
    pub major_version: u16,
    /// Minor version of the schema the oracle offered, zero when inactive.
    pub minor_version: u16,
    /// Size of the buffer to hand to the oracle; zero means none.
    pub data_size: u32,
    /// The oracle's error code when the size query itself failed. The
    /// failure is recorded here as an advisory, never escalated: the
    /// verification proceeds without supplemental data.
    pub query_error: Option<u32>,
}

impl SupplementalDataDescriptor {
    /// Whether a supplemental buffer will be requested from the oracle.
    pub open spec fn is_active(self) -> bool {
        self.data_size != 0
    }

    /// A descriptor is well formed for a build expecting `expected_size`
    /// when it requests either no buffer or exactly the expected one.
    pub open spec fn well_formed(self, expected_size: u32) -> bool {
        self.data_size == 0 || self.data_size == expected_size
    }

    /// Exec mirror of [`Self::is_active`].
    pub fn active(&self) -> (b: bool)
        ensures
            b == self.is_active(),
    {
        self.data_size != 0
    }
}

/// The descriptor the negotiation produces for a given oracle reply.
pub open spec fn spec_negotiate(
    reply: Result<SizeQueryReply, u32>,
    expected_size: u32,
) -> SupplementalDataDescriptor {
    match reply {
        Result::Ok(q) => {
            if q.size == expected_size {
                SupplementalDataDescriptor {
                    major_version: spec_major_of(q.version),
                    minor_version: spec_minor_of(q.version),
                    data_size: q.size,
                    query_error: None,
                }
            } else {
                SupplementalDataDescriptor {
                    major_version: 0,
                    minor_version: 0,
                    data_size: 0,
                    query_error: None,
                }
            }
        },
        Result::Err(e) => SupplementalDataDescriptor {
            major_version: 0,
            minor_version: 0,
            data_size: 0,
            query_error: Some(e),
        },
    }
}

/// Decides the supplemental-data descriptor from the oracle's reply to the
/// size query.
///
/// A buffer is requested only when the oracle's size equals the size this
/// build expects; a mismatch or a failed query yields an inactive
/// descriptor, and a failed query is recorded in `query_error`. Neither is
/// an error of the negotiation: supplemental data is an enrichment, not a
/// correctness requirement.
pub fn negotiate_supplemental_descriptor(
    reply: &Result<SizeQueryReply, u32>,
    expected_size: u32,
) -> (desc: SupplementalDataDescriptor)
    ensures
        desc == spec_negotiate(*reply, expected_size),
        desc.well_formed(expected_size),
        desc.is_active() <==> (*reply matches Result::Ok(q) && q.size == expected_size
            && expected_size != 0),
        desc.query_error is Some <==> *reply is Err,
{
    match *reply {
        Result::Ok(q) => {
            if q.size == expected_size {
                let (major, minor) = split_version(q.version);
                SupplementalDataDescriptor {
                    major_version: major,
                    minor_version: minor,
                    data_size: q.size,
                    query_error: None,
                }
            } else {
                SupplementalDataDescriptor {
                    major_version: 0,
                    minor_version: 0,
                    data_size: 0,
                    query_error: None,
                }
            }
        },
        Result::Err(e) => SupplementalDataDescriptor {
            major_version: 0,
            minor_version: 0,
            data_size: 0,
            query_error: Some(e),
        },
    }
}

/// The combined version word for a major/minor pair, as the oracle lays the
/// two halves of its supplemental structure's version field out in memory:
/// major in the low 16 bits, minor above.
pub open spec fn spec_packed_version(major: u16, minor: u16) -> u32 {
    (major + minor * 0x10000) as u32
}

/// Whether a supplemental schema version carries an advisory-identifier
/// list. Advisory lists exist from schema version 3.1 on, which is exactly
/// when the packed version word exceeds 3.
pub open spec fn spec_advisory_support(major: u16, minor: u16) -> bool {
    spec_packed_version(major, minor) > 3
}

/// The packed version word exceeds 3 exactly when the minor version is
/// nonzero or the major version exceeds 3: the two readings of "supported
/// from version 3.1" agree.
pub proof fn lemma_advisory_support_unpacked(major: u16, minor: u16)
    ensures
        spec_advisory_support(major, minor) <==> (major > 3 || minor >= 1),
{
    assert(major + minor * 0x10000 <= 0xFFFFFFFF);
}

/// Whether a supplemental schema version carries an advisory list.
pub fn advisory_support(major: u16, minor: u16) -> (b: bool)
    ensures
        b == spec_advisory_support(major, minor),
{
    proof {
        lemma_advisory_support_unpacked(major, minor);
    }
    major > 3 || minor >= 1
}

/// The index of the first comma in `s`, or `s.len()` when there is none.
pub open spec fn spec_first_comma(s: Seq<char>) -> int
    decreases s.len(),
{
    if s.len() == 0 {
        0
    } else if s[0] == ',' {
        0
    } else {
        1 + spec_first_comma(s.subrange(1, s.len() as int))
    }
}

/// What [`spec_first_comma`] finds: an in-range position, a comma when in
/// range, and nothing but non-commas before it.
pub proof fn lemma_first_comma(s: Seq<char>)
    ensures
        0 <= spec_first_comma(s) <= s.len(),
        spec_first_comma(s) < s.len() ==> s[spec_first_comma(s)] == ',',
        forall|j: int| 0 <= j < spec_first_comma(s) ==> s[j] != ',',
    decreases s.len(),
{
    if s.len() == 0 {
    } else if s[0] == ',' {
    } else {
        let tail = s.subrange(1, s.len() as int);
        lemma_first_comma(tail);
        assert forall|j: int| 0 <= j < spec_first_comma(s) implies s[j] != ',' by {
            if j > 0 {
                assert(tail[j - 1] == s[j]);
            }
        }
    }
}

/// A position with no comma before it, and a comma (or the end) at it, is
/// exactly what [`spec_first_comma`] finds.
pub proof fn lemma_first_comma_at(s: Seq<char>, i: int)
    requires
        0 <= i <= s.len(),
        forall|j: int| 0 <= j < i ==> s[j] != ',',
        i < s.len() ==> s[i] == ',',
    ensures
        spec_first_comma(s) == i,
    decreases s.len(),
{
    if s.len() == 0 {
    } else if s[0] == ',' {
        assert(i == 0);
    } else {
        let tail = s.subrange(1, s.len() as int);
        assert(i >= 1);
        assert forall|j: int| 0 <= j < i - 1 implies tail[j] != ',' by {
            assert(tail[j] == s[j + 1]);
        }
        lemma_first_comma_at(tail, i - 1);
    }
}

/// The comma-separated fields of `s`, commas removed, in order. A sequence
/// without commas is a single field; each comma ends a field, so trailing
/// or doubled commas yield empty fields.
pub open spec fn spec_comma_split(s: Seq<char>) -> Seq<Seq<char>>
    decreases s.len(),
    via spec_comma_split_decreases
{
    let i = spec_first_comma(s);
    if i >= s.len() {
        seq![s]
    } else {
        seq![s.subrange(0, i)] + spec_comma_split(s.subrange(i + 1, s.len() as int))
    }
}

#[via_fn]
proof fn spec_comma_split_decreases(s: Seq<char>) {
    lemma_first_comma(s);
}

/// The index of the first comma in `s`, or its character length when it has
/// none.
pub fn first_comma_index(s: &str) -> (i: usize)
    ensures
        i == spec_first_comma(s@),
{
    let n = s.unicode_len();
    let mut i: usize = 0;
    while i < n
        invariant
            0 <= i <= n,
            n == s@.len(),
            forall|j: int| 0 <= j < i ==> s@[j] != ',',
        decreases n - i,
    {
        if s.get_char(i) == ',' {
            proof {
                lemma_first_comma_at(s@, i as int);
            }
            return i;
        }
        i = i + 1;
    }
    proof {
        lemma_first_comma_at(s@, n as int);
    }
    n
}

/// The supplemental fields the oracle filled in during a verification, as
/// the adapter hands them over: the schema version of the filled structure
/// and its advisory list, still one comma-separated text.
#[derive(Debug, PartialEq, Eq)]
pub struct SupplementalPayload {
    /// Major version of the structure the oracle filled.
    pub major_version: u16,
    /// Minor version of the structure the oracle filled.
    pub minor_version: u16,
    /// The advisory identifiers, comma-separated; empty when none.
    pub advisories: String,
}

/// Mathematical model of a [`SupplementalPayload`].
pub struct SupplementalPayloadView {
    /// Major version of the structure the oracle filled.
    pub major_version: u16,
    /// Minor version of the structure the oracle filled.
    pub minor_version: u16,
    /// The advisory text as a character sequence.
    pub advisories: Seq<char>,
}

impl View for SupplementalPayload {
    type V = SupplementalPayloadView;

    open spec fn view(&self) -> SupplementalPayloadView {
        SupplementalPayloadView {
            major_version: self.major_version,
            minor_version: self.minor_version,
            advisories: self.advisories@,
        }
    }
}

/// The human-relevant reading of a supplemental payload: its schema version
/// and the advisory identifiers, split apart. Attached to decisions for
/// audit; never part of the accept/reject choice itself.
#[derive(Debug, PartialEq, Eq)]
pub struct SupplementalInfo {
    /// Major version of the supplemental schema.
    pub major_version: u16,
    /// Minor version of the supplemental schema.
    pub minor_version: u16,
    /// The advisory identifiers, in the oracle's order; empty when the
    /// schema version predates advisory lists or none were reported.
    pub advisory_ids: Vec<String>,
}

/// Mathematical model of a [`SupplementalInfo`].
pub struct SupplementalInfoView {
    /// Major version of the supplemental schema.
    pub major_version: u16,
    /// Minor version of the supplemental schema.
    pub minor_version: u16,
    /// The advisory identifiers as character sequences.
    pub advisory_ids: Seq<Seq<char>>,
}

impl View for SupplementalInfo {
    type V = SupplementalInfoView;

    open spec fn view(&self) -> SupplementalInfoView {
        SupplementalInfoView {
            major_version: self.major_version,
            minor_version: self.minor_version,
            advisory_ids: self.advisory_ids@.map_values(|t: String| t@),
        }
    }
}

/// The reading [`extract_supplemental_info`] gives a payload: versions kept,
/// the advisory text split at commas — but only when the schema version
/// says advisory lists exist and the text is non-empty, else no advisories.
pub open spec fn spec_extract_supplemental(p: SupplementalPayloadView) -> SupplementalInfoView {
    SupplementalInfoView {
        major_version: p.major_version,
        minor_version: p.minor_version,
        advisory_ids: if spec_advisory_support(p.major_version, p.minor_version)
            && p.advisories.len() > 0 {
            spec_comma_split(p.advisories)
        } else {
            Seq::empty()
        },
    }
}

/// Distills an oracle-filled supplemental payload into its schema version
/// and advisory identifiers. The advisory list is read only when the schema
/// version indicates advisory support; its absence is not an error.
pub fn extract_supplemental_info(payload: &SupplementalPayload) -> (info: SupplementalInfo)
    ensures
        info@ == spec_extract_supplemental(payload@),
{
    let advisory_ids: Vec<String> = if advisory_support(
        payload.major_version,
        payload.minor_version,
    ) && payload.advisories.as_str().unicode_len() > 0 {
        split_comma_list(payload.advisories.as_str())
    } else {
        Vec::new()
    };
    let info = SupplementalInfo {
        major_version: payload.major_version,
        minor_version: payload.minor_version,
        advisory_ids,
    };
    proof {
        assert(info@.advisory_ids =~= spec_extract_supplemental(payload@).advisory_ids);
    }
    info
}

/// Splits a comma-separated list into its fields, in order.
pub fn split_comma_list(s: &str) -> (fields: Vec<String>)
    ensures
        fields@.map_values(|t: String| t@) == spec_comma_split(s@),
    decreases s@.len(),
{
    let n = s.unicode_len();
    let i = first_comma_index(s);
    proof {
        lemma_first_comma(s@);
    }
    let mut fields: Vec<String> = Vec::new();
    if i >= n {
        fields.push(s.to_owned());
        proof {
            assert(fields@.map_values(|t: String| t@) =~= spec_comma_split(s@));
        }
    } else {
        let head = s.substring_char(0, i);
        let tail = s.substring_char(i + 1, n);
        fields.push(head.to_owned());
        let mut rest = split_comma_list(tail);
        fields.append(&mut rest);
        proof {
            assert(fields@.map_values(|t: String| t@) =~= spec_comma_split(s@));
        }
    }
    fields
}

} // verus!
