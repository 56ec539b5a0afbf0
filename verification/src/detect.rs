//! The variant detection engine.
//!
//! Detection works on evidence gathered from the host: the outcome of
//! reading the primary os-release file, and the outcome of probing each
//! variant's own release marker file, in table order. The caller reads the
//! files and hands the outcomes in; everything decided from them is
//! verified here.
//!
//! Phase 1 parses the primary file and matches its `ID` and `VERSION_ID`
//! entries against each variant in priority order. When the primary file
//! is absent, or no variant matches it, phase 2 probes each variant's own
//! marker file with the variant's regular expression, line by line, again
//! in priority order. Absence of a file is never an error; any other
//! failure to read one is.

use vstd::prelude::*;

use crate::regexes::{regex_compiles, regex_matches, regex_probe};
use crate::strutil::{chars_to_string, line_seq, split_lines, str_eq, to_chars};
use crate::yai;
use crate::yai::YAIError;
use crate::{data, spec_lookup, Variant, VariantDefTop, VariantError};

verus! {

/// The outcome of trying to read one text file.
#[derive(Debug, Clone)]
pub enum FileEvidence {
    /// The file does not exist.
    Missing,
    /// The file was read and decoded as text.
    Content(String),
    /// The file exists but could not be read; the cause's description.
    Unreadable(String),
    /// The file was read but its bytes are not valid text.
    Undecodable,
}

/// What scanning the table in order yields: a match at a position of the
/// lookup structure, a defect at a position of the order, or no hit at
/// all.
pub enum ScanResult {
    /// The variant at this position of the lookup structure matches.
    Match(int),
    /// The kind at this position of the order has no descriptor.
    MissingKind(int),
    /// The pattern of the descriptor at this position of the order does
    /// not compile.
    BadPattern(int),
    /// The probe at this position of the order failed to read.
    ReadFail(int),
    /// No variant matched.
    NoHit,
}

/// What the whole detection yields.
pub enum Decision {
    /// The variant at this position of the lookup structure is detected.
    Matched(int),
    /// The primary evidence file was present but could not be used.
    PrimaryFail,
    /// A structural defect at this position of the order: a kind without
    /// a descriptor, or a pattern that does not compile.
    Internal(int),
    /// The probe at this position of the order failed to read.
    ProbeFail(int),
    /// No variant matched either phase.
    Unknown,
}

/// Whether the pattern matches any line of the text.
pub open spec fn any_line_matches(pat: Seq<char>, text: Seq<char>) -> bool {
    exists|l: int| 0 <= l < line_seq(text).len() && regex_matches(pat, line_seq(text)[l])
}

/// Phase 1 from position `i` of the order on: the first variant whose
/// `os_id` equals the parsed `ID` and whose version pattern matches the
/// parsed `VERSION_ID`.
pub open spec fn phase1_from(t: VariantDefTop, id: Seq<char>, vid: Seq<char>, i: int) -> ScanResult
    decreases t.order@.len() - i,
{
    if i < 0 || i >= t.order@.len() {
        ScanResult::NoHit
    } else {
        match spec_lookup(t.variants@, t.order@[i]) {
            None => ScanResult::MissingKind(i),
            Some(vi) => {
                let v = t.variants@[vi];
                if v.detect.os_id@ != id {
                    phase1_from(t, id, vid, i + 1)
                } else if !regex_compiles(v.detect.os_version_regex@) {
                    ScanResult::BadPattern(i)
                } else if regex_matches(v.detect.os_version_regex@, vid) {
                    ScanResult::Match(vi)
                } else {
                    phase1_from(t, id, vid, i + 1)
                }
            },
        }
    }
}

/// Phase 2 from position `i` of the order on: the first variant whose
/// marker file was read and has a line matching the variant's pattern.
/// A missing or undecodable file skips the variant; an unreadable one
/// stops the scan.
pub open spec fn phase2_from(t: VariantDefTop, probes: Seq<FileEvidence>, i: int) -> ScanResult
    decreases t.order@.len() - i,
{
    if i < 0 || i >= t.order@.len() {
        ScanResult::NoHit
    } else {
        match spec_lookup(t.variants@, t.order@[i]) {
            None => ScanResult::MissingKind(i),
            Some(vi) => {
                let v = t.variants@[vi];
                if !regex_compiles(v.detect.regex@) {
                    ScanResult::BadPattern(i)
                } else {
                    match probes[i] {
                        FileEvidence::Missing => phase2_from(t, probes, i + 1),
                        FileEvidence::Undecodable => phase2_from(t, probes, i + 1),
                        FileEvidence::Unreadable(_) => ScanResult::ReadFail(i),
                        FileEvidence::Content(text) => if any_line_matches(
                            v.detect.regex@,
                            text@,
                        ) {
                            ScanResult::Match(vi)
                        } else {
                            phase2_from(t, probes, i + 1)
                        },
                    }
                }
            },
        }
    }
}

/// The decision phase 2 alone comes to.
pub open spec fn phase2_decision(t: VariantDefTop, probes: Seq<FileEvidence>) -> Decision {
    match phase2_from(t, probes, 0) {
        ScanResult::Match(vi) => Decision::Matched(vi),
        ScanResult::MissingKind(i) => Decision::Internal(i),
        ScanResult::BadPattern(i) => Decision::Internal(i),
        ScanResult::ReadFail(i) => Decision::ProbeFail(i),
        ScanResult::NoHit => Decision::Unknown,
    }
}

/// The decision the whole two-phase detection comes to, given the
/// evidence.
pub open spec fn detect_decision(
    t: VariantDefTop,
    os_release: FileEvidence,
    probes: Seq<FileEvidence>,
) -> Decision {
    match os_release {
        FileEvidence::Content(text) => match yai::text_parse(text@) {
            Err(_) => Decision::PrimaryFail,
            Ok(m) => if m.dom().contains("ID"@) && m.dom().contains("VERSION_ID"@) {
                match phase1_from(t, m["ID"@], m["VERSION_ID"@], 0) {
                    ScanResult::Match(vi) => Decision::Matched(vi),
                    ScanResult::MissingKind(i) => Decision::Internal(i),
                    ScanResult::BadPattern(i) => Decision::Internal(i),
                    ScanResult::ReadFail(i) => Decision::Internal(i),
                    ScanResult::NoHit => phase2_decision(t, probes),
                }
            } else {
                phase2_decision(t, probes)
            },
        },
        FileEvidence::Missing => phase2_decision(t, probes),
        FileEvidence::Unreadable(_) => Decision::PrimaryFail,
        FileEvidence::Undecodable => Decision::PrimaryFail,
    }
}

/// How a failure to use the primary evidence file is reported: a parse
/// error names the offending line, an unreadable or undecodable file is a
/// read failure.
pub open spec fn primary_fail_matches(os_release: FileEvidence, e: YAIError) -> bool {
    match os_release {
        FileEvidence::Content(text) => yai::text_result_matches(
            text@,
            Err::<yai::KeyValues, YAIError>(e),
        ),
        FileEvidence::Unreadable(m) => e matches YAIError::FileRead(s) && s@ == m@,
        FileEvidence::Undecodable => e is FileRead,
        FileEvidence::Missing => false,
    }
}

/// Whether the returned value is the one the decision prescribes.
pub open spec fn detect_result_matches<'a>(
    t: VariantDefTop,
    os_release: FileEvidence,
    probes: Seq<FileEvidence>,
    r: Result<&'a Variant, VariantError>,
) -> bool {
    match detect_decision(t, os_release, probes) {
        Decision::Matched(vi) => {
            &&& r matches Ok(v)
            &&& 0 <= vi < t.variants@.len()
            &&& r matches Ok(v) ==> *v == t.variants@[vi]
        },
        Decision::PrimaryFail => {
            &&& r matches Err(e)
            &&& r matches Err(e) ==> e matches VariantError::OsRelease(ye) && primary_fail_matches(
                os_release,
                ye,
            )
        },
        Decision::Internal(i) => r matches Err(e) && e is Internal,
        Decision::ProbeFail(i) => {
            &&& r matches Err(e)
            &&& r matches Err(e) ==> {
                &&& e matches VariantError::FileRead(kname, fname, msg)
                &&& kname@ == data::kind_name(t.order@[i])
                &&& spec_lookup(t.variants@, t.order@[i]) matches Some(vi) && fname@
                    == t.variants@[vi].detect.filename@
                &&& probes[i] matches FileEvidence::Unreadable(m) && msg@ == m@
            }
        },
        Decision::Unknown => r matches Err(e) && e is UnknownVariant,
    }
}

/// Does the pattern match any line of the text? An error is the pattern's
/// compilation failure.
#[verifier::loop_isolation(false)]
fn any_line_match(pattern: &str, text: &str) -> (r: Result<bool, String>)
    ensures
        r is Ok <==> regex_compiles(pattern@),
        r matches Ok(m) ==> m == any_line_matches(pattern@, text@),
{
    let cs = to_chars(text);
    let lines = split_lines(&cs);
    let ghost ls = line_seq(text@);
    let n: usize = lines.len();
    let mut j: usize = 0;
    while j < n
        invariant
            j <= n,
            n == lines@.len(),
            forall|l: int| 0 <= l < j ==> !regex_matches(pattern@, ls[l]),
        decreases n - j,
    {
        proof {
            assert(ls[j as int] == lines@[j as int].deep_view());
            assert(ls[j as int] =~= lines@[j as int]@);
        }
        let line = chars_to_string(&lines[j]);
        match regex_probe(pattern, line.as_str()) {
            Err(e) => {
                return Err(e);
            },
            Ok(true) => {
                proof {
                    assert(regex_matches(pattern@, ls[j as int]));
                    assert(any_line_matches(pattern@, text@));
                }
                return Ok(true);
            },
            Ok(false) => {},
        }
        j = j + 1;
    }
    // No line matched; the pattern's validity still has to be reported.
    match regex_probe(pattern, "") {
        Err(e) => Err(e),
        Ok(_) => {
            proof {
                assert(!any_line_matches(pattern@, text@));
            }
            Ok(false)
        },
    }
}

/// The error reported for a variant kind listed in the order but missing
/// from the lookup structure.
fn missing_kind_error(kind: data::VariantKind) -> (r: VariantError)
    ensures
        r is Internal,
{
    VariantError::Internal(
        String::from_str("Internal error: unknown variant ").concat(kind.as_str()).concat(
            " in the order",
        ),
    )
}

/// The error reported for a descriptor pattern that does not compile.
fn bad_pattern_error(kind: data::VariantKind, pattern: &str, cause: String) -> (r: VariantError)
    ensures
        r is Internal,
{
    VariantError::Internal(
        String::from_str("Internal error: ").concat(kind.as_str()).concat(
            ": could not parse '",
        ).concat(pattern).concat("': ").concat(cause.as_str()),
    )
}

/// Runs phase 2 of the detection: probes each variant's marker file
/// outcome in table order.
#[verifier::loop_isolation(false)]
fn detect_phase2<'a>(t: &'a VariantDefTop, probes: &Vec<FileEvidence>) -> (r: Result<
    &'a Variant,
    VariantError,
>)
    requires
        probes@.len() == t.order@.len(),
    ensures
        match phase2_decision(*t, probes@) {
            Decision::Matched(vi) => {
                &&& r matches Ok(v)
                &&& 0 <= vi < t.variants@.len()
                &&& r matches Ok(v) ==> *v == t.variants@[vi]
            },
            Decision::Internal(i) => r matches Err(e) && e is Internal,
            Decision::ProbeFail(i) => {
                &&& r matches Err(e)
                &&& r matches Err(e) ==> {
                    &&& e matches VariantError::FileRead(kname, fname, msg)
                    &&& kname@ == data::kind_name(t.order@[i])
                    &&& spec_lookup(t.variants@, t.order@[i]) matches Some(vi) && fname@
                        == t.variants@[vi].detect.filename@
                    &&& probes@[i] matches FileEvidence::Unreadable(m) && msg@ == m@
                }
            },
            Decision::Unknown => r matches Err(e) && e is UnknownVariant,
            Decision::PrimaryFail => false,
        },
{
    let n: usize = t.order.len();
    let mut i: usize = 0;
    while i < n
        invariant
            i <= n,
            n == t.order@.len(),
            phase2_from(*t, probes@, 0) == phase2_from(*t, probes@, i as int),
        decreases n - i,
    {
        let kind = t.order[i];
        match crate::lookup_kind(&t.variants, kind) {
            None => {
                return Err(missing_kind_error(kind));
            },
            Some(vi) => {
                let var = &t.variants[vi];
                // The pattern's validity is checked before the probe is
                // even looked at.
                match regex_probe(var.detect.regex.as_str(), "") {
                    Err(cause) => {
                        return Err(bad_pattern_error(kind, var.detect.regex.as_str(), cause));
                    },
                    Ok(_) => {},
                }
                match &probes[i] {
                    FileEvidence::Missing => {},
                    FileEvidence::Undecodable => {},
                    FileEvidence::Unreadable(m) => {
                        return Err(
                            VariantError::FileRead(
                                String::from_str(kind.as_str()),
                                String::from_str(var.detect.filename.as_str()),
                                String::from_str(m.as_str()),
                            ),
                        );
                    },
                    FileEvidence::Content(text) => {
                        match any_line_match(var.detect.regex.as_str(), text.as_str()) {
                            Ok(true) => {
                                return Ok(var);
                            },
                            Ok(false) => {},
                            Err(_) => {
                                // The pattern compiled just above.
                                proof {
                                    assert(false);
                                }
                            },
                        }
                    },
                }
            },
        }
        i = i + 1;
    }
    Err(VariantError::UnknownVariant)
}

/// Detects the current host's variant from the supplied table and
/// evidence.
///
/// `os_release` is the outcome of reading the primary evidence file;
/// `probes` holds, for each position of the table's order, the outcome of
/// reading that variant's marker file (as `probe_filenames` lists them).
/// The decision follows the two-phase algorithm of this module's
/// description, with the table's order as the priority order.
#[verifier::loop_isolation(false)]
pub fn detect_from_evidence<'a>(
    t: &'a VariantDefTop,
    os_release: &FileEvidence,
    probes: &Vec<FileEvidence>,
) -> (r: Result<&'a Variant, VariantError>)
    requires
        probes@.len() == t.order@.len(),
    ensures
        detect_result_matches(*t, *os_release, probes@, r),
{
    match os_release {
        FileEvidence::Missing => {},
        FileEvidence::Unreadable(m) => {
            return Err(
                VariantError::OsRelease(YAIError::FileRead(String::from_str(m.as_str()))),
            );
        },
        FileEvidence::Undecodable => {
            return Err(
                VariantError::OsRelease(
                    YAIError::FileRead(
                        String::from_str("the os-release file does not hold valid text"),
                    ),
                ),
            );
        },
        FileEvidence::Content(text) => {
            match yai::parse_text(text.as_str()) {
                Err(e) => {
                    return Err(VariantError::OsRelease(e));
                },
                Ok(kv) => {
                    let id_opt = kv.get("ID");
                    let vid_opt = kv.get("VERSION_ID");
                    match (id_opt, vid_opt) {
                        (Some(id), Some(vid)) => {
                            let n: usize = t.order.len();
                            let mut i: usize = 0;
                            while i < n
                                invariant
                                    i <= n,
                                    n == t.order@.len(),
                                    phase1_from(*t, id@, vid@, 0) == phase1_from(
                                        *t,
                                        id@,
                                        vid@,
                                        i as int,
                                    ),
                                decreases n - i,
                            {
                                let kind = t.order[i];
                                match crate::lookup_kind(&t.variants, kind) {
                                    None => {
                                        return Err(missing_kind_error(kind));
                                    },
                                    Some(vi) => {
                                        let var = &t.variants[vi];
                                        if str_eq(var.detect.os_id.as_str(), id.as_str()) {
                                            match regex_probe(
                                                var.detect.os_version_regex.as_str(),
                                                vid.as_str(),
                                            ) {
                                                Err(cause) => {
                                                    return Err(
                                                        bad_pattern_error(
                                                            kind,
                                                            var.detect.os_version_regex.as_str(),
                                                            cause,
                                                        ),
                                                    );
                                                },
                                                Ok(true) => {
                                                    return Ok(var);
                                                },
                                                Ok(false) => {},
                                            }
                                        }
                                    },
                                }
                                i = i + 1;
                            }
                        },
                        _ => {},
                    }
                },
            }
        },
    }
    detect_phase2(t, probes)
}

/// The marker file of each variant of the table, in the table's order: the
/// files whose read outcomes `detect_from_evidence` expects as its probes.
/// A kind without a descriptor gets an empty name.
#[verifier::loop_isolation(false)]
pub fn probe_filenames(t: &VariantDefTop) -> (r: Vec<String>)
    ensures
        r@.len() == t.order@.len(),
        forall|i: int|
            0 <= i < t.order@.len() ==> match spec_lookup(t.variants@, #[trigger] t.order@[i]) {
                Some(vi) => r@[i]@ == t.variants@[vi].detect.filename@,
                None => r@[i]@ == Seq::<char>::empty(),
            },
{
    let n: usize = t.order.len();
    let mut r: Vec<String> = Vec::new();
    let mut i: usize = 0;
    while i < n
        invariant
            i <= n,
            n == t.order@.len(),
            r@.len() == i,
            forall|j: int|
                0 <= j < i ==> match spec_lookup(t.variants@, #[trigger] t.order@[j]) {
                    Some(vi) => r@[j]@ == t.variants@[vi].detect.filename@,
                    None => r@[j]@ == Seq::<char>::empty(),
                },
        decreases n - i,
    {
        match crate::lookup_kind(&t.variants, t.order[i]) {
            Some(vi) => {
                r.push(String::from_str(t.variants[vi].detect.filename.as_str()));
            },
            None => {
                r.push(String::new());
            },
        }
        i = i + 1;
    }
    r
}

/// A successful fallback probe at position `i` of the order: the marker
/// file of the variant standing there was read, and one of its lines
/// matches the variant's pattern. (In a well-formed table the variant at
/// position `i` of the order is the one at position `i` of the lookup
/// structure.)
pub open spec fn fallback_hit(t: VariantDefTop, probes: Seq<FileEvidence>, i: int) -> bool {
    &&& 0 <= i < t.order@.len()
    &&& probes[i] matches FileEvidence::Content(text) && any_line_matches(
        t.variants@[i].detect.regex@,
        text@,
    )
}

/// Every descriptor's fallback pattern compiles.
pub open spec fn patterns_valid(t: VariantDefTop) -> bool {
    forall|i: int|
        0 <= i < t.variants@.len() ==> regex_compiles(#[trigger] t.variants@[i].detect.regex@)
}

/// No probe failed to read for a reason other than absence.
pub open spec fn probes_readable(probes: Seq<FileEvidence>) -> bool {
    forall|i: int| 0 <= i < probes.len() ==> !(#[trigger] probes[i] is Unreadable)
}

proof fn lemma_phase2_characterize(t: VariantDefTop, probes: Seq<FileEvidence>, i: int)
    requires
        t.well_formed(),
        probes.len() == t.order@.len(),
        patterns_valid(t),
        probes_readable(probes),
        0 <= i <= t.order@.len(),
    ensures
        (exists|j: int| i <= j < t.order@.len() && fallback_hit(t, probes, j)) ==> phase2_from(
            t,
            probes,
            i,
        ) is Match,
        !(exists|j: int| i <= j < t.order@.len() && fallback_hit(t, probes, j)) ==> phase2_from(
            t,
            probes,
            i,
        ) == ScanResult::NoHit,
    decreases t.order@.len() - i,
{
    let len = t.order@.len() as int;
    if i < len {
        crate::lemma_find_kind_unique(t.variants@, t.order@[i], i, 0);
        assert(spec_lookup(t.variants@, t.order@[i]) == Some(i));
        assert(regex_compiles(t.variants@[i].detect.regex@));
        assert(!(probes[i] is Unreadable));
        lemma_phase2_characterize(t, probes, i + 1);
        if fallback_hit(t, probes, i) {
            assert(phase2_from(t, probes, i) is Match);
        } else {
            assert(phase2_from(t, probes, i) == phase2_from(t, probes, i + 1));
            if exists|j: int| i <= j < len && fallback_hit(t, probes, j) {
                let j = choose|j: int| i <= j < len && fallback_hit(t, probes, j);
                assert(i + 1 <= j < len && fallback_hit(t, probes, j));
            }
            if exists|j: int| i + 1 <= j < len && fallback_hit(t, probes, j) {
                let j = choose|j: int| i + 1 <= j < len && fallback_hit(t, probes, j);
                assert(i <= j < len && fallback_hit(t, probes, j));
            }
        }
    }
}

/// Detection falls back: with the primary evidence file absent, detection
/// still comes to a match whenever some variant's marker file was read and
/// matches its pattern, and comes to the unknown-variant outcome when none
/// does — provided every pattern compiles and no probe failed to read for
/// a reason other than absence.
pub proof fn lemma_detection_fallback(t: VariantDefTop, probes: Seq<FileEvidence>)
    requires
        t.well_formed(),
        probes.len() == t.order@.len(),
    ensures
        patterns_valid(t) && probes_readable(probes) && (exists|j: int|
            0 <= j < t.order@.len() && fallback_hit(t, probes, j)) ==> detect_decision(
            t,
            FileEvidence::Missing,
            probes,
        ) is Matched,
        patterns_valid(t) && probes_readable(probes) && !(exists|j: int|
            0 <= j < t.order@.len() && fallback_hit(t, probes, j)) ==> detect_decision(
            t,
            FileEvidence::Missing,
            probes,
        ) == Decision::Unknown,
{
    if patterns_valid(t) && probes_readable(probes) {
        lemma_phase2_characterize(t, probes, 0);
    }
}

proof fn lemma_phase2_first(t: VariantDefTop, probes: Seq<FileEvidence>, i: int, j: int)
    requires
        t.well_formed(),
        probes.len() == t.order@.len(),
        patterns_valid(t),
        probes_readable(probes),
        0 <= i <= j < t.order@.len(),
        fallback_hit(t, probes, j),
        forall|k: int| i <= k < j ==> !fallback_hit(t, probes, k),
    ensures
        phase2_from(t, probes, i) == ScanResult::Match(j),
    decreases j - i,
{
    crate::lemma_find_kind_unique(t.variants@, t.order@[i], i, 0);
    assert(spec_lookup(t.variants@, t.order@[i]) == Some(i));
    assert(regex_compiles(t.variants@[i].detect.regex@));
    assert(!(probes[i] is Unreadable));
    if i < j {
        assert(!fallback_hit(t, probes, i));
        lemma_phase2_first(t, probes, i + 1, j);
        assert(phase2_from(t, probes, i) == phase2_from(t, probes, i + 1));
    }
}

/// Priority: when the fallback probes of two variants both match, the one
/// standing earlier in the table's order is the one detected — provided
/// the primary evidence file is absent, every pattern compiles, no probe
/// failed to read for a reason other than absence, and no variant earlier
/// still matches as well.
pub proof fn lemma_priority_order(t: VariantDefTop, probes: Seq<FileEvidence>, i: int, j: int)
    requires
        t.well_formed(),
        probes.len() == t.order@.len(),
    ensures
        (patterns_valid(t) && probes_readable(probes) && 0 <= i < j < t.order@.len()
            && fallback_hit(t, probes, i) && fallback_hit(t, probes, j) && (forall|k: int|
            0 <= k < i ==> !fallback_hit(t, probes, k))) ==> detect_decision(
            t,
            FileEvidence::Missing,
            probes,
        ) == Decision::Matched(i),
{
    if patterns_valid(t) && probes_readable(probes) && 0 <= i < j < t.order@.len()
        && fallback_hit(t, probes, i) && fallback_hit(t, probes, j) && (forall|k: int|
        0 <= k < i ==> !fallback_hit(t, probes, k)) {
        lemma_phase2_first(t, probes, 0, i);
    }
}

} // verus!
