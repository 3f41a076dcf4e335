//! Choosing one segment of a manifest by position or by label.

use vstd::prelude::*;
use vstd::string::StringExecFns;
use crate::segment::Segment;

verus! {

/// Why no segment could be chosen.
#[derive(Debug, Clone, Copy, PartialEq, Eq)]
pub enum ResolutionError {
    /// Neither a position nor a label was given.
    NoSelectionCriterion,
    /// The position given is not below the number of segments.
    IndexOutOfRange,
    /// No segment carries the label given.
    LabelNotFound,
}

impl ResolutionError {
    /// The text of the diagnostic for this error.
    pub open spec fn message_of(self) -> Seq<char> {
        match self {
            ResolutionError::NoSelectionCriterion => "Either index or label must be provided."@,
            ResolutionError::IndexOutOfRange => "Index is out of range."@,
            ResolutionError::LabelNotFound => "Label was not found."@,
        }
    }

    /// The diagnostic for this error.
    pub fn message(&self) -> (m: String)
        ensures
            m@ == self.message_of(),
    {
        match self {
            ResolutionError::NoSelectionCriterion => String::from_str(
                "Either index or label must be provided.",
            ),
            ResolutionError::IndexOutOfRange => String::from_str("Index is out of range."),
            ResolutionError::LabelNotFound => String::from_str("Label was not found."),
        }
    }
}

/// Some segment of `segments` carries `label`.
pub open spec fn has_label(segments: Seq<Segment>, label: Seq<char>) -> bool {
    exists|k: int| 0 <= k < segments.len() && (#[trigger] segments[k]).label@ == label
}

/// `k` is the position of the first segment of `segments` that carries `label`.
pub open spec fn is_first_match(segments: Seq<Segment>, label: Seq<char>, k: int) -> bool {
    &&& 0 <= k < segments.len()
    &&& segments[k].label@ == label
    &&& forall|j: int| 0 <= j < k ==> (#[trigger] segments[j]).label@ != label
}

/// The position of the first segment that carries `label`; meaningful where
/// `has_label` holds.
pub open spec fn first_match(segments: Seq<Segment>, label: Seq<char>) -> int {
    choose|k: int| is_first_match(segments, label, k)
}

/// What a selection request yields: the position of the chosen segment, or
/// the reason why there is none. A position, when given, decides alone; the
/// label is looked at only without one.
pub open spec fn selection(
    segments: Seq<Segment>,
    index: Option<usize>,
    label: Option<Seq<char>>,
) -> Result<int, ResolutionError> {
    match (index, label) {
        (Some(i), _) => if i < segments.len() {
            Ok(i as int)
        } else {
            Err(ResolutionError::IndexOutOfRange)
        },
        (None, Some(l)) => if has_label(segments, l) {
            Ok(first_match(segments, l))
        } else {
            Err(ResolutionError::LabelNotFound)
        },
        (None, None) => Err(ResolutionError::NoSelectionCriterion),
    }
}

/// The view of an optional label.
pub open spec fn label_view(label: Option<String>) -> Option<Seq<char>> {
    match label {
        Some(l) => Some(l@),
        None => None,
    }
}

/// Two positions that are both a first match are the same position.
pub proof fn lemma_first_match_unique(segments: Seq<Segment>, label: Seq<char>, a: int, b: int)
    requires
        is_first_match(segments, label, a),
        is_first_match(segments, label, b),
    ensures
        a == b,
{
    if a < b {
        assert(segments[a].label@ != label);
    } else if b < a {
        assert(segments[b].label@ != label);
    }
}

/// A first match is the position that `first_match` names, and a witness that
/// the label is carried.
pub proof fn lemma_first_match(segments: Seq<Segment>, label: Seq<char>, k: int)
    requires
        is_first_match(segments, label, k),
    ensures
        has_label(segments, label),
        first_match(segments, label) == k,
{
    lemma_first_match_unique(segments, label, k, first_match(segments, label));
}

/// Where a segment at position `k` carries the label, a first match exists
/// at or before `k`, and `first_match` names it.
pub proof fn lemma_first_match_exists(segments: Seq<Segment>, label: Seq<char>, k: int)
    requires
        0 <= k < segments.len(),
        segments[k].label@ == label,
    ensures
        has_label(segments, label),
        is_first_match(segments, label, first_match(segments, label)),
        first_match(segments, label) <= k,
    decreases k,
{
    if exists|j: int| 0 <= j < k && (#[trigger] segments[j]).label@ == label {
        let j = choose|j: int| 0 <= j < k && (#[trigger] segments[j]).label@ == label;
        lemma_first_match_exists(segments, label, j);
    } else {
        assert(is_first_match(segments, label, k));
        lemma_first_match(segments, label, k);
    }
}

/// A position below the number of segments selects the segment at that
/// position, whatever label comes with it.
pub proof fn lemma_index_decides_alone(
    segments: Seq<Segment>,
    i: usize,
    label: Option<Seq<char>>,
)
    requires
        i < segments.len(),
    ensures
        selection(segments, Some(i), label) == Ok::<int, ResolutionError>(i as int),
{
}

/// Without a position, a label that some segment carries selects the first
/// segment that carries it: no segment before the chosen one has the label,
/// and every segment that has it stands at or after the chosen one, whatever
/// its mask.
pub proof fn lemma_label_selects_first(segments: Seq<Segment>, label: Seq<char>, k: int)
    requires
        0 <= k < segments.len(),
        segments[k].label@ == label,
    ensures
        selection(segments, None, Some(label)) is Ok,
        is_first_match(segments, label, selection(segments, None, Some(label))->Ok_0),
        selection(segments, None, Some(label))->Ok_0 <= k,
{
    lemma_first_match_exists(segments, label, k);
}

/// Without a position, a label that no segment carries selects nothing.
pub proof fn lemma_absent_label_fails(segments: Seq<Segment>, label: Seq<char>)
    requires
        !has_label(segments, label),
    ensures
        selection(segments, None, Some(label)) == Err::<int, ResolutionError>(
            ResolutionError::LabelNotFound,
        ),
{
}

/// A request with neither position nor label fails, whatever the manifest.
pub proof fn lemma_no_criterion_fails(segments: Seq<Segment>)
    ensures
        selection(segments, None, None) == Err::<int, ResolutionError>(
            ResolutionError::NoSelectionCriterion,
        ),
{
}

/// The position one past the last segment is out of range, whatever the
/// manifest, and so is every position after it.
pub proof fn lemma_length_is_out_of_range(
    segments: Seq<Segment>,
    i: usize,
    label: Option<Seq<char>>,
)
    requires
        i >= segments.len(),
    ensures
        selection(segments, Some(i), label) == Err::<int, ResolutionError>(
            ResolutionError::IndexOutOfRange,
        ),
{
}

/// Finds the position of the first segment that carries `label`.
pub fn find_label(segments: &Vec<Segment>, label: &String) -> (r: Option<usize>)
    ensures
        has_label(segments@, label@) <==> r is Some,
        r matches Some(k) ==> is_first_match(segments@, label@, k as int),
        r matches Some(k) ==> k == first_match(segments@, label@),
{
    let mut k: usize = 0;
    while k < segments.len()
        invariant
            k <= segments.len(),
            forall|j: int| 0 <= j < k ==> (#[trigger] segments@[j]).label@ != label@,
        decreases segments.len() - k,
    {
        if segments[k].label == *label {
            proof {
                lemma_first_match(segments@, label@, k as int);
            }
            return Some(k);
        }
        k += 1;
    }
    None
}

/// Resolves a selection request to the position of the chosen segment.
///
/// With a position given the label is ignored. Without one, the first
/// segment in manifest order whose label equals the requested one, character
/// for character, is chosen.
pub fn resolve_index(segments: &Vec<Segment>, index: Option<usize>, label: &Option<String>) -> (r:
    Result<usize, ResolutionError>)
    ensures
        match index {
            Some(i) => if i < segments.len() {
                r == Ok::<usize, ResolutionError>(i)
            } else {
                r == Err::<usize, ResolutionError>(ResolutionError::IndexOutOfRange)
            },
            None => match *label {
                Some(l) => if has_label(segments@, l@) {
                    r is Ok && is_first_match(segments@, l@, r->Ok_0 as int)
                } else {
                    r == Err::<usize, ResolutionError>(ResolutionError::LabelNotFound)
                },
                None => r == Err::<usize, ResolutionError>(ResolutionError::NoSelectionCriterion),
            },
        },
        match selection(segments@, index, label_view(*label)) {
            Ok(k) => r == Ok::<usize, ResolutionError>(k as usize),
            Err(e) => r == Err::<usize, ResolutionError>(e),
        },
{
    match index {
        Some(i) => {
            if i < segments.len() {
                Ok(i)
            } else {
                Err(ResolutionError::IndexOutOfRange)
            }
        },
        None => match label {
            Some(l) => match find_label(segments, l) {
                Some(k) => Ok(k),
                None => Err(ResolutionError::LabelNotFound),
            },
            None => Err(ResolutionError::NoSelectionCriterion),
        },
    }
}

/// Resolves a selection request to the chosen segment itself.
///
/// The segment returned is the one at the position that `resolve_index`
/// gives for the same request, and the errors are the same.
pub fn resolve<'a>(segments: &'a Vec<Segment>, index: Option<usize>, label: &Option<String>) -> (r:
    Result<&'a Segment, ResolutionError>)
    ensures
        match index {
            Some(i) => if i < segments.len() {
                r is Ok && *r->Ok_0 == segments@[i as int]
            } else {
                r is Err && r->Err_0 == ResolutionError::IndexOutOfRange
            },
            None => match *label {
                Some(l) => if has_label(segments@, l@) {
                    r is Ok && exists|k: int|
                        is_first_match(segments@, l@, k) && *r->Ok_0 == segments@[k]
                } else {
                    r is Err && r->Err_0 == ResolutionError::LabelNotFound
                },
                None => r is Err && r->Err_0 == ResolutionError::NoSelectionCriterion,
            },
        },
        match selection(segments@, index, label_view(*label)) {
            Ok(k) => r is Ok && *r->Ok_0 == segments@[k],
            Err(e) => r is Err && r->Err_0 == e,
        },
{
    match resolve_index(segments, index, label) {
        Ok(k) => Ok(&segments[k]),
        Err(e) => Err(e),
    }
}

} // verus!
