//! Summaries of what a file or a tape holds: platforms and formats, each
//! kept once and in the order in which it was first seen, and free text.

use std::collections::HashMap;
use indexmap::IndexSet;
use vstd::prelude::*;
use vstd::string::*;
use crate::signature::{RecordSignature, SignatureModel};
use crate::text::{push_line, spec_lines};

verus! {

/// `indexmap::IndexSet`: a set that keeps its entries in the order in
/// which they were first inserted. Nothing of its inside is known here.
#[verifier::external_type_specification]
#[verifier::external_body]
#[verifier::reject_recursive_types(T)]
#[verifier::reject_recursive_types(S)]
pub struct ExIndexSet<T, S>(IndexSet<T, S>);

/// `IndexSet::clone`: a set of its own; nothing is stated of it here.
pub assume_specification<T, S>[ <IndexSet<T, S> as Clone>::clone ](s: &IndexSet<T, S>) -> (r: IndexSet<
    T,
    S,
>)
    where
        S: Clone,
        T: Clone,
;

/// The texts that a set holds, in the order of the set.
pub uninterp spec fn set_items(s: IndexSet<String>) -> Seq<Seq<char>>;

/// `IndexSet::new`: a set that holds nothing.
#[verifier::external_body]
pub(crate) fn set_new() -> (s: IndexSet<String>)
    ensures
        set_items(s) == Seq::<Seq<char>>::empty(),
{
    IndexSet::new()
}

/// `IndexSet::insert`: a text that the set holds already leaves it as it
/// is, and the call answers `false`; any other text is put at the end, and
/// the call answers `true`.
#[verifier::external_body]
pub(crate) fn set_insert(s: &mut IndexSet<String>, value: String) -> (added: bool)
    ensures
        added == !set_items(*old(s)).contains(value@),
        set_items(*final(s)) == spec_insert_unique(set_items(*old(s)), value@),
{
    s.insert(value)
}

/// `IndexSet::len`: how many texts the set holds.
#[verifier::external_body]
pub(crate) fn set_len(s: &IndexSet<String>) -> (n: usize)
    ensures
        n == set_items(*s).len(),
{
    s.len()
}

/// `IndexSet::get_index`: the text at a place of the set's order, or
/// nothing where the set is shorter.
#[verifier::external_body]
pub(crate) fn set_get_index(s: &IndexSet<String>, index: usize) -> (r: Option<&String>)
    ensures
        index < set_items(*s).len() ==> r is Some && r->Some_0@ == set_items(*s)[index as int],
        index >= set_items(*s).len() ==> r is None,
{
    s.get_index(index)
}

/// The list with `value` at its end, unless it holds `value` already.
pub open spec fn spec_insert_unique(items: Seq<Seq<char>>, value: Seq<char>) -> Seq<Seq<char>> {
    if items.contains(value) {
        items
    } else {
        items.push(value)
    }
}

/// The list with `value` at its end, unless `value` is empty or the list
/// holds it already.
pub open spec fn spec_insert_text(items: Seq<Seq<char>>, value: Seq<char>) -> Seq<Seq<char>> {
    if value.len() == 0 {
        items
    } else {
        spec_insert_unique(items, value)
    }
}

/// The list after each text of `more` has been inserted in turn, the
/// empty ones too.
pub open spec fn spec_insert_all(items: Seq<Seq<char>>, more: Seq<Seq<char>>) -> Seq<Seq<char>>
    decreases more.len(),
{
    if more.len() == 0 {
        items
    } else {
        spec_insert_unique(spec_insert_all(items, more.drop_last()), more.last())
    }
}

/// The list after each text of `more` that is not empty has been inserted
/// in turn.
pub open spec fn spec_insert_texts(items: Seq<Seq<char>>, more: Seq<Seq<char>>) -> Seq<Seq<char>>
    decreases more.len(),
{
    if more.len() == 0 {
        items
    } else {
        spec_insert_text(spec_insert_texts(items, more.drop_last()), more.last())
    }
}

/// A summary as a value.
pub struct SummaryModel {
    pub platforms: Seq<Seq<char>>,
    pub formats: Seq<Seq<char>>,
    pub details: Seq<Seq<char>>,
}

impl SummaryModel {
    /// The summary that records nothing.
    pub open spec fn empty() -> SummaryModel {
        SummaryModel {
            platforms: Seq::<Seq<char>>::empty(),
            formats: Seq::<Seq<char>>::empty(),
            details: Seq::<Seq<char>>::empty(),
        }
    }

    /// The summary with a platform recorded, unless its name is empty or
    /// it is known already.
    pub open spec fn add_platform(self, platform: Seq<char>) -> SummaryModel {
        SummaryModel { platforms: spec_insert_text(self.platforms, platform), ..self }
    }

    /// The summary with a format recorded, unless its name is empty or it
    /// is known already.
    pub open spec fn add_format(self, format: Seq<char>) -> SummaryModel {
        SummaryModel { formats: spec_insert_text(self.formats, format), ..self }
    }

    /// The summary with a detail recorded, unless it is empty or it is
    /// known already.
    pub open spec fn add_detail(self, detail: Seq<char>) -> SummaryModel {
        SummaryModel { details: spec_insert_text(self.details, detail), ..self }
    }

    /// Whether nothing has been recorded.
    pub open spec fn is_empty(self) -> bool {
        self.platforms.len() == 0 && self.formats.len() == 0 && self.details.len() == 0
    }

    /// The summary with all of `other` added: its platforms and formats
    /// as they stand, its details where they are not empty.
    pub open spec fn merge(self, other: SummaryModel) -> SummaryModel {
        SummaryModel {
            platforms: spec_insert_all(self.platforms, other.platforms),
            formats: spec_insert_all(self.formats, other.formats),
            details: spec_insert_texts(self.details, other.details),
        }
    }

    /// The summary with what one signature tells.
    pub open spec fn add_signature(self, signature: SignatureModel) -> SummaryModel {
        let with_platform = match signature.platform {
            Some(platform) => self.add_platform(platform),
            None => self,
        };
        let with_format = match signature.format {
            Some(format) => with_platform.add_format(format),
            None => with_platform,
        };
        with_format.add_detail(signature.summary_detail())
    }

    /// The summary with what each signature tells, in turn.
    pub open spec fn add_signatures(self, signatures: Seq<SignatureModel>) -> SummaryModel
        decreases signatures.len(),
    {
        if signatures.len() == 0 {
            self
        } else {
            self.add_signatures(signatures.drop_last()).add_signature(signatures.last())
        }
    }

    /// Nothing is listed twice, and nothing listed is empty.
    pub open spec fn wf(self) -> bool {
        &&& spec_listed_once(self.platforms)
        &&& spec_listed_once(self.formats)
        &&& spec_listed_once(self.details)
    }
}

/// The list holds no text twice, and not the empty text.
pub open spec fn spec_listed_once(items: Seq<Seq<char>>) -> bool {
    items.no_duplicates() && !items.contains(Seq::<char>::empty())
}

/// What a file or a tape holds.
#[derive(Debug, Clone)]
pub struct TapeSummary {
    pub platforms: IndexSet<String>,
    pub formats: IndexSet<String>,
    pub details: Vec<String>,
}

impl View for TapeSummary {
    type V = SummaryModel;

    open spec fn view(&self) -> SummaryModel {
        SummaryModel {
            platforms: set_items(self.platforms),
            formats: set_items(self.formats),
            details: spec_lines(self.details@),
        }
    }
}

impl DeepView for TapeSummary {
    type V = SummaryModel;

    open spec fn deep_view(&self) -> SummaryModel {
        self@
    }
}

impl Default for TapeSummary {
    fn default() -> (r: Self)
        ensures
            r@ == SummaryModel::empty(),
    {
        let r = TapeSummary { platforms: set_new(), formats: set_new(), details: Vec::new() };
        assert(r@.details =~= Seq::<Seq<char>>::empty());
        r
    }
}

/// Whether the list holds the text.
fn holds(lines: &Vec<String>, text: &String) -> (r: bool)
    ensures
        r == spec_lines(lines@).contains(text@),
{
    let mut i: usize = 0;
    while i < lines.len()
        invariant
            i <= lines@.len(),
            forall|k: int| 0 <= k < i ==> spec_lines(lines@)[k] != text@,
        decreases lines@.len() - i,
    {
        if lines[i] == *text {
            assert(spec_lines(lines@)[i as int] == text@);
            return true;
        }
        assert(spec_lines(lines@)[i as int] != text@);
        i += 1;
    }
    false
}

impl TapeSummary {
    /// Records a platform, unless its name is empty or it is known already.
    pub fn add_platform(&mut self, platform: &str)
        ensures
            final(self)@ == old(self)@.add_platform(platform@),
    {
        if !platform.is_empty() {
            set_insert(&mut self.platforms, String::from_str(platform));
        }
    }

    /// Records a format, unless its name is empty or it is known already.
    pub fn add_format(&mut self, format: &str)
        ensures
            final(self)@ == old(self)@.add_format(format@),
    {
        if !format.is_empty() {
            set_insert(&mut self.formats, String::from_str(format));
        }
    }

    /// Records a detail, unless it is empty or it is known already.
    pub fn add_detail(&mut self, detail: &str)
        ensures
            final(self)@ == old(self)@.add_detail(detail@),
    {
        if !detail.is_empty() {
            let owned = String::from_str(detail);
            if !holds(&self.details, &owned) {
                push_line(&mut self.details, owned);
            }
        }
    }

    /// Whether nothing has been recorded.
    pub fn is_empty(&self) -> (r: bool)
        ensures
            r == self@.is_empty(),
    {
        set_len(&self.platforms) == 0 && set_len(&self.formats) == 0 && self.details.len() == 0
    }

    /// Records all that `other` holds.
    pub fn merge(&mut self, other: &TapeSummary)
        ensures
            final(self)@ == old(self)@.merge(other@),
    {
        let platforms: usize = set_len(&other.platforms);
        let mut i: usize = 0;
        assert(other@.platforms.take(0) =~= Seq::<Seq<char>>::empty());
        while i < platforms
            invariant
                i <= platforms == other@.platforms.len(),
                self@.formats == old(self)@.formats,
                self@.details == old(self)@.details,
                self@.platforms == spec_insert_all(old(self)@.platforms, other@.platforms.take(i as int)),
            decreases platforms - i,
        {
            match set_get_index(&other.platforms, i) {
                Some(platform) => {
                    set_insert(&mut self.platforms, platform.clone());
                },
                None => {},
            }
            assert(other@.platforms.take(i + 1).drop_last() =~= other@.platforms.take(i as int));
            i += 1;
        }
        assert(other@.platforms.take(i as int) =~= other@.platforms);
        let formats: usize = set_len(&other.formats);
        let mut j: usize = 0;
        assert(other@.formats.take(0) =~= Seq::<Seq<char>>::empty());
        while j < formats
            invariant
                j <= formats == other@.formats.len(),
                self@.platforms == spec_insert_all(old(self)@.platforms, other@.platforms),
                self@.details == old(self)@.details,
                self@.formats == spec_insert_all(old(self)@.formats, other@.formats.take(j as int)),
            decreases formats - j,
        {
            match set_get_index(&other.formats, j) {
                Some(format) => {
                    set_insert(&mut self.formats, format.clone());
                },
                None => {},
            }
            assert(other@.formats.take(j + 1).drop_last() =~= other@.formats.take(j as int));
            j += 1;
        }
        assert(other@.formats.take(j as int) =~= other@.formats);
        let mut k: usize = 0;
        assert(other@.details.take(0) =~= Seq::<Seq<char>>::empty());
        while k < other.details.len()
            invariant
                k <= other@.details.len(),
                self@.platforms == spec_insert_all(old(self)@.platforms, other@.platforms),
                self@.formats == spec_insert_all(old(self)@.formats, other@.formats),
                self@.details == spec_insert_texts(old(self)@.details, other@.details.take(k as int)),
            decreases other@.details.len() - k,
        {
            self.add_detail(other.details[k].as_str());
            assert(other@.details.take(k + 1).drop_last() =~= other@.details.take(k as int));
            assert(other@.details.take(k + 1).last() == other.details@[k as int]@);
            k += 1;
        }
        assert(other@.details.take(k as int) =~= other@.details);
    }

    /// Records what one signature tells.
    pub fn add_signature(&mut self, signature: &RecordSignature)
        ensures
            final(self)@ == old(self)@.add_signature(signature@),
    {
        match &signature.platform {
            Some(platform) => {
                self.add_platform(platform.as_str());
            },
            None => {},
        }
        match &signature.format {
            Some(format) => {
                self.add_format(format.as_str());
            },
            None => {},
        }
        let detail = signature.summary_detail();
        self.add_detail(detail.as_str());
    }
}

/// Records what each signature tells, in turn.
pub fn add_signatures_to_summary(summary: &mut TapeSummary, signatures: &Vec<RecordSignature>)
    ensures
        final(summary)@ == old(summary)@.add_signatures(signatures.deep_view()),
{
    let mut i: usize = 0;
    assert(signatures.deep_view().take(0) =~= Seq::<SignatureModel>::empty());
    while i < signatures.len()
        invariant
            i <= signatures@.len(),
            summary@ == old(summary)@.add_signatures(signatures.deep_view().take(i as int)),
        decreases signatures@.len() - i,
    {
        summary.add_signature(&signatures[i]);
        assert(signatures.deep_view().take(i + 1).drop_last() =~= signatures.deep_view().take(i as int));
        i += 1;
    }
    assert(signatures.deep_view().take(i as int) =~= signatures.deep_view());
}

/// How often `value` occurs in `lengths`.
pub open spec fn spec_occurrences(lengths: Seq<u32>, value: u32) -> nat
    decreases lengths.len(),
{
    if lengths.len() == 0 {
        0
    } else {
        spec_occurrences(lengths.drop_last(), value) + if lengths.last() == value {
            1nat
        } else {
            0nat
        }
    }
}

/// The place, among the first `upto` lengths, of the one that occurs most
/// often in the whole list; of several such, the first.
pub open spec fn spec_mode_index(lengths: Seq<u32>, upto: int) -> int
    decreases upto,
{
    if upto <= 1 {
        0
    } else {
        let best = spec_mode_index(lengths, upto - 1);
        if spec_occurrences(lengths, lengths[upto - 1]) > spec_occurrences(lengths, lengths[best]) {
            upto - 1
        } else {
            best
        }
    }
}

/// The length that occurs most often; of several such, the one that comes
/// first. Nothing for an empty list.
pub open spec fn spec_common_block_size(lengths: Seq<u32>) -> Option<u32> {
    if lengths.len() == 0 {
        None
    } else {
        Some(lengths[spec_mode_index(lengths, lengths.len() as int)])
    }
}

/// The length that occurs most often; of several such, the one that comes
/// first.
pub fn common_block_size(lengths: &[u32]) -> (common: Option<u32>)
    ensures
        common == spec_common_block_size(lengths@),
{
    broadcast use vstd::std_specs::hash::group_hash_axioms;

    if lengths.len() == 0 {
        return None;
    }
    let mut counts: HashMap<u32, usize> = HashMap::new();
    let mut i: usize = 0;
    assert(lengths@.take(0) =~= Seq::<u32>::empty());
    while i < lengths.len()
        invariant
            i <= lengths@.len(),
            forall|v: u32| #[trigger]
                counts@.contains_key(v) <==> spec_occurrences(lengths@.take(i as int), v) > 0,
            forall|v: u32| #[trigger]
                counts@.contains_key(v) ==> counts@[v] == spec_occurrences(lengths@.take(i as int), v),
            forall|v: u32| #[trigger] spec_occurrences(lengths@.take(i as int), v) <= i,
        decreases lengths@.len() - i,
    {
        let len: u32 = lengths[i];
        let seen: usize = match counts.get(&len) {
            Some(n) => *n,
            None => 0,
        };
        assert(lengths@.take(i + 1).drop_last() =~= lengths@.take(i as int));
        assert forall|v: u32| #[trigger]
            spec_occurrences(lengths@.take(i + 1), v) <= i + 1 by {
            assert(spec_occurrences(lengths@.take(i as int), v) <= i);
        }
        counts.insert(len, seen + 1);
        i += 1;
    }
    assert(lengths@.take(i as int) =~= lengths@);
    let mut best: usize = 0;
    let mut best_count: usize = match counts.get(&lengths[0]) {
        Some(n) => *n,
        None => 0,
    };
    let mut j: usize = 1;
    proof {
        lemma_occurs(lengths@, 0);
    }
    while j < lengths.len()
        invariant
            1 <= j <= lengths@.len(),
            best < j,
            best == spec_mode_index(lengths@, j as int),
            best_count == spec_occurrences(lengths@, lengths@[best as int]),
            forall|v: u32| #[trigger] counts@.contains_key(v) <==> spec_occurrences(lengths@, v) > 0,
            forall|v: u32| #[trigger] counts@.contains_key(v) ==> counts@[v] == spec_occurrences(lengths@, v),
        decreases lengths@.len() - j,
    {
        proof {
            lemma_occurs(lengths@, j as int);
        }
        let count: usize = match counts.get(&lengths[j]) {
            Some(n) => *n,
            None => 0,
        };
        if count > best_count {
            best = j;
            best_count = count;
        }
        j += 1;
    }
    Some(lengths[best])
}

/// A length that stands in the list occurs in it.
pub proof fn lemma_occurs(lengths: Seq<u32>, index: int)
    requires
        0 <= index < lengths.len(),
    ensures
        spec_occurrences(lengths, lengths[index]) > 0,
    decreases lengths.len(),
{
    if index < lengths.len() - 1 {
        lemma_occurs(lengths.drop_last(), index);
    }
}

/// The common block size occurs at least as often as any other length,
/// and more often than any length that stands before it.
pub proof fn lemma_mode_is_most_frequent(lengths: Seq<u32>, upto: int, index: int)
    requires
        0 <= index < upto <= lengths.len(),
    ensures
        0 <= spec_mode_index(lengths, upto) < upto,
        spec_occurrences(lengths, lengths[index]) <= spec_occurrences(
            lengths,
            lengths[spec_mode_index(lengths, upto)],
        ),
        index < spec_mode_index(lengths, upto) ==> spec_occurrences(lengths, lengths[index])
            < spec_occurrences(lengths, lengths[spec_mode_index(lengths, upto)]),
    decreases upto,
{
    if upto > 1 {
        if index < upto - 1 {
            lemma_mode_is_most_frequent(lengths, upto - 1, index);
        } else {
            lemma_mode_is_most_frequent(lengths, upto - 1, 0);
        }
    }
}

/// Inserting keeps what was listed in its place, lists the new text last
/// and nothing twice.
pub proof fn lemma_insert_keeps_order(items: Seq<Seq<char>>, value: Seq<char>)
    requires
        items.no_duplicates(),
    ensures
        spec_insert_unique(items, value).no_duplicates(),
        items.is_prefix_of(spec_insert_unique(items, value)),
        spec_insert_unique(items, value).contains(value),
        spec_insert_unique(items, value).len() <= items.len() + 1,
        forall|other: Seq<char>|
            spec_insert_unique(items, value).contains(other) <==> items.contains(other) || other == value,
{
    let after = spec_insert_unique(items, value);
    if !items.contains(value) {
        assert(after[items.len() as int] == value);
        assert forall|i: int, j: int| 0 <= i < after.len() && 0 <= j < after.len() && i != j implies after[i]
            != after[j] by {
            if i < items.len() && j < items.len() {
            } else if i < items.len() {
                assert(items.contains(items[i]));
            } else if j < items.len() {
                assert(items.contains(items[j]));
            }
        }
        assert forall|other: Seq<char>| after.contains(other) implies items.contains(other) || other
            == value by {
            let i = choose|i: int| 0 <= i < after.len() && after[i] == other;
            if i < items.len() {
                assert(items[i] == other);
            }
        }
        assert forall|other: Seq<char>| items.contains(other) implies after.contains(other) by {
            let i = choose|i: int| 0 <= i < items.len() && items[i] == other;
            assert(after[i] == other);
        }
    }
}

/// A list that holds nothing twice and not the empty text stays so when a
/// text is recorded in it, and keeps what it held in its place.
pub proof fn lemma_insert_text_listed_once(items: Seq<Seq<char>>, value: Seq<char>)
    requires
        spec_listed_once(items),
    ensures
        spec_listed_once(spec_insert_text(items, value)),
        items.is_prefix_of(spec_insert_text(items, value)),
{
    if value.len() > 0 {
        lemma_insert_keeps_order(items, value);
        assert(value != Seq::<char>::empty());
    }
}

/// The same for a list of texts recorded in turn.
pub proof fn lemma_insert_texts_listed_once(items: Seq<Seq<char>>, more: Seq<Seq<char>>)
    requires
        spec_listed_once(items),
    ensures
        spec_listed_once(spec_insert_texts(items, more)),
    decreases more.len(),
{
    if more.len() > 0 {
        lemma_insert_texts_listed_once(items, more.drop_last());
        lemma_insert_text_listed_once(spec_insert_texts(items, more.drop_last()), more.last());
    }
}

/// The same for the texts of another such list, taken as they stand.
pub proof fn lemma_insert_all_listed_once(items: Seq<Seq<char>>, more: Seq<Seq<char>>)
    requires
        spec_listed_once(items),
        !more.contains(Seq::<char>::empty()),
    ensures
        spec_listed_once(spec_insert_all(items, more)),
    decreases more.len(),
{
    if more.len() > 0 {
        let rest = more.drop_last();
        assert forall|i: int| 0 <= i < rest.len() implies rest[i] != Seq::<char>::empty() by {
            assert(more.contains(more[i]));
        }
        lemma_insert_all_listed_once(items, rest);
        lemma_insert_keeps_order(spec_insert_all(items, rest), more.last());
        assert(more.contains(more.last()));
    }
}

/// A summary stays well formed whatever is recorded in it.
pub proof fn lemma_summary_stays_wf(summary: SummaryModel, text: Seq<char>, signature: SignatureModel)
    requires
        summary.wf(),
    ensures
        summary.add_platform(text).wf(),
        summary.add_format(text).wf(),
        summary.add_detail(text).wf(),
        summary.add_signature(signature).wf(),
        SummaryModel::empty().wf(),
{
    lemma_insert_text_listed_once(summary.platforms, text);
    lemma_insert_text_listed_once(summary.formats, text);
    lemma_insert_text_listed_once(summary.details, text);
    let with_platform = match signature.platform {
        Some(platform) => summary.add_platform(platform),
        None => summary,
    };
    if signature.platform is Some {
        lemma_insert_text_listed_once(summary.platforms, signature.platform->Some_0);
    }
    if signature.format is Some {
        lemma_insert_text_listed_once(with_platform.formats, signature.format->Some_0);
    }
    lemma_insert_text_listed_once(summary.details, signature.summary_detail());
}

/// A summary stays well formed when the signatures of a record are
/// recorded in it.
pub proof fn lemma_add_signatures_wf(summary: SummaryModel, signatures: Seq<SignatureModel>)
    requires
        summary.wf(),
    ensures
        summary.add_signatures(signatures).wf(),
    decreases signatures.len(),
{
    if signatures.len() > 0 {
        lemma_add_signatures_wf(summary, signatures.drop_last());
        lemma_summary_stays_wf(
            summary.add_signatures(signatures.drop_last()),
            Seq::<char>::empty(),
            signatures.last(),
        );
    }
}

/// Two well-formed summaries merge into a well-formed one.
pub proof fn lemma_merge_wf(summary: SummaryModel, other: SummaryModel)
    requires
        summary.wf(),
        other.wf(),
    ensures
        summary.merge(other).wf(),
{
    lemma_insert_all_listed_once(summary.platforms, other.platforms);
    lemma_insert_all_listed_once(summary.formats, other.formats);
    lemma_insert_texts_listed_once(summary.details, other.details);
}

} // verus!
