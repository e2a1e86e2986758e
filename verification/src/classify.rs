//! Classification of flat AIS records into the three typed collections.
//!
//! Each record carries a discriminant in `type_field`; it is matched
//! case-insensitively against `staticdata`, `aton` and `position`, and the
//! record is projected into the matching typed shape. Records with an
//! absent or unrecognized discriminant are dropped silently: unknown
//! categories are out of scope and must not abort a run. Within each output
//! collection the relative input order is preserved.

use vstd::prelude::*;

use crate::live_ais::response_structs::{
    AISAtonData, AISLatestResponses, AISPositionData, AISStaticData, GetAISLatestResponseItem,
    spec_aton_of, spec_position_of, spec_static_of,
};

verus! {

/// The code point of `c`, with ASCII upper-case letters folded to lower
/// case.
pub open spec fn spec_lower_code(c: char) -> u32 {
    if 65 <= c as u32 && c as u32 <= 90 {
        (c as u32 + 32) as u32
    } else {
        c as u32
    }
}

/// Character-wise ASCII case-insensitive equality of two strings.
pub open spec fn eq_ignore_ascii_case_seq(a: Seq<char>, b: Seq<char>) -> bool {
    a.len() == b.len() && forall|i: int|
        0 <= i < a.len() ==> spec_lower_code(a[i]) == spec_lower_code(b[i])
}

fn lower_code(c: char) -> (r: u32)
    ensures
        r == spec_lower_code(c),
{
    let u = c as u32;
    if 65 <= u && u <= 90 {
        u + 32
    } else {
        u
    }
}

/// ASCII case-insensitive string equality, the test the classifier applies
/// to each record's discriminant.
pub fn eq_ignore_ascii_case(a: &str, b: &str) -> (r: bool)
    ensures
        r == eq_ignore_ascii_case_seq(a@, b@),
{
    let a_len = a.unicode_len();
    let b_len = b.unicode_len();
    if a_len != b_len {
        return false;
    }
    for i in 0..a_len
        invariant
            a_len == a@.len(),
            b_len == b@.len(),
            a_len == b_len,
            forall|j: int| 0 <= j < i ==> spec_lower_code(a@[j]) == spec_lower_code(b@[j]),
    {
        let ca = a.get_char(i);
        let cb = b.get_char(i);
        if lower_code(ca) != lower_code(cb) {
            return false;
        }
    }
    true
}

/// Whether a record's discriminant names the `staticdata` category.
pub open spec fn spec_is_static(item: GetAISLatestResponseItem) -> bool {
    match item.type_field {
        Some(k) => eq_ignore_ascii_case_seq(k@, "staticdata"@),
        None => false,
    }
}

/// Whether a record's discriminant names the `aton` category.
pub open spec fn spec_is_aton(item: GetAISLatestResponseItem) -> bool {
    match item.type_field {
        Some(k) => eq_ignore_ascii_case_seq(k@, "aton"@),
        None => false,
    }
}

/// Whether a record's discriminant names the `position` category.
pub open spec fn spec_is_position(item: GetAISLatestResponseItem) -> bool {
    match item.type_field {
        Some(k) => eq_ignore_ascii_case_seq(k@, "position"@),
        None => false,
    }
}

/// A record is recognized when its discriminant names one of the three
/// categories.
pub open spec fn spec_is_recognized(item: GetAISLatestResponseItem) -> bool {
    spec_is_static(item) || spec_is_aton(item) || spec_is_position(item)
}

/// The classifier's action on one record, seen from the `staticdata`
/// output.
pub open spec fn static_selector() -> spec_fn(GetAISLatestResponseItem) -> Option<AISStaticData> {
    |item: GetAISLatestResponseItem|
        if spec_is_static(item) {
            Some(spec_static_of(item))
        } else {
            None
        }
}

/// The classifier's action on one record, seen from the `aton` output.
pub open spec fn aton_selector() -> spec_fn(GetAISLatestResponseItem) -> Option<AISAtonData> {
    |item: GetAISLatestResponseItem|
        if spec_is_aton(item) {
            Some(spec_aton_of(item))
        } else {
            None
        }
}

/// The classifier's action on one record, seen from the `position` output.
pub open spec fn position_selector() -> spec_fn(GetAISLatestResponseItem) -> Option<
    AISPositionData,
> {
    |item: GetAISLatestResponseItem|
        if spec_is_position(item) {
            Some(spec_position_of(item))
        } else {
            None
        }
}

/// The `staticdata` output collection for a given input sequence.
pub open spec fn spec_split_static(s: Seq<GetAISLatestResponseItem>) -> Seq<AISStaticData> {
    s.filter_map(static_selector())
}

/// The `aton` output collection for a given input sequence.
pub open spec fn spec_split_aton(s: Seq<GetAISLatestResponseItem>) -> Seq<AISAtonData> {
    s.filter_map(aton_selector())
}

/// The `position` output collection for a given input sequence.
pub open spec fn spec_split_position(s: Seq<GetAISLatestResponseItem>) -> Seq<AISPositionData> {
    s.filter_map(position_selector())
}

/// A record names at most one category: the three discriminants differ
/// already in length, so the case-insensitive match is exclusive.
pub proof fn lemma_categories_exclusive(item: GetAISLatestResponseItem)
    ensures
        !(spec_is_static(item) && spec_is_aton(item)),
        !(spec_is_static(item) && spec_is_position(item)),
        !(spec_is_aton(item) && spec_is_position(item)),
{
    reveal_strlit("staticdata");
    reveal_strlit("aton");
    reveal_strlit("position");
}

/// The three typed collections that one run's records split into.
#[derive(Debug, Clone, PartialEq)]
pub struct SplitAISMessages {
    pub static_data: Vec<AISStaticData>,
    pub aton_data: Vec<AISAtonData>,
    pub position_data: Vec<AISPositionData>,
}

impl SplitAISMessages {
    /// The split of a given input sequence: each output is the stable,
    /// order-preserving selection of the records of its category.
    pub open spec fn is_split_of(self, s: Seq<GetAISLatestResponseItem>) -> bool {
        &&& self.static_data@ == spec_split_static(s)
        &&& self.aton_data@ == spec_split_aton(s)
        &&& self.position_data@ == spec_split_position(s)
    }
}

/// Splits a fetched record list into the three typed collections.
///
/// A pure function of its input: no record is inspected other than through
/// its discriminant, and unrecognized records are dropped.
pub fn process_ais_items(ais_items: AISLatestResponses) -> (r: SplitAISMessages)
    ensures
        r.is_split_of(ais_items@),
{
    broadcast use vstd::seq_lib::group_seq_lib_default;

    let mut static_data: Vec<AISStaticData> = Vec::new();
    let mut aton_data: Vec<AISAtonData> = Vec::new();
    let mut position_data: Vec<AISPositionData> = Vec::new();

    let n = ais_items.len();
    assert(ais_items@.take(0) =~= Seq::<GetAISLatestResponseItem>::empty());
    for idx in 0..n
        invariant
            n == ais_items@.len(),
            static_data@ == spec_split_static(ais_items@.take(idx as int)),
            aton_data@ == spec_split_aton(ais_items@.take(idx as int)),
            position_data@ == spec_split_position(ais_items@.take(idx as int)),
    {
        let item = &ais_items[idx];
        match &item.type_field {
            None => {},
            Some(item_type) => {
                if eq_ignore_ascii_case(item_type.as_str(), "staticdata") {
                    static_data.push(AISStaticData::from(item));
                } else if eq_ignore_ascii_case(item_type.as_str(), "aton") {
                    aton_data.push(AISAtonData::from(item));
                } else if eq_ignore_ascii_case(item_type.as_str(), "position") {
                    position_data.push(AISPositionData::from(item));
                }
            },
        }
        proof {
            lemma_categories_exclusive(ais_items@[idx as int]);
            ais_items@.lemma_filter_map_take_succ(static_selector(), idx as int);
            ais_items@.lemma_filter_map_take_succ(aton_selector(), idx as int);
            ais_items@.lemma_filter_map_take_succ(position_selector(), idx as int);
            assert(static_data@ =~= spec_split_static(ais_items@.take(idx + 1)));
            assert(aton_data@ =~= spec_split_aton(ais_items@.take(idx + 1)));
            assert(position_data@ =~= spec_split_position(ais_items@.take(idx + 1)));
        }
    }
    proof {
        assert(ais_items@.take(n as int) =~= ais_items@);
    }
    SplitAISMessages { static_data, aton_data, position_data }
}

proof fn lemma_filter_map_is_filter_then_map<A, B>(
    s: Seq<A>,
    p: spec_fn(A) -> bool,
    g: spec_fn(A) -> B,
    f: spec_fn(A) -> Option<B>,
)
    requires
        forall|a: A| #[trigger] f(a) == if p(a) {
            Some(g(a))
        } else {
            None::<B>
        },
    ensures
        s.filter_map(f) =~= s.filter(p).map_values(g),
    decreases s.len(),
{
    reveal(Seq::filter);
    if s.len() != 0 {
        let rest = s.drop_last();
        lemma_filter_map_is_filter_then_map(rest, p, g, f);
        if p(s.last()) {
            assert(s.filter(p) == rest.filter(p).push(s.last()));
            assert(s.filter(p).map_values(g) =~= rest.filter(p).map_values(g) + seq![
                g(s.last()),
            ]);
        }
    }
}

/// The split is a stable partition: each output collection equals the input
/// filtered by that category's predicate, in the input's relative order,
/// projected into the typed shape.
pub proof fn lemma_split_is_stable_partition(s: Seq<GetAISLatestResponseItem>)
    ensures
        spec_split_static(s) =~= s.filter(|item: GetAISLatestResponseItem| spec_is_static(item)).map_values(
            |item: GetAISLatestResponseItem| spec_static_of(item),
        ),
        spec_split_aton(s) =~= s.filter(|item: GetAISLatestResponseItem| spec_is_aton(item)).map_values(
            |item: GetAISLatestResponseItem| spec_aton_of(item),
        ),
        spec_split_position(s) =~= s.filter(|item: GetAISLatestResponseItem| spec_is_position(item)).map_values(
            |item: GetAISLatestResponseItem| spec_position_of(item),
        ),
{
    lemma_filter_map_is_filter_then_map(
        s,
        |item: GetAISLatestResponseItem| spec_is_static(item),
        |item: GetAISLatestResponseItem| spec_static_of(item),
        static_selector(),
    );
    lemma_filter_map_is_filter_then_map(
        s,
        |item: GetAISLatestResponseItem| spec_is_aton(item),
        |item: GetAISLatestResponseItem| spec_aton_of(item),
        aton_selector(),
    );
    lemma_filter_map_is_filter_then_map(
        s,
        |item: GetAISLatestResponseItem| spec_is_position(item),
        |item: GetAISLatestResponseItem| spec_position_of(item),
        position_selector(),
    );
}

/// Every element of an output collection stems from a record of the input
/// that names that category; records whose discriminant is absent or
/// unrecognized therefore appear in none of the three outputs.
pub proof fn lemma_outputs_only_from_recognized(s: Seq<GetAISLatestResponseItem>)
    ensures
        forall|x: AISStaticData| #[trigger] spec_split_static(s).contains(x) ==> exists|
            item: GetAISLatestResponseItem,
        | s.contains(item) && spec_is_static(item) && x == spec_static_of(item),
        forall|x: AISAtonData| #[trigger] spec_split_aton(s).contains(x) ==> exists|
            item: GetAISLatestResponseItem,
        | s.contains(item) && spec_is_aton(item) && x == spec_aton_of(item),
        forall|x: AISPositionData| #[trigger] spec_split_position(s).contains(x) ==> exists|
            item: GetAISLatestResponseItem,
        | s.contains(item) && spec_is_position(item) && x == spec_position_of(item),
{
    assert forall|x: AISStaticData| #[trigger] spec_split_static(s).contains(x) implies exists|
        item: GetAISLatestResponseItem,
    | s.contains(item) && spec_is_static(item) && x == spec_static_of(item) by {
        s.lemma_filter_map_contains(static_selector(), x);
        let item = choose|item: GetAISLatestResponseItem|
            #[trigger] s.contains(item) && static_selector()(item) == Some(x);
        assert(s.contains(item) && spec_is_static(item) && x == spec_static_of(item));
    }
    assert forall|x: AISAtonData| #[trigger] spec_split_aton(s).contains(x) implies exists|
        item: GetAISLatestResponseItem,
    | s.contains(item) && spec_is_aton(item) && x == spec_aton_of(item) by {
        s.lemma_filter_map_contains(aton_selector(), x);
        let item = choose|item: GetAISLatestResponseItem|
            #[trigger] s.contains(item) && aton_selector()(item) == Some(x);
        assert(s.contains(item) && spec_is_aton(item) && x == spec_aton_of(item));
    }
    assert forall|x: AISPositionData| #[trigger] spec_split_position(s).contains(x) implies exists|
        item: GetAISLatestResponseItem,
    | s.contains(item) && spec_is_position(item) && x == spec_position_of(item) by {
        s.lemma_filter_map_contains(position_selector(), x);
        let item = choose|item: GetAISLatestResponseItem|
            #[trigger] s.contains(item) && position_selector()(item) == Some(x);
        assert(s.contains(item) && spec_is_position(item) && x == spec_position_of(item));
    }
}

/// A record with an absent or unrecognized discriminant contributes nothing:
/// appending it to the input leaves all three outputs unchanged.
pub proof fn lemma_unrecognized_contributes_nothing(
    s: Seq<GetAISLatestResponseItem>,
    item: GetAISLatestResponseItem,
)
    requires
        !spec_is_recognized(item),
    ensures
        spec_split_static(s.push(item)) == spec_split_static(s),
        spec_split_aton(s.push(item)) == spec_split_aton(s),
        spec_split_position(s.push(item)) == spec_split_position(s),
{
    assert(s.push(item).drop_last() =~= s);
    assert(s.push(item).last() == item);
    assert(s.push(item).filter_map(static_selector()) == s.filter_map(static_selector()));
    assert(s.push(item).filter_map(aton_selector()) == s.filter_map(aton_selector()));
    assert(s.push(item).filter_map(position_selector()) == s.filter_map(position_selector()));
}

/// Classification is deterministic: splitting the same input twice yields
/// identical outputs, because each output is a function of the input alone.
pub proof fn lemma_split_deterministic(
    a: Seq<GetAISLatestResponseItem>,
    b: Seq<GetAISLatestResponseItem>,
)
    requires
        a == b,
    ensures
        spec_split_static(a) == spec_split_static(b),
        spec_split_aton(a) == spec_split_aton(b),
        spec_split_position(a) == spec_split_position(b),
{
}

} // verus!
