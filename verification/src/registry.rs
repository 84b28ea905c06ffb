//! The registry of deployed functions: listing, filtering and looking up.

use vstd::prelude::*;
use crate::record::{optional_text, record_views, FunctionRecord, FunctionRecordView};
use crate::request::{get, get_of, member_url, member_url_of, Request, RequestView, FUNCTIONS_URL};

verus! {

/// Whether a record passes the filters. A filter that is absent lets
/// every record pass; one that is present asks for equality.
pub open spec fn selected(
    record: FunctionRecordView,
    owner: Option<Seq<char>>,
    template: Option<Seq<char>>,
) -> bool {
    &&& owner matches Some(wanted) ==> record.owner == wanted
    &&& template matches Some(wanted) ==> record.template == wanted
}

/// The filters as a predicate on records.
pub open spec fn keeps(
    owner: Option<Seq<char>>,
    template: Option<Seq<char>>,
) -> spec_fn(FunctionRecordView) -> bool {
    |record: FunctionRecordView| selected(record, owner, template)
}

/// The records that pass the filters, in the order in which they came.
pub open spec fn selection_of(
    records: Seq<FunctionRecordView>,
    owner: Option<Seq<char>>,
    template: Option<Seq<char>>,
) -> Seq<FunctionRecordView> {
    records.filter(keeps(owner, template))
}

/// The positions of the records that pass the filters, ascending.
pub open spec fn positions_of(
    records: Seq<FunctionRecordView>,
    owner: Option<Seq<char>>,
    template: Option<Seq<char>>,
) -> Seq<int>
    decreases records.len(),
{
    if records.len() == 0 {
        Seq::empty()
    } else {
        let earlier = positions_of(records.drop_last(), owner, template);
        if selected(records.last(), owner, template) {
            earlier.push(records.len() - 1)
        } else {
            earlier
        }
    }
}

/// What the listing shows of one record: name, template and owner.
pub open spec fn row_of(record: FunctionRecordView) -> (Seq<char>, Seq<char>, Seq<char>) {
    (record.name, record.template, record.owner)
}

/// The rows of a sequence of records, in the same order.
pub open spec fn rows_of(records: Seq<FunctionRecordView>) -> Seq<(Seq<char>, Seq<char>, Seq<char>)> {
    records.map_values(|record: FunctionRecordView| row_of(record))
}

/// The views of a sequence of rows, in the same order.
pub open spec fn row_views(
    rows: Seq<(String, String, String)>,
) -> Seq<(Seq<char>, Seq<char>, Seq<char>)> {
    rows.map_values(|row: (String, String, String)| (row.0@, row.1@, row.2@))
}

/// The request that fetches the full list of functions.
pub fn list_request() -> (request: Request)
    ensures
        request@ == get_of(FUNCTIONS_URL@),
{
    get(FUNCTIONS_URL.to_owned())
}

/// Tests one record against the filters.
pub fn passes(
    record: &FunctionRecord,
    owner: &Option<String>,
    template: &Option<String>,
) -> (kept: bool)
    ensures
        kept == selected(record@, optional_text(*owner), optional_text(*template)),
{
    let owner_fits = match owner {
        Some(wanted) => *wanted == record.owner,
        None => true,
    };
    let template_fits = match template {
        Some(wanted) => *wanted == record.template,
        None => true,
    };
    owner_fits && template_fits
}

/// Keeps the records that pass the filters. Nothing is sorted: what is
/// kept stays in the order in which the server sent it.
pub fn select(
    records: &Vec<FunctionRecord>,
    owner: &Option<String>,
    template: &Option<String>,
) -> (kept: Vec<FunctionRecord>)
    ensures
        record_views(kept@) == selection_of(
            record_views(records@),
            optional_text(*owner),
            optional_text(*template),
        ),
{
    let ghost by_owner = optional_text(*owner);
    let ghost by_template = optional_text(*template);
    let mut kept: Vec<FunctionRecord> = Vec::new();
    let mut index: usize = 0;
    while index < records.len()
        invariant
            index <= records.len(),
            by_owner == optional_text(*owner),
            by_template == optional_text(*template),
            record_views(kept@) == selection_of(
                record_views(records@.take(index as int)),
                by_owner,
                by_template,
            ),
        decreases records.len() - index,
    {
        let record = &records[index];
        let ghost before = record_views(records@.take(index as int));
        proof {
            assert(record_views(records@.take(index + 1)) =~= before.push(record@));
            before.lemma_filter_push(record@, keeps(by_owner, by_template));
        }
        if passes(record, owner, template) {
            kept.push(record.duplicate());
        }
        index += 1;
    }
    assert(records@.take(index as int) =~= records@);
    kept
}

/// Plans what the `list` command shows: of the records that the server
/// sent, those that pass the two filters, each as name, template and
/// owner, in the order in which they came.
pub fn list_action(
    records: Vec<FunctionRecord>,
    owner: Option<String>,
    template: Option<String>,
) -> (rows: Vec<(String, String, String)>)
    ensures
        row_views(rows@) == rows_of(
            selection_of(record_views(records@), optional_text(owner), optional_text(template)),
        ),
{
    let kept = select(&records, &owner, &template);
    let ghost shown = record_views(kept@);
    let mut rows: Vec<(String, String, String)> = Vec::new();
    let mut index: usize = 0;
    while index < kept.len()
        invariant
            index <= kept.len(),
            shown == record_views(kept@),
            row_views(rows@) =~= rows_of(shown.take(index as int)),
        decreases kept.len() - index,
    {
        let record = &kept[index];
        rows.push((record.name.clone(), record.template.clone(), record.owner.clone()));
        proof {
            assert(rows_of(shown.take(index + 1)) =~= rows_of(shown.take(index as int)).push(
                row_of(record@),
            ));
        }
        index += 1;
    }
    rows
}

/// Plans the `info` command: the request that fetches the record of the
/// function `name`. Whether such a function exists is for the server to
/// say.
pub fn info_action(name: String) -> (request: Request)
    ensures
        request@ == get_of(member_url_of(FUNCTIONS_URL@, name@)),
{
    get(member_url(FUNCTIONS_URL, name.as_str()))
}

/// The selection consists of exactly the records at the selected
/// positions, one for one and in ascending order of position; a position
/// is selected exactly when the record there passes the filters. So the
/// selection is the subset of passing records, each as often as it came,
/// in the relative order in which they came.
pub proof fn lemma_selection_keeps_order(
    records: Seq<FunctionRecordView>,
    owner: Option<Seq<char>>,
    template: Option<Seq<char>>,
)
    ensures
        selection_of(records, owner, template).len() == positions_of(records, owner, template).len(),
        forall|k: int|
            0 <= k < positions_of(records, owner, template).len() ==> {
                let at = #[trigger] positions_of(records, owner, template)[k];
                &&& 0 <= at < records.len()
                &&& selection_of(records, owner, template)[k] == records[at]
            },
        forall|j: int, k: int|
            0 <= j < k < positions_of(records, owner, template).len() ==> positions_of(
                records,
                owner,
                template,
            )[j] < positions_of(records, owner, template)[k],
        forall|at: int|
            positions_of(records, owner, template).contains(at) <==> (0 <= at < records.len()
                && selected(records[at], owner, template)),
    decreases records.len(),
{
    reveal(Seq::filter);
    let positions = positions_of(records, owner, template);
    if records.len() > 0 {
        let earlier_records = records.drop_last();
        let earlier = positions_of(earlier_records, owner, template);
        let last = records.len() - 1;
        lemma_selection_keeps_order(earlier_records, owner, template);
        assert forall|at: int|
            0 <= at < records.len() && selected(records[at], owner, template) implies positions.contains(
            at,
        ) by {
            if at < last {
                assert(earlier.contains(at));
                let k = choose|k: int| 0 <= k < earlier.len() && earlier[k] == at;
                assert(positions[k] == at);
            } else {
                assert(positions[positions.len() - 1] == at);
            }
        }
        assert forall|k: int| 0 <= k < positions.len() implies {
            let at = #[trigger] positions[k];
            &&& 0 <= at < records.len()
            &&& selection_of(records, owner, template)[k] == records[at]
        } by {
            if k < earlier.len() {
                assert(positions[k] == earlier[k]);
            }
        }
    }
}

/// Filtering by an owner alone keeps exactly the records of that owner:
/// the selected positions are those whose record has that owner, and the
/// selection holds the records at those positions in ascending order.
pub proof fn lemma_owner_filter_is_exact(records: Seq<FunctionRecordView>, wanted: Seq<char>)
    ensures
        forall|at: int|
            positions_of(records, Some(wanted), None).contains(at) <==> (0 <= at < records.len()
                && records[at].owner == wanted),
        selection_of(records, Some(wanted), None).len() == positions_of(
            records,
            Some(wanted),
            None,
        ).len(),
        forall|k: int|
            0 <= k < selection_of(records, Some(wanted), None).len() ==> {
                let at = #[trigger] positions_of(records, Some(wanted), None)[k];
                &&& 0 <= at < records.len()
                &&& selection_of(records, Some(wanted), None)[k] == records[at]
                &&& selection_of(records, Some(wanted), None)[k].owner == wanted
            },
        forall|j: int, k: int|
            0 <= j < k < positions_of(records, Some(wanted), None).len() ==> positions_of(
                records,
                Some(wanted),
                None,
            )[j] < positions_of(records, Some(wanted), None)[k],
{
    lemma_selection_keeps_order(records, Some(wanted), None);
}

/// Applying the owner filter and then the template filter gives what
/// applying both at once gives.
pub proof fn lemma_filters_in_sequence(
    records: Seq<FunctionRecordView>,
    owner: Option<Seq<char>>,
    template: Option<Seq<char>>,
)
    ensures
        selection_of(selection_of(records, owner, None), None, template) == selection_of(
            records,
            owner,
            template,
        ),
    decreases records.len(),
{
    reveal(Seq::filter);
    if records.len() > 0 {
        let earlier = records.drop_last();
        let last = records.last();
        lemma_filters_in_sequence(earlier, owner, template);
        earlier.lemma_filter_push(last, keeps(owner, None));
        earlier.lemma_filter_push(last, keeps(owner, template));
        selection_of(earlier, owner, None).lemma_filter_push(last, keeps(None, template));
    }
}

/// With both filters present, the selection is the intersection of what
/// each filter keeps alone: a position is selected by both exactly when
/// each selects it, and the two filters may as well be applied one after
/// the other, in either order.
pub proof fn lemma_both_filters_intersect(
    records: Seq<FunctionRecordView>,
    owner: Seq<char>,
    template: Seq<char>,
)
    ensures
        positions_of(records, Some(owner), Some(template)).to_set() == positions_of(
            records,
            Some(owner),
            None,
        ).to_set().intersect(positions_of(records, None, Some(template)).to_set()),
        selection_of(records, Some(owner), Some(template)) == selection_of(
            selection_of(records, Some(owner), None),
            None,
            Some(template),
        ),
        selection_of(records, Some(owner), Some(template)) == selection_of(
            selection_of(records, None, Some(template)),
            Some(owner),
            None,
        ),
{
    lemma_selection_keeps_order(records, Some(owner), Some(template));
    lemma_selection_keeps_order(records, Some(owner), None);
    lemma_selection_keeps_order(records, None, Some(template));
    lemma_filters_in_sequence(records, Some(owner), Some(template));
    lemma_template_then_owner(records, Some(owner), Some(template));
}

/// Applying the template filter and then the owner filter gives what
/// applying both at once gives.
pub proof fn lemma_template_then_owner(
    records: Seq<FunctionRecordView>,
    owner: Option<Seq<char>>,
    template: Option<Seq<char>>,
)
    ensures
        selection_of(selection_of(records, None, template), owner, None) == selection_of(
            records,
            owner,
            template,
        ),
    decreases records.len(),
{
    reveal(Seq::filter);
    if records.len() > 0 {
        let earlier = records.drop_last();
        let last = records.last();
        lemma_template_then_owner(earlier, owner, template);
        earlier.lemma_filter_push(last, keeps(None, template));
        earlier.lemma_filter_push(last, keeps(owner, template));
        selection_of(earlier, None, template).lemma_filter_push(last, keeps(owner, None));
    }
}

} // verus!
