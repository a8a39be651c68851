use vstd::prelude::*;
use crate::model::Model;

verus! {

/// One entry of the model list: what is shown of a model (its key and
/// value) and the id that its delete button sends.
pub struct ModelItem {
    pub id: u16,
    pub key: String,
    pub value: String,
}

/// What the list of existing models shows.
pub enum ModelListing {
    /// The "No models were found." message.
    NoModels,
    /// One entry per model, in the order in which the models came.
    Items(Vec<ModelItem>),
}

/// The entry shown for a model.
pub open spec fn item_of(m: Model) -> ModelItem {
    ModelItem { id: m.id, key: m.key, value: m.value }
}

/// The entry shown for a model carries that model's id (the one its Delete
/// button sends), its key and its value.
pub proof fn lemma_item_keeps_model_fields(m: Model)
    ensures
        item_of(m).id == m.id,
        item_of(m).key == m.key,
        item_of(m).value == m.value,
{
}

/// Listing models shows, at each position, the entry of the model at that
/// position: its id, key and value.
pub proof fn lemma_listing_entries_match_models(models: Seq<Model>, i: int)
    requires
        0 <= i < models.len(),
    ensures
        models.map_values(|m: Model| item_of(m)).len() == models.len(),
        models.map_values(|m: Model| item_of(m))[i].id == models[i].id,
        models.map_values(|m: Model| item_of(m))[i].key == models[i].key,
        models.map_values(|m: Model| item_of(m))[i].value == models[i].value,
{
}

/// What the add form submitted: a key and a value.
pub struct AddModelInput {
    pub key: String,
    pub value: String,
}

/// A submission of the add form, as the list sees it: whether it is still
/// pending and the input it carries, if any is known yet.
pub struct Submission {
    pub pending: bool,
    pub input: Option<AddModelInput>,
}

/// The inputs of the pending submissions among `subs`, in order: one entry
/// per pending submission.
pub open spec fn pending_inputs(subs: Seq<Submission>) -> Seq<Option<AddModelInput>>
    decreases subs.len(),
{
    if subs.len() == 0 {
        Seq::empty()
    } else {
        let rest = pending_inputs(subs.drop_last());
        if subs.last().pending {
            rest.push(subs.last().input)
        } else {
            rest
        }
    }
}

/// The rows for pending submissions are exactly the inputs of the
/// submissions that are still pending, kept in their order.
pub proof fn lemma_pending_inputs_are_filtered(subs: Seq<Submission>)
    ensures
        pending_inputs(subs) == subs.filter(|s: Submission| s.pending).map_values(
            |s: Submission| s.input,
        ),
    decreases subs.len(),
{
    reveal_with_fuel(Seq::<Submission>::filter, 1);
    if subs.len() > 0 {
        lemma_pending_inputs_are_filtered(subs.drop_last());
        let kept = subs.drop_last().filter(|s: Submission| s.pending);
        if subs.last().pending {
            assert(kept.push(subs.last()).map_values(|s: Submission| s.input) =~= kept.map_values(
                |s: Submission| s.input,
            ).push(subs.last().input));
        }
    }
}

/// Decides what the list of existing models shows: the "no models" message
/// when there are none, else one entry per model, in order.
pub fn model_listing(models: &Vec<Model>) -> (listing: ModelListing)
    ensures
        models.len() == 0 <==> listing is NoModels,
        listing matches ModelListing::Items(items) ==> items@ == models@.map_values(
            |m: Model| item_of(m),
        ),
        listing matches ModelListing::Items(items) ==> {
            &&& items.len() == models.len()
            &&& forall|i: int|
                0 <= i < models.len() ==> {
                    &&& #[trigger] items@[i].id == models@[i].id
                    &&& items@[i].key == models@[i].key
                    &&& items@[i].value == models@[i].value
                }
        },
{
    if models.len() == 0 {
        return ModelListing::NoModels;
    }
    let mut items: Vec<ModelItem> = Vec::new();
    let n = models.len();
    for i in 0..n
        invariant
            n == models.len(),
            items@ == models@.take(i as int).map_values(|m: Model| item_of(m)),
    {
        let m = &models[i];
        items.push(ModelItem { id: m.id, key: m.key.clone(), value: m.value.clone() });
        assert(models@.take(i + 1) == models@.take(i as int).push(models@[i as int]));
    }
    assert(models@.take(n as int) == models@);
    ModelListing::Items(items)
}

/// The rows shown for submissions of the add form that are still pending:
/// one per pending submission, in order, each with the submitted input if
/// it is known.
pub fn pending_submissions(subs: &Vec<Submission>) -> (rows: Vec<Option<AddModelInput>>)
    ensures
        rows@ == pending_inputs(subs@),
{
    let mut rows: Vec<Option<AddModelInput>> = Vec::new();
    let n = subs.len();
    for i in 0..n
        invariant
            n == subs.len(),
            rows@ == pending_inputs(subs@.take(i as int)),
    {
        let s = &subs[i];
        assert(subs@.take(i + 1).drop_last() == subs@.take(i as int));
        if s.pending {
            let input = match &s.input {
                Some(inp) => Some(AddModelInput { key: inp.key.clone(), value: inp.value.clone() }),
                None => None,
            };
            rows.push(input);
        }
    }
    assert(subs@.take(n as int) == subs@);
    rows
}

} // verus!
