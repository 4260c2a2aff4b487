use vstd::prelude::*;
use uuid::Uuid;
use crate::category::{points_of, Category, Label};
use crate::score::{exceeds, LABEL_ACCEPT_BITS};
use crate::text::{contains_text, lemma_without_contains, remove_text, views, without};

verus! {

/// What a reindex reads and writes of a stored call.
#[derive(Debug)]
pub struct CallReindex {
    pub id: Uuid,
    pub text: String,
    pub categories: Option<Vec<String>>,
}

/// The category titles of a call; none where it has no list.
pub open spec fn titles_of(categories: Option<Vec<String>>) -> Seq<Seq<char>> {
    points_of(categories)
}

/// A reindex of every call after a category was created or changed.
#[derive(Debug)]
pub struct ReindexRequest {
    /// The title before a change; absent for a new category.
    pub previous_title: Option<String>,
    /// The title now.
    pub title: String,
    /// The labels that classify a call into the category.
    pub candidate_labels: Vec<String>,
}

impl ReindexRequest {
    /// The reindex that follows the creation of `category`.
    pub fn for_created(category: &Category) -> (r: ReindexRequest)
        ensures
            r.previous_title is None,
            r.title@ == category.title@,
            views(r.candidate_labels@) == category.labels(),
    {
        ReindexRequest {
            previous_title: None,
            title: category.title.clone(),
            candidate_labels: category.candidate_labels(),
        }
    }

    /// The reindex that follows a change of a category that was titled
    /// `previous_title` and now reads `category`.
    pub fn for_updated(previous_title: String, category: &Category) -> (r: ReindexRequest)
        ensures
            r.previous_title == Some(previous_title),
            r.title@ == category.title@,
            views(r.candidate_labels@) == category.labels(),
    {
        ReindexRequest {
            previous_title: Some(previous_title),
            title: category.title.clone(),
            candidate_labels: category.candidate_labels(),
        }
    }

    /// The title before a change, if any.
    pub open spec fn previous(&self) -> Option<Seq<char>> {
        match self.previous_title {
            Some(p) => Some(p@),
            None => None,
        }
    }
}

/// Some label of the classification scores above 0.89.
pub open spec fn belongs_spec(prediction: Seq<Label>) -> bool {
    exists|i: int| 0 <= i < prediction.len() && #[trigger] exceeds(prediction[i].score.bits, LABEL_ACCEPT_BITS)
}

/// Whether a classification of a call against a category's labels puts
/// the call in the category: some label scores above 0.89.
pub fn belongs(prediction: &Vec<Label>) -> (r: bool)
    ensures
        r == belongs_spec(prediction@),
{
    let mut i: usize = 0;
    while i < prediction.len()
        invariant
            i <= prediction.len(),
            forall|j: int| 0 <= j < i ==> !exceeds(#[trigger] prediction@[j].score.bits, LABEL_ACCEPT_BITS),
        decreases prediction.len() - i,
    {
        if prediction[i].score.exceeds(LABEL_ACCEPT_BITS) {
            return true;
        }
        i = i + 1;
    }
    false
}

/// The change to one call's category titles that a reindex makes: a title
/// appended, then a title removed wherever it stands.
#[derive(Debug)]
pub struct CategoryEdit {
    pub append: Option<String>,
    pub remove: Option<String>,
}

/// The title a reindex appends: the current one, where the call belongs
/// and does not list it yet.
pub open spec fn planned_append(cats: Seq<Seq<char>>, title: Seq<char>, belongs: bool) -> Option<
    Seq<char>,
> {
    if belongs && !cats.contains(title) {
        Some(title)
    } else {
        None
    }
}

/// The title a reindex removes. Where the call belongs: the previous title,
/// if there is one and it differs from the current one. Where it does not:
/// the previous title, or the current one for a new category, if listed.
pub open spec fn planned_remove(
    cats: Seq<Seq<char>>,
    previous: Option<Seq<char>>,
    title: Seq<char>,
    belongs: bool,
) -> Option<Seq<char>> {
    if belongs {
        match previous {
            Some(p) => if p != title {
                Some(p)
            } else {
                None
            },
            None => None,
        }
    } else {
        let effective = match previous {
            Some(p) => p,
            None => title,
        };
        if cats.contains(effective) {
            Some(effective)
        } else {
            None
        }
    }
}

/// `cats` with `append` appended, then without `remove`.
pub open spec fn edited(
    cats: Seq<Seq<char>>,
    append: Option<Seq<char>>,
    remove: Option<Seq<char>>,
) -> Seq<Seq<char>> {
    let appended = match append {
        Some(t) => cats.push(t),
        None => cats,
    };
    match remove {
        Some(t) => without(appended, t),
        None => appended,
    }
}

/// A call's titles after a reindex for the category now titled `title`.
pub open spec fn reindexed(
    cats: Seq<Seq<char>>,
    previous: Option<Seq<char>>,
    title: Seq<char>,
    belongs: bool,
) -> Seq<Seq<char>> {
    edited(
        cats,
        planned_append(cats, title, belongs),
        planned_remove(cats, previous, title, belongs),
    )
}

impl CategoryEdit {
    /// The title appended, if any.
    pub open spec fn appended(&self) -> Option<Seq<char>> {
        match self.append {
            Some(t) => Some(t@),
            None => None,
        }
    }

    /// The title removed, if any.
    pub open spec fn removed(&self) -> Option<Seq<char>> {
        match self.remove {
            Some(t) => Some(t@),
            None => None,
        }
    }

    /// Whether the edit changes nothing.
    pub fn is_empty(&self) -> (r: bool)
        ensures
            r == (self.append is None && self.remove is None),
    {
        self.append.is_none() && self.remove.is_none()
    }
}

/// The edit that a reindex makes to a call that lists `categories`.
pub fn plan_reindex(
    categories: &Vec<String>,
    previous_title: &Option<String>,
    title: &String,
    belongs: bool,
) -> (r: CategoryEdit)
    ensures
        r.appended() == planned_append(views(categories@), title@, belongs),
        r.removed() == planned_remove(
            views(categories@),
            opt_view(*previous_title),
            title@,
            belongs,
        ),
{
    if belongs {
        let append = if contains_text(categories, title) {
            None
        } else {
            Some(title.clone())
        };
        let remove = match previous_title {
            Some(p) => if *p != *title {
                Some(p.clone())
            } else {
                None
            },
            None => None,
        };
        CategoryEdit { append, remove }
    } else {
        let effective = match previous_title {
            Some(p) => p,
            None => title,
        };
        let remove = if contains_text(categories, effective) {
            Some(effective.clone())
        } else {
            None
        };
        CategoryEdit { append: None, remove }
    }
}

/// The characters of an optional string.
pub open spec fn opt_view(o: Option<String>) -> Option<Seq<char>> {
    match o {
        Some(s) => Some(s@),
        None => None,
    }
}

/// `categories` with the edit made.
pub fn apply_edit(categories: &Vec<String>, edit: &CategoryEdit) -> (r: Vec<String>)
    ensures
        views(r@) == edited(views(categories@), edit.appended(), edit.removed()),
{
    let mut appended: Vec<String> = categories.clone();
    assert(views(appended@) =~= views(categories@));
    match &edit.append {
        Some(t) => {
            appended.push(t.clone());
            assert(views(appended@) =~= views(categories@).push(t@));
        },
        None => {},
    }
    match &edit.remove {
        Some(t) => remove_text(&appended, t),
        None => appended,
    }
}

/// The category titles of a stored call, or none.
fn listed(categories: &Option<Vec<String>>) -> (r: Vec<String>)
    ensures
        views(r@) == titles_of(*categories),
{
    match categories {
        Some(v) => {
            let r = v.clone();
            assert(views(r@) =~= views(v@));
            r
        },
        None => Vec::new(),
    }
}

/// Reclassifies every call for one category: `predictions[i]` is the
/// zero-shot classification of the text of `calls[i]` against the
/// request's candidate labels. Only the category titles of calls change.
pub fn reindex_calls_for_category(
    calls: &mut Vec<CallReindex>,
    request: &ReindexRequest,
    predictions: &Vec<Vec<Label>>,
)
    requires
        old(calls).len() == predictions.len(),
    ensures
        final(calls).len() == old(calls).len(),
        forall|i: int|
            0 <= i < final(calls).len() ==> {
                &&& (#[trigger] final(calls)@[i]).id == old(calls)@[i].id
                &&& final(calls)@[i].text == old(calls)@[i].text
                &&& titles_of(final(calls)@[i].categories) == reindexed(
                    titles_of(old(calls)@[i].categories),
                    request.previous(),
                    request.title@,
                    belongs_spec(predictions@[i]@),
                )
            },
        forall|i: int|
            0 <= i < final(calls).len() && (request.previous() matches Some(p) && p
                != request.title@ ==> !titles_of(old(calls)@[i].categories).contains(
                request.title@,
            )) ==> (titles_of(#[trigger] final(calls)@[i].categories).contains(request.title@)
                <==> belongs_spec(predictions@[i]@)),
{
    let ghost before = calls@;
    let mut i: usize = 0;
    while i < calls.len()
        invariant
            i <= calls.len(),
            calls.len() == before.len(),
            before.len() == predictions.len(),
            forall|j: int|
                i <= j < calls.len() ==> #[trigger] calls@[j] == before[j],
            forall|j: int|
                0 <= j < i ==> {
                    &&& (#[trigger] calls@[j]).id == before[j].id
                    &&& calls@[j].text == before[j].text
                    &&& titles_of(calls@[j].categories) == reindexed(
                        titles_of(before[j].categories),
                        request.previous(),
                        request.title@,
                        belongs_spec(predictions@[j]@),
                    )
                },
        decreases calls.len() - i,
    {
        let current = listed(&calls[i].categories);
        let fits = belongs(&predictions[i]);
        let edit = plan_reindex(&current, &request.previous_title, &request.title, fits);
        assert(opt_view(request.previous_title) == request.previous());
        if !edit.is_empty() {
            let updated = apply_edit(&current, &edit);
            let id = calls[i].id;
            let text = calls[i].text.clone();
            calls.set(i, CallReindex { id, text, categories: Some(updated) });
        }
        i = i + 1;
    }
    assert forall|i: int|
        0 <= i < calls.len() && (request.previous() matches Some(p) && p != request.title@
            ==> !titles_of(before[i].categories).contains(request.title@)) implies (titles_of(
        #[trigger] calls@[i].categories,
    ).contains(request.title@) <==> belongs_spec(predictions@[i]@)) by {
        lemma_reindex_decides_membership(
            titles_of(before[i].categories),
            request.previous(),
            request.title@,
            belongs_spec(predictions@[i]@),
        );
    }
}

/// Removes `title` from the category titles of every call, as the deletion
/// of the category so titled does. Nothing is reclassified.
pub fn delete_category_from_calls(calls: &mut Vec<CallReindex>, title: &String)
    ensures
        final(calls).len() == old(calls).len(),
        forall|i: int|
            0 <= i < final(calls).len() ==> {
                &&& (#[trigger] final(calls)@[i]).id == old(calls)@[i].id
                &&& final(calls)@[i].text == old(calls)@[i].text
                &&& titles_of(final(calls)@[i].categories) == without(
                    titles_of(old(calls)@[i].categories),
                    title@,
                )
            },
{
    let ghost before = calls@;
    let mut i: usize = 0;
    while i < calls.len()
        invariant
            i <= calls.len(),
            calls.len() == before.len(),
            forall|j: int|
                i <= j < calls.len() ==> #[trigger] calls@[j] == before[j],
            forall|j: int|
                0 <= j < i ==> {
                    &&& (#[trigger] calls@[j]).id == before[j].id
                    &&& calls@[j].text == before[j].text
                    &&& titles_of(calls@[j].categories) == without(
                        titles_of(before[j].categories),
                        title@,
                    )
                },
        decreases calls.len() - i,
    {
        let current = listed(&calls[i].categories);
        let kept = remove_text(&current, title);
        let id = calls[i].id;
        let text = calls[i].text.clone();
        calls.set(i, CallReindex { id, text, categories: Some(kept) });
        i = i + 1;
    }
}

/// After a reindex for a category, a call lists the category's current title
/// exactly when the classification put the call in it; every title other
/// than the current and the previous one is listed exactly as before.
///
/// Where a category was renamed, no call lists the new title beforehand, as
/// titles are unique and calls list only titles of existing categories.
pub proof fn lemma_reindex_decides_membership(
    cats: Seq<Seq<char>>,
    previous: Option<Seq<char>>,
    title: Seq<char>,
    belongs: bool,
)
    requires
        previous matches Some(p) && p != title ==> !cats.contains(title),
    ensures
        reindexed(cats, previous, title, belongs).contains(title) <==> belongs,
        forall|t: Seq<char>|
            t != title && previous != Some(t) ==> (#[trigger] reindexed(
                cats,
                previous,
                title,
                belongs,
            ).contains(t) <==> cats.contains(t)),
{
    let append = planned_append(cats, title, belongs);
    let appended = match append {
        Some(t) => cats.push(t),
        None => cats,
    };
    assert forall|t: Seq<char>| appended.contains(t) <==> (cats.contains(t) || append == Some(t)) by {
        if append is Some && appended.contains(t) && !cats.contains(t) {
            let k = choose|k: int| 0 <= k < appended.len() && appended[k] == t;
            if k < cats.len() {
                assert(cats[k] == t);
            }
        }
        if append is Some && cats.contains(t) {
            let k = choose|k: int| 0 <= k < cats.len() && cats[k] == t;
            assert(appended[k] == t);
        }
        if append == Some(t) {
            assert(appended[cats.len() as int] == t);
        }
    }
    match planned_remove(cats, previous, title, belongs) {
        Some(r) => {
            lemma_without_contains(appended, r, title);
            assert forall|t: Seq<char>|
                t != title && previous != Some(t) implies (#[trigger] reindexed(
                cats,
                previous,
                title,
                belongs,
            ).contains(t) <==> cats.contains(t)) by {
                lemma_without_contains(appended, r, t);
            }
        },
        None => {},
    }
}

/// After a category titled `old_title` is renamed to `new_title` and the
/// calls reindexed, no call lists the old title, and a call lists the new
/// one exactly when the classification against the category's new labels
/// puts it there.
pub proof fn lemma_rename_membership(
    cats: Seq<Seq<char>>,
    old_title: Seq<char>,
    new_title: Seq<char>,
    belongs: bool,
)
    requires
        old_title != new_title,
        !cats.contains(new_title),
    ensures
        !reindexed(cats, Some(old_title), new_title, belongs).contains(old_title),
        reindexed(cats, Some(old_title), new_title, belongs).contains(new_title) <==> belongs,
{
    lemma_reindex_decides_membership(cats, Some(old_title), new_title, belongs);
    let appended = match planned_append(cats, new_title, belongs) {
        Some(t) => cats.push(t),
        None => cats,
    };
    match planned_remove(cats, Some(old_title), new_title, belongs) {
        Some(r) => {
            lemma_without_contains(appended, r, old_title);
        },
        None => {},
    }
}

/// Deleting a category takes its title from a call's list and keeps every
/// other title as it was.
pub proof fn lemma_delete_removes_only_title(cats: Seq<Seq<char>>, title: Seq<char>)
    ensures
        !without(cats, title).contains(title),
        forall|t: Seq<char>|
            t != title ==> (#[trigger] without(cats, title).contains(t) <==> cats.contains(t)),
{
    lemma_without_contains(cats, title, title);
    assert forall|t: Seq<char>|
        t != title implies (#[trigger] without(cats, title).contains(t) <==> cats.contains(t)) by {
        lemma_without_contains(cats, title, t);
    }
}

} // verus!
