use vstd::prelude::*;
use crate::score::{exceeds, Score, LABEL_ACCEPT_BITS};
use crate::text::{contains_text, views};

verus! {

/// A user-defined category: its title names it inside every call, its
/// points widen the net of labels that classify a call into it.
#[derive(Clone, Debug)]
pub struct Category {
    pub id: i32,
    pub title: String,
    pub points: Option<Vec<String>>,
}

/// What a new category is made of.
#[derive(Clone, Debug)]
pub struct CreateCategory {
    pub title: String,
    pub points: Option<Vec<String>>,
}

/// A change to a category: a field that is absent keeps its value.
#[derive(Clone, Debug)]
pub struct UpdateCategory {
    pub title: Option<String>,
    pub points: Option<Vec<String>>,
}

/// A label of a zero-shot classification, with its score.
#[derive(Clone, Debug)]
pub struct Label {
    pub text: String,
    pub score: Score,
}

/// The points of a category; none where it has no list.
pub open spec fn points_of(points: Option<Vec<String>>) -> Seq<Seq<char>> {
    match points {
        Some(v) => views(v@),
        None => seq![],
    }
}

impl Category {
    /// The labels that stand for this category: its title, then its points.
    pub open spec fn labels(&self) -> Seq<Seq<char>> {
        seq![self.title@] + points_of(self.points)
    }

    /// Whether `label` is this category's title or one of its points.
    pub open spec fn claims(&self, label: Seq<char>) -> bool {
        self.title@ == label || points_of(self.points).contains(label)
    }

    /// The labels that stand for this category: its title, then its points.
    pub fn candidate_labels(&self) -> (r: Vec<String>)
        ensures
            views(r@) == self.labels(),
    {
        let mut r: Vec<String> = Vec::new();
        r.push(self.title.clone());
        match &self.points {
            Some(points) => {
                let mut i: usize = 0;
                while i < points.len()
                    invariant
                        i <= points.len(),
                        views(r@) == seq![self.title@] + views(points@).subrange(0, i as int),
                    decreases points.len() - i,
                {
                    let ghost r0 = r@;
                    r.push(points[i].clone());
                    assert(views(r@) =~= views(r0).push(points@[i as int]@));
                    assert(views(points@).subrange(0, i + 1) =~= views(points@).subrange(
                        0,
                        i as int,
                    ).push(points@[i as int]@));
                    i = i + 1;
                }
                assert(views(points@).subrange(0, points.len() as int) =~= views(points@));
            },
            None => {
                assert(views(r@) =~= self.labels());
            },
        }
        r
    }

    /// This category after `change`: each field that the change holds
    /// replaces the current one, the others stay.
    pub fn apply_update(self, change: UpdateCategory) -> (r: Category)
        ensures
            r.id == self.id,
            r.title == (match change.title {
                Some(t) => t,
                None => self.title,
            }),
            r.points == (match change.points {
                Some(p) => Some(p),
                None => self.points,
            }),
    {
        let title = match change.title {
            Some(t) => t,
            None => self.title,
        };
        let points = match change.points {
            Some(p) => Some(p),
            None => self.points,
        };
        Category { id: self.id, title, points }
    }

    /// Whether `label` is this category's title or one of its points.
    pub fn claims_label(&self, label: &String) -> (r: bool)
        ensures
            r == self.claims(label@),
    {
        if self.title == *label {
            return true;
        }
        match &self.points {
            Some(points) => contains_text(points, label),
            None => false,
        }
    }
}

/// Every candidate label of every category of `catalog`, category by category.
pub open spec fn universe(catalog: Seq<Category>) -> Seq<Seq<char>>
    decreases catalog.len(),
{
    if catalog.len() == 0 {
        seq![]
    } else {
        universe(catalog.drop_last()) + catalog.last().labels()
    }
}

/// Every candidate label of every category of `catalog`, category by category.
pub fn label_universe(catalog: &Vec<Category>) -> (r: Vec<String>)
    ensures
        views(r@) == universe(catalog@),
{
    let mut r: Vec<String> = Vec::new();
    let mut i: usize = 0;
    while i < catalog.len()
        invariant
            i <= catalog.len(),
            views(r@) == universe(catalog@.subrange(0, i as int)),
        decreases catalog.len() - i,
    {
        let mut labels = catalog[i].candidate_labels();
        let ghost r0 = r@;
        let ghost l0 = labels@;
        r.append(&mut labels);
        assert(views(r@) =~= views(r0) + views(l0));
        assert(catalog@.subrange(0, i + 1).drop_last() =~= catalog@.subrange(0, i as int));
        i = i + 1;
    }
    assert(catalog@.subrange(0, catalog.len() as int) =~= catalog@);
    r
}

/// The title of the first category, from position `from` on, that claims `label`.
pub open spec fn owner_from(catalog: Seq<Category>, label: Seq<char>, from: int) -> Option<
    Seq<char>,
>
    decreases catalog.len() - from,
{
    if from < 0 || from >= catalog.len() {
        None
    } else if catalog[from].claims(label) {
        Some(catalog[from].title@)
    } else {
        owner_from(catalog, label, from + 1)
    }
}

/// The title of the first category of `catalog` that claims `label`.
pub open spec fn owner_of(catalog: Seq<Category>, label: Seq<char>) -> Option<Seq<char>> {
    owner_from(catalog, label, 0)
}

/// The title of the first category of `catalog` that claims `label`.
pub fn owning_title(catalog: &Vec<Category>, label: &String) -> (r: Option<String>)
    ensures
        opt_text(r) == owner_of(catalog@, label@),
{
    let mut i: usize = 0;
    while i < catalog.len()
        invariant
            i <= catalog.len(),
            owner_of(catalog@, label@) == owner_from(catalog@, label@, i as int),
        decreases catalog.len() - i,
    {
        if catalog[i].claims_label(label) {
            return Some(catalog[i].title.clone());
        }
        i = i + 1;
    }
    None
}

/// The characters of an optional string.
pub open spec fn opt_text(o: Option<String>) -> Option<Seq<char>> {
    match o {
        Some(s) => Some(s@),
        None => None,
    }
}

/// Among the first `n` labels of `predicted`, one scores above 0.89 and
/// its first claimant in `catalog` has title `t`.
pub open spec fn accepted_among(
    predicted: Seq<Label>,
    catalog: Seq<Category>,
    n: int,
    t: Seq<char>,
) -> bool {
    exists|j: int|
        0 <= j < n && #[trigger] exceeds(predicted[j].score.bits, LABEL_ACCEPT_BITS) && owner_of(
            catalog,
            predicted[j].text@,
        ) == Some(t)
}

/// `t` is the title of a category that a classification accepts: some label
/// scores above 0.89 and the category is the first that claims it.
pub open spec fn is_accepted_title(predicted: Seq<Label>, catalog: Seq<Category>, t: Seq<char>) -> bool {
    accepted_among(predicted, catalog, predicted.len() as int, t)
}

/// The titles of the categories that a zero-shot classification accepts.
///
/// Every label scored above 0.89 goes to the first category of the catalog
/// whose title it is or whose points hold it; a label that none claims is
/// dropped. Each title comes once.
pub fn categories(predicted: &Vec<Label>, catalog: &Vec<Category>) -> (r: Vec<String>)
    ensures
        views(r@).no_duplicates(),
        forall|t: Seq<char>| views(r@).contains(t) <==> is_accepted_title(predicted@, catalog@, t),
{
    let mut r: Vec<String> = Vec::new();
    let mut i: usize = 0;
    while i < predicted.len()
        invariant
            i <= predicted.len(),
            views(r@).no_duplicates(),
            forall|t: Seq<char>|
                views(r@).contains(t) <==> accepted_among(predicted@, catalog@, i as int, t),
        decreases predicted.len() - i,
    {
        let ghost r0 = r@;
        let label = &predicted[i];
        let ghost owner = owner_of(catalog@, predicted@[i as int].text@);
        let ghost accepted = exceeds(predicted@[i as int].score.bits, LABEL_ACCEPT_BITS);
        if label.score.exceeds(LABEL_ACCEPT_BITS) {
            match owning_title(catalog, &label.text) {
                Some(title) => {
                    assert(owner == Some(title@));
                    if !contains_text(&r, &title) {
                        r.push(title);
                        assert(views(r@) =~= views(r0).push(title@));
                        assert(views(r@)[views(r0).len() as int] == title@);
                    }
                    assert(views(r@).contains(title@));
                },
                None => {},
            }
        }
        assert(accepted && owner is Some ==> views(r@).contains(owner->0));
        assert(views(r@) == views(r0) || (accepted && owner is Some && views(r@) == views(
            r0,
        ).push(owner->0)));
        assert forall|t: Seq<char>|
            views(r@).contains(t) <==> accepted_among(predicted@, catalog@, i + 1, t) by {
            if accepted_among(predicted@, catalog@, i as int, t) {
                let j = choose|j: int|
                    0 <= j < i && #[trigger] exceeds(predicted@[j].score.bits, LABEL_ACCEPT_BITS)
                        && owner_of(catalog@, predicted@[j].text@) == Some(t);
            }
            if accepted && owner == Some(t) {
                assert(exceeds(predicted@[i as int].score.bits, LABEL_ACCEPT_BITS));
            }
            if accepted_among(predicted@, catalog@, i + 1, t) && !accepted_among(
                predicted@,
                catalog@,
                i as int,
                t,
            ) {
                let j = choose|j: int|
                    0 <= j < i + 1 && #[trigger] exceeds(predicted@[j].score.bits, LABEL_ACCEPT_BITS)
                        && owner_of(catalog@, predicted@[j].text@) == Some(t);
                assert(j == i);
            }
            if views(r0).contains(t) {
                let k = choose|k: int| 0 <= k < views(r0).len() && views(r0)[k] == t;
                assert(views(r@)[k] == t);
            }
            if views(r@).contains(t) && !views(r0).contains(t) {
                let k = choose|k: int| 0 <= k < views(r@).len() && views(r@)[k] == t;
                if k < views(r0).len() {
                    assert(views(r0)[k] == t);
                }
                assert(accepted && owner == Some(t));
            }
        }
        i = i + 1;
    }
    r
}

} // verus!
