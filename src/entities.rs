use vstd::prelude::*;
use crate::text::views;

verus! {

/// A token as the entity tagger reports it: the word and its tag.
#[derive(Clone, Debug)]
pub struct Entity {
    pub word: String,
    pub label: String,
}

/// The tag of a token that is part of a person's name.
pub open spec fn person_tag() -> Seq<char> {
    "I-PER"@
}

/// The tag of a token that is part of a location.
pub open spec fn location_tag() -> Seq<char> {
    "I-LOC"@
}

/// The words of the entities tagged `tag`, in order.
pub open spec fn words_tagged(es: Seq<Entity>, tag: Seq<char>) -> Seq<Seq<char>>
    decreases es.len(),
{
    if es.len() == 0 {
        seq![]
    } else if es.last().label@ == tag {
        words_tagged(es.drop_last(), tag).push(es.last().word@)
    } else {
        words_tagged(es.drop_last(), tag)
    }
}

/// No words is stored as no value at all.
pub open spec fn absent_if_empty(ws: Seq<Seq<char>>) -> Option<Seq<Seq<char>>> {
    if ws.len() == 0 {
        None
    } else {
        Some(ws)
    }
}

/// The words held by an optional list.
pub open spec fn opt_views(o: Option<Vec<String>>) -> Option<Seq<Seq<char>>> {
    match o {
        Some(v) => Some(views(v@)),
        None => None,
    }
}

/// The words of the entities tagged `tag`, in order.
fn collect_tagged(entities: &Vec<Entity>, tag: &String) -> (r: Vec<String>)
    ensures
        views(r@) == words_tagged(entities@, tag@),
{
    let mut r: Vec<String> = Vec::new();
    let mut i: usize = 0;
    while i < entities.len()
        invariant
            i <= entities.len(),
            views(r@) == words_tagged(entities@.subrange(0, i as int), tag@),
        decreases entities.len() - i,
    {
        let ghost r0 = r@;
        let ghost next = entities@.subrange(0, i + 1);
        assert(next.drop_last() =~= entities@.subrange(0, i as int));
        if entities[i].label == *tag {
            r.push(entities[i].word.clone());
            assert(views(r@) =~= views(r0).push(entities@[i as int].word@));
        }
        i = i + 1;
    }
    assert(entities@.subrange(0, entities.len() as int) =~= entities@);
    r
}

/// The names and the locations that the tagger found, in order.
///
/// Tokens tagged `I-PER` are names and tokens tagged `I-LOC` locations;
/// other tags are ignored. Where none is found the value is absent.
pub fn name_and_locations(entities: &Vec<Entity>) -> (r: (Option<Vec<String>>, Option<Vec<String>>))
    ensures
        opt_views(r.0) == absent_if_empty(words_tagged(entities@, person_tag())),
        opt_views(r.1) == absent_if_empty(words_tagged(entities@, location_tag())),
{
    let names = collect_tagged(entities, &"I-PER".to_owned());
    let locations = collect_tagged(entities, &"I-LOC".to_owned());
    let names_opt = if names.len() == 0 {
        None
    } else {
        Some(names)
    };
    let locations_opt = if locations.len() == 0 {
        None
    } else {
        Some(locations)
    };
    (names_opt, locations_opt)
}

} // verus!
