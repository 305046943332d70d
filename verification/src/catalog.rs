use vstd::prelude::*;
use crate::model::{Author, AuthorView, authors_view};

verus! {

/// The first author in `authors` whose id is `id`, if there is one.
pub open spec fn first_with_id(authors: Seq<AuthorView>, id: i64) -> Option<AuthorView>
    decreases authors.len(),
{
    if authors.len() == 0 {
        None
    } else if authors[0].id == id {
        Some(authors[0])
    } else {
        first_with_id(authors.drop_first(), id)
    }
}

/// The first author in `authors` whose name is `name`, if there is one.
pub open spec fn first_with_name(authors: Seq<AuthorView>, name: Seq<char>) -> Option<AuthorView>
    decreases authors.len(),
{
    if authors.len() == 0 {
        None
    } else if authors[0].name == name {
        Some(authors[0])
    } else {
        first_with_name(authors.drop_first(), name)
    }
}

/// Looking an author up by id finds nothing exactly when no author has that
/// id, and otherwise finds the author at the lowest position with that id.
pub proof fn lemma_first_with_id(authors: Seq<AuthorView>, id: i64)
    ensures
        first_with_id(authors, id) is None <==> (forall|i: int|
            0 <= i < authors.len() ==> #[trigger] authors[i].id != id),
        first_with_id(authors, id) is Some ==> exists|i: int|
            0 <= i < authors.len() && first_with_id(authors, id) == Some(#[trigger] authors[i])
                && authors[i].id == id && (forall|j: int| 0 <= j < i ==> authors[j].id != id),
    decreases authors.len(),
{
    if authors.len() > 0 {
        lemma_first_with_id(authors.drop_first(), id);
        if authors[0].id != id {
            assert forall|i: int| 1 <= i < authors.len() implies #[trigger] authors[i]
                == authors.drop_first()[i - 1] by {}
            assert((forall|i: int| 0 <= i < authors.len() ==> #[trigger] authors[i].id != id)
                <==> (forall|i: int|
                0 <= i < authors.drop_first().len() ==> #[trigger] authors.drop_first()[i].id
                    != id));
            if first_with_id(authors, id) is Some {
                let k = choose|i: int|
                    0 <= i < authors.drop_first().len() && first_with_id(authors.drop_first(), id)
                        == Some(#[trigger] authors.drop_first()[i]) && authors.drop_first()[i].id
                        == id && (forall|j: int| 0 <= j < i ==> authors.drop_first()[j].id != id);
                assert(authors[k + 1] == authors.drop_first()[k]);
                assert forall|j: int| 0 <= j < k + 1 implies authors[j].id != id by {
                    if j > 0 {
                        assert(authors[j] == authors.drop_first()[j - 1]);
                    }
                }
            }
        } else {
            assert(first_with_id(authors, id) == Some(authors[0]));
        }
    }
}

/// Looking an author up by name finds nothing exactly when no author has
/// that name, and otherwise finds the author at the lowest position with it.
pub proof fn lemma_first_with_name(authors: Seq<AuthorView>, name: Seq<char>)
    ensures
        first_with_name(authors, name) is None <==> (forall|i: int|
            0 <= i < authors.len() ==> #[trigger] authors[i].name != name),
        first_with_name(authors, name) is Some ==> exists|i: int|
            0 <= i < authors.len() && first_with_name(authors, name) == Some(#[trigger] authors[i])
                && authors[i].name == name && (forall|j: int|
                0 <= j < i ==> authors[j].name != name),
    decreases authors.len(),
{
    if authors.len() > 0 {
        lemma_first_with_name(authors.drop_first(), name);
        if authors[0].name != name {
            assert forall|i: int| 1 <= i < authors.len() implies #[trigger] authors[i]
                == authors.drop_first()[i - 1] by {}
            assert((forall|i: int| 0 <= i < authors.len() ==> #[trigger] authors[i].name != name)
                <==> (forall|i: int|
                0 <= i < authors.drop_first().len() ==> #[trigger] authors.drop_first()[i].name
                    != name));
            if first_with_name(authors, name) is Some {
                let k = choose|i: int|
                    0 <= i < authors.drop_first().len() && first_with_name(
                        authors.drop_first(),
                        name,
                    ) == Some(#[trigger] authors.drop_first()[i])
                        && authors.drop_first()[i].name == name && (forall|j: int|
                        0 <= j < i ==> authors.drop_first()[j].name != name);
                assert(authors[k + 1] == authors.drop_first()[k]);
                assert forall|j: int| 0 <= j < k + 1 implies authors[j].name != name by {
                    if j > 0 {
                        assert(authors[j] == authors.drop_first()[j - 1]);
                    }
                }
            }
        } else {
            assert(first_with_name(authors, name) == Some(authors[0]));
        }
    }
}

pub open spec fn opt_author_view(o: Option<Author>) -> Option<AuthorView> {
    match o {
        Some(a) => Some(a@),
        None => None,
    }
}

/// The first author of the list whose id is `id`, copied.
pub fn get_author_by_id(authors: &Vec<Author>, id: &i64) -> (found: Option<Author>)
    ensures
        opt_author_view(found) == first_with_id(authors_view(authors@), *id),
{
    let ghost all = authors_view(authors@);
    let mut i: usize = 0;
    assert(all.skip(0) =~= all);
    while i < authors.len()
        invariant
            i <= authors.len(),
            all == authors_view(authors@),
            first_with_id(all, *id) == first_with_id(all.skip(i as int), *id),
        decreases authors.len() - i,
    {
        assert(all.skip(i as int).drop_first() =~= all.skip(i + 1));
        assert(all.skip(i as int)[0] == authors@[i as int]@);
        if authors[i].id == *id {
            return Some(authors[i].duplicate());
        }
        i = i + 1;
    }
    assert(all.skip(i as int).len() == 0);
    None
}

/// The first author of the list whose name is exactly `name`, copied.
pub fn find_author_by_name(authors: &Vec<Author>, name: &String) -> (found: Option<Author>)
    ensures
        opt_author_view(found) == first_with_name(authors_view(authors@), name@),
{
    let ghost all = authors_view(authors@);
    let mut i: usize = 0;
    assert(all.skip(0) =~= all);
    while i < authors.len()
        invariant
            i <= authors.len(),
            all == authors_view(authors@),
            first_with_name(all, name@) == first_with_name(all.skip(i as int), name@),
        decreases authors.len() - i,
    {
        assert(all.skip(i as int).drop_first() =~= all.skip(i + 1));
        assert(all.skip(i as int)[0] == authors@[i as int]@);
        if authors[i].name == *name {
            return Some(authors[i].duplicate());
        }
        i = i + 1;
    }
    assert(all.skip(i as int).len() == 0);
    None
}

} // verus!
