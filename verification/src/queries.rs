//! Query semantics: what each filter shape the session service uses
//! selects from the user table, and the lemmas connecting those
//! selections to the storage driver's `find` contract.

use vstd::prelude::*;
use crate::db_driver::selected_users;
use crate::filters::Associativity;
use crate::filters::Filter;
use crate::filters::UsersFilter;
use crate::filters::row_selected;
use crate::models::EntityView;
use crate::models::UserView;

verus! {

/// The user rows a filter list selects under a combinator, unwrapped.
pub open spec fn filtered_users(
    rows: Seq<UserView>,
    fs: Seq<Filter>,
    comb: Option<Associativity>,
) -> Seq<UserView>
    decreases rows.len(),
{
    if rows.len() == 0 {
        Seq::empty()
    } else {
        let rest = filtered_users(rows.drop_last(), fs, comb);
        if row_selected(fs, comb, EntityView::User(rows.last())) {
            rest.push(rows.last())
        } else {
            rest
        }
    }
}

/// The user rows with one id, in storage order.
pub open spec fn users_with_id(rows: Seq<UserView>, id: i32) -> Seq<UserView>
    decreases rows.len(),
{
    if rows.len() == 0 {
        Seq::empty()
    } else {
        let rest = users_with_id(rows.drop_last(), id);
        if rows.last().id == id {
            rest.push(rows.last())
        } else {
            rest
        }
    }
}

/// The user rows with one exact email, in storage order.
pub open spec fn users_with_email(rows: Seq<UserView>, email: Seq<char>) -> Seq<UserView>
    decreases rows.len(),
{
    if rows.len() == 0 {
        Seq::empty()
    } else {
        let rest = users_with_email(rows.drop_last(), email);
        if rows.last().email == email {
            rest.push(rows.last())
        } else {
            rest
        }
    }
}

/// The user rows with one exact role string, in storage order.
pub open spec fn users_with_role(rows: Seq<UserView>, role: Seq<char>) -> Seq<UserView>
    decreases rows.len(),
{
    if rows.len() == 0 {
        Seq::empty()
    } else {
        let rest = users_with_role(rows.drop_last(), role);
        if rows.last().role == role {
            rest.push(rows.last())
        } else {
            rest
        }
    }
}

/// The user rows with one suspension state, in storage order.
pub open spec fn users_with_suspended(rows: Seq<UserView>, b: bool) -> Seq<UserView>
    decreases rows.len(),
{
    if rows.len() == 0 {
        Seq::empty()
    } else {
        let rest = users_with_suspended(rows.drop_last(), b);
        if rows.last().suspended == b {
            rest.push(rows.last())
        } else {
            rest
        }
    }
}

/// What `find` returns on the user table is the filtered selection,
/// row for row, wrapped into the envelope.
pub proof fn lemma_selected_wrap(rows: Seq<UserView>, fs: Seq<Filter>, comb: Option<Associativity>)
    ensures
        selected_users(rows, fs, comb).len() == filtered_users(rows, fs, comb).len(),
        forall|j: int|
            0 <= j < filtered_users(rows, fs, comb).len() ==> selected_users(rows, fs, comb)[j]
                == EntityView::User(#[trigger] filtered_users(rows, fs, comb)[j]),
    decreases rows.len(),
{
    if rows.len() > 0 {
        lemma_selected_wrap(rows.drop_last(), fs, comb);
    }
}

/// An empty filter list selects every user row.
pub proof fn lemma_filtered_all(rows: Seq<UserView>, comb: Option<Associativity>)
    ensures
        filtered_users(rows, Seq::empty(), comb) == rows,
    decreases rows.len(),
{
    if rows.len() == 0 {
        assert(filtered_users(rows, Seq::empty(), comb) =~= rows);
    } else {
        lemma_filtered_all(rows.drop_last(), comb);
        assert(filtered_users(rows, Seq::empty(), comb) =~= rows);
    }
}

/// The match-all predicate selects every user row under any combinator.
pub proof fn lemma_filtered_match_all(rows: Seq<UserView>, comb: Option<Associativity>)
    ensures
        filtered_users(rows, seq![Filter::Users(UsersFilter::All)], comb) == rows,
    decreases rows.len(),
{
    let fs = seq![Filter::Users(UsersFilter::All)];
    if rows.len() == 0 {
        assert(filtered_users(rows, fs, comb) =~= rows);
    } else {
        lemma_filtered_match_all(rows.drop_last(), comb);
        assert(row_selected(fs, comb, EntityView::User(rows.last()))) by {
            if comb == Some(Associativity::Or) {
            } else {
                assert forall|i: int| 0 <= i < fs.len() implies crate::filters::entity_matches(
                    fs[i],
                    EntityView::User(rows.last()),
                ) by {
                    assert(fs[i] == fs[0]);
                }
            }
        }
        assert(filtered_users(rows, fs, comb) =~= rows);
    }
}

/// A single id predicate under the default combinator selects exactly
/// the rows with that id.
pub proof fn lemma_filtered_id(rows: Seq<UserView>, id: i32)
    ensures
        filtered_users(rows, seq![Filter::Users(UsersFilter::Id(id))], None) == users_with_id(
            rows,
            id,
        ),
    decreases rows.len(),
{
    let fs = seq![Filter::Users(UsersFilter::Id(id))];
    if rows.len() > 0 {
        lemma_filtered_id(rows.drop_last(), id);
        let e = EntityView::User(rows.last());
        assert(row_selected(fs, None, e) == (rows.last().id == id)) by {
            if rows.last().id == id {
                assert forall|i: int| 0 <= i < fs.len() implies crate::filters::entity_matches(
                    fs[i],
                    e,
                ) by {
                    assert(fs[i] == fs[0]);
                }
            } else {
                assert(!crate::filters::entity_matches(fs[0], e));
            }
        }
    }
}

/// A single exact-email predicate under the default combinator selects
/// exactly the rows with that email.
pub proof fn lemma_filtered_email(rows: Seq<UserView>, s: String)
    ensures
        filtered_users(rows, seq![Filter::Users(UsersFilter::Email(s))], None) == users_with_email(
            rows,
            s@,
        ),
    decreases rows.len(),
{
    let fs = seq![Filter::Users(UsersFilter::Email(s))];
    if rows.len() > 0 {
        lemma_filtered_email(rows.drop_last(), s);
        let e = EntityView::User(rows.last());
        assert(row_selected(fs, None, e) == (rows.last().email == s@)) by {
            if rows.last().email == s@ {
                assert forall|i: int| 0 <= i < fs.len() implies crate::filters::entity_matches(
                    fs[i],
                    e,
                ) by {
                    assert(fs[i] == fs[0]);
                }
            } else {
                assert(!crate::filters::entity_matches(fs[0], e));
            }
        }
    }
}

/// A single exact-role predicate under the default combinator selects
/// exactly the rows with that role string.
pub proof fn lemma_filtered_role(rows: Seq<UserView>, s: String)
    ensures
        filtered_users(rows, seq![Filter::Users(UsersFilter::Role(s))], None) == users_with_role(
            rows,
            s@,
        ),
    decreases rows.len(),
{
    let fs = seq![Filter::Users(UsersFilter::Role(s))];
    if rows.len() > 0 {
        lemma_filtered_role(rows.drop_last(), s);
        let e = EntityView::User(rows.last());
        assert(row_selected(fs, None, e) == (rows.last().role == s@)) by {
            if rows.last().role == s@ {
                assert forall|i: int| 0 <= i < fs.len() implies crate::filters::entity_matches(
                    fs[i],
                    e,
                ) by {
                    assert(fs[i] == fs[0]);
                }
            } else {
                assert(!crate::filters::entity_matches(fs[0], e));
            }
        }
    }
}

/// A single suspension predicate under the default combinator selects
/// exactly the rows in that suspension state.
pub proof fn lemma_filtered_suspended(rows: Seq<UserView>, b: bool)
    ensures
        filtered_users(rows, seq![Filter::Users(UsersFilter::Suspended(b))], None)
            == users_with_suspended(rows, b),
    decreases rows.len(),
{
    let fs = seq![Filter::Users(UsersFilter::Suspended(b))];
    if rows.len() > 0 {
        lemma_filtered_suspended(rows.drop_last(), b);
        let e = EntityView::User(rows.last());
        assert(row_selected(fs, None, e) == (rows.last().suspended == b)) by {
            if rows.last().suspended == b {
                assert forall|i: int| 0 <= i < fs.len() implies crate::filters::entity_matches(
                    fs[i],
                    e,
                ) by {
                    assert(fs[i] == fs[0]);
                }
            } else {
                assert(!crate::filters::entity_matches(fs[0], e));
            }
        }
    }
}

/// Selections never hold more rows than the table.
pub proof fn lemma_users_with_role_len(rows: Seq<UserView>, role: Seq<char>)
    ensures
        users_with_role(rows, role).len() <= rows.len(),
    decreases rows.len(),
{
    if rows.len() > 0 {
        lemma_users_with_role_len(rows.drop_last(), role);
    }
}

/// Selections never hold more rows than the table.
pub proof fn lemma_users_with_suspended_len(rows: Seq<UserView>, b: bool)
    ensures
        users_with_suspended(rows, b).len() <= rows.len(),
    decreases rows.len(),
{
    if rows.len() > 0 {
        lemma_users_with_suspended_len(rows.drop_last(), b);
    }
}

} // verus!
