//! Upgrades of an existing database: the columns that later versions added
//! to tables that `CREATE TABLE IF NOT EXISTS` leaves as they were.
use vstd::prelude::*;

use crate::text::str_equal;

verus! {

/// Adds the profile bio to a users table created before profiles had one.
pub const ADD_BIO_COLUMN: &'static str = "ALTER TABLE users ADD COLUMN bio TEXT NOT NULL DEFAULT ''";

/// Adds the username restriction to an invitation table created before
/// invitations could be restricted.
pub const ADD_RESTRICTED_USERNAME_COLUMN: &'static str = "ALTER TABLE invite_codes ADD COLUMN restricted_username TEXT";

/// Whether a table's column names include `name`.
pub open spec fn lists(columns: Seq<Seq<char>>, name: Seq<char>) -> bool {
    exists|i: int| 0 <= i < columns.len() && columns[i] == name
}

/// The column names of a table, as text.
pub open spec fn names(columns: Seq<String>) -> Seq<Seq<char>> {
    columns.map_values(|c: String| c@)
}

/// The statements that bring the two tables up to date, in order: the bio
/// when the users table lacks it, then the restriction when the invitation
/// table lacks it.
pub open spec fn upgrades(user_columns: Seq<Seq<char>>, invite_columns: Seq<Seq<char>>) -> Seq<&'static str> {
    (if lists(user_columns, "bio"@) {
        Seq::empty()
    } else {
        seq![ADD_BIO_COLUMN]
    }) + (if lists(invite_columns, "restricted_username"@) {
        Seq::empty()
    } else {
        seq![ADD_RESTRICTED_USERNAME_COLUMN]
    })
}

/// A table's column names after making sure that `name` is one of them.
pub open spec fn with_column(columns: Seq<Seq<char>>, name: Seq<char>) -> Seq<Seq<char>> {
    if lists(columns, name) {
        columns
    } else {
        columns.push(name)
    }
}

/// Whether one of the column names is `name`.
pub fn has_column(columns: &Vec<String>, name: &str) -> (found: bool)
    ensures
        found == lists(names(columns@), name@),
{
    let mut i: usize = 0;
    while i < columns.len()
        invariant
            i <= columns@.len(),
            forall|j: int| 0 <= j < i ==> columns@[j]@ != name@,
        decreases columns@.len() - i,
    {
        if str_equal(columns[i].as_str(), name) {
            assert(names(columns@)[i as int] == name@);
            return true;
        }
        i = i + 1;
    }
    proof {
        if lists(names(columns@), name@) {
            let k = choose|k: int| 0 <= k < names(columns@).len() && names(columns@)[k] == name@;
            assert(columns@[k]@ == name@);
        }
    }
    false
}

/// The statements to run on a database whose users and invitation tables
/// have these column names (see [`upgrades`]).
pub fn column_upgrades(user_columns: &Vec<String>, invite_columns: &Vec<String>) -> (statements: Vec<&'static str>)
    ensures
        statements@ == upgrades(names(user_columns@), names(invite_columns@)),
{
    let mut statements: Vec<&'static str> = Vec::new();
    if !has_column(user_columns, "bio") {
        statements.push(ADD_BIO_COLUMN);
    }
    if !has_column(invite_columns, "restricted_username") {
        statements.push(ADD_RESTRICTED_USERNAME_COLUMN);
    }
    proof {
        reveal_strlit("bio");
        reveal_strlit("restricted_username");
    }
    assert(statements@ =~= upgrades(names(user_columns@), names(invite_columns@)));
    statements
}

/// Upgrading is idempotent: once the upgrades were applied, none is left.
pub proof fn lemma_upgrades_idempotent(user_columns: Seq<Seq<char>>, invite_columns: Seq<Seq<char>>)
    ensures
        upgrades(with_column(user_columns, "bio"@), with_column(invite_columns, "restricted_username"@))
            == Seq::<&'static str>::empty(),
{
    let u = with_column(user_columns, "bio"@);
    let v = with_column(invite_columns, "restricted_username"@);
    if !lists(user_columns, "bio"@) {
        assert(u[u.len() - 1] == "bio"@);
    }
    if !lists(invite_columns, "restricted_username"@) {
        assert(v[v.len() - 1] == "restricted_username"@);
    }
    assert(lists(u, "bio"@));
    assert(lists(v, "restricted_username"@));
    assert(Seq::<&'static str>::empty() + Seq::<&'static str>::empty() =~= Seq::<&'static str>::empty());
}

} // verus!
