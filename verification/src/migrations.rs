//! Which files of the migration directory are run, and in what order.
//!
//! The files whose extension is `sql` are run in the order of their names.

use crate::text::chars_of;
use crate::text::ends_with;
use crate::text::has_suffix;
use vstd::prelude::*;
use vstd::seq_lib::to_multiset_insert;

verus! {

/// Whether a file name has the extension `sql`: it ends in `.sql` and has
/// at least one character before that.
pub open spec fn is_sql_name(name: Seq<char>) -> bool {
    has_suffix(name, ".sql"@) && name.len() > ".sql"@.len()
}

/// Whether `a` stands at or before `b` in the order of names: character by
/// character, and a name before every name that it begins.
pub open spec fn name_le(a: Seq<char>, b: Seq<char>) -> bool
    decreases a.len(),
{
    if a.len() == 0 {
        true
    } else if b.len() == 0 {
        false
    } else if a[0] != b[0] {
        (a[0] as u32) < (b[0] as u32)
    } else {
        name_le(a.skip(1), b.skip(1))
    }
}

/// Whether names stand in order.
pub open spec fn in_order(names: Seq<Seq<char>>) -> bool {
    forall|i: int, j: int| 0 <= i < j < names.len() ==> name_le(names[i], names[j])
}

/// The names with the extension `sql`, as they stand.
pub open spec fn sql_names(names: Seq<Seq<char>>) -> Seq<Seq<char>>
    decreases names.len(),
{
    if names.len() == 0 {
        Seq::empty()
    } else if is_sql_name(names.last()) {
        sql_names(names.drop_last()).push(names.last())
    } else {
        sql_names(names.drop_last())
    }
}

/// Of two names one stands at or before the other.
pub proof fn lemma_name_le_total(a: Seq<char>, b: Seq<char>)
    ensures
        name_le(a, b) || name_le(b, a),
    decreases a.len(),
{
    if a.len() > 0 && b.len() > 0 {
        if a[0] == b[0] {
            lemma_name_le_total(a.skip(1), b.skip(1));
        } else {
            vstd::utf8::char_u32_cast(a[0], a[0] as u32);
            vstd::utf8::char_u32_cast(b[0], b[0] as u32);
        }
    }
}

/// The order of names goes through: what is at or before a name is at or
/// before everything that the name is at or before.
pub proof fn lemma_name_le_transitive(a: Seq<char>, b: Seq<char>, c: Seq<char>)
    requires
        name_le(a, b),
        name_le(b, c),
    ensures
        name_le(a, c),
    decreases a.len(),
{
    if a.len() > 0 && b.len() > 0 && c.len() > 0 {
        if a[0] == b[0] && b[0] == c[0] {
            lemma_name_le_transitive(a.skip(1), b.skip(1), c.skip(1));
        }
    }
}

/// Two names that each stand at or before the other are the same name, so
/// that names can stand in order in one way only.
pub proof fn lemma_name_le_antisymmetric(a: Seq<char>, b: Seq<char>)
    requires
        name_le(a, b),
        name_le(b, a),
    ensures
        a == b,
    decreases a.len(),
{
    if a.len() > 0 && b.len() > 0 {
        lemma_name_le_antisymmetric(a.skip(1), b.skip(1));
        assert(a == seq![a[0]] + a.skip(1));
    }
}

/// Every name stands at or before itself.
pub proof fn lemma_name_le_reflexive(a: Seq<char>)
    ensures
        name_le(a, a),
    decreases a.len(),
{
    if a.len() > 0 {
        lemma_name_le_reflexive(a.skip(1));
    }
}

/// The same names stand in order in one way only: what `migration_order`
/// promises of its result is promised of no other list.
pub proof fn law_order_is_unique(x: Seq<Seq<char>>, y: Seq<Seq<char>>)
    requires
        in_order(x),
        in_order(y),
        x.to_multiset() == y.to_multiset(),
    ensures
        x == y,
{
    let leq = |a: Seq<char>, b: Seq<char>| name_le(a, b);
    assert(vstd::relations::total_ordering(leq)) by {
        assert forall|a: Seq<char>| #[trigger] leq(a, a) by {
            lemma_name_le_reflexive(a);
        }
        assert forall|a: Seq<char>, b: Seq<char>| #[trigger] leq(a, b) && #[trigger] leq(b, a) implies a == b by {
            lemma_name_le_antisymmetric(a, b);
        }
        assert forall|a: Seq<char>, b: Seq<char>, c: Seq<char>| #[trigger] leq(a, b) && #[trigger] leq(b, c) implies leq(a, c) by {
            lemma_name_le_transitive(a, b, c);
        }
        assert forall|a: Seq<char>, b: Seq<char>| #[trigger] leq(a, b) || #[trigger] leq(b, a) by {
            lemma_name_le_total(a, b);
        }
    }
    vstd::seq_lib::lemma_sorted_unique(x, y, leq);
}

/// Whether a file name has the extension `sql`.
pub fn is_sql_file(name: &str) -> (b: bool)
    ensures
        b == is_sql_name(name@),
{
    let chars = chars_of(name);
    let suffix = chars_of(".sql");
    ends_with(chars.as_slice(), suffix.as_slice()) && chars.len() > suffix.len()
}

/// Whether `a` stands at or before `b` in the order of names.
pub fn name_at_or_before(a: &[char], b: &[char]) -> (le: bool)
    ensures
        le == name_le(a@, b@),
{
    let mut i: usize = 0;
    assert(a@.skip(0) == a@ && b@.skip(0) == b@);
    while i < a.len() && i < b.len()
        invariant
            i <= a.len(),
            i <= b.len(),
            name_le(a@, b@) == name_le(a@.skip(i as int), b@.skip(i as int)),
        decreases a.len() - i,
    {
        let x: char = a[i];
        let y: char = b[i];
        proof {
            assert(a@.skip(i as int).skip(1) == a@.skip(i + 1));
            assert(b@.skip(i as int).skip(1) == b@.skip(i + 1));
        }
        if x != y {
            return (x as u32) < (y as u32);
        }
        i += 1;
    }
    i == a.len()
}

/// Puts a name into names that stand in order, at its place.
fn insert_in_order(files: &mut Vec<Vec<char>>, name: Vec<char>)
    requires
        in_order(old(files).deep_view()),
    ensures
        in_order(final(files).deep_view()),
        final(files).deep_view().to_multiset() == old(files).deep_view().to_multiset().insert(name@),
{
    let ghost before = files.deep_view();
    let mut at: usize = 0;
    while at < files.len() && name_at_or_before(files[at].as_slice(), name.as_slice())
        invariant
            at <= files.len(),
            files.deep_view() == before,
            forall|k: int| 0 <= k < at ==> name_le(before[k], name@),
        decreases files.len() - at,
    {
        assert(before[at as int] == files@[at as int]@);
        at += 1;
    }
    proof {
        if at < files.len() {
            assert(before[at as int] == files@[at as int]@);
            lemma_name_le_total(before[at as int], name@);
            assert forall|k: int| at <= k < before.len() implies name_le(name@, before[k]) by {
                if k > at {
                    lemma_name_le_transitive(name@, before[at as int], before[k]);
                }
            }
        }
        to_multiset_insert(before, at as int, name@);
    }
    let ghost added = name@;
    files.insert(at, name);
    proof {
        let after = files.deep_view();
        assert(after == before.insert(at as int, added)) by {
            assert forall|k: int| 0 <= k < after.len() implies after[k] == before.insert(
                at as int,
                added,
            )[k] by {}
        }
    }
}

/// The migration files among the names of a directory, in the order in
/// which they are run: every name with the extension `sql`, as often as it
/// was given, ordered by name.
pub fn migration_order(names: &Vec<String>) -> (files: Vec<String>)
    ensures
        in_order(files.deep_view()),
        files.deep_view().to_multiset() == sql_names(names.deep_view()).to_multiset(),
{
    let mut sorted: Vec<Vec<char>> = Vec::new();
    let ghost all = names.deep_view();
    let mut i: usize = 0;
    assert(sorted.deep_view() == Seq::<Seq<char>>::empty());
    while i < names.len()
        invariant
            i <= names.len(),
            all == names.deep_view(),
            in_order(sorted.deep_view()),
            sorted.deep_view().to_multiset() == sql_names(all.take(i as int)).to_multiset(),
        decreases names.len() - i,
    {
        proof {
            let next = all.take(i + 1);
            assert(next.drop_last() == all.take(i as int));
            vstd::seq_lib::to_multiset_build(sql_names(all.take(i as int)), names@[i as int]@);
        }
        if is_sql_file(names[i].as_str()) {
            insert_in_order(&mut sorted, chars_of(names[i].as_str()));
        }
        i += 1;
    }
    assert(all.take(names.len() as int) == all);
    let mut files: Vec<String> = Vec::new();
    let mut k: usize = 0;
    while k < sorted.len()
        invariant
            k <= sorted.len(),
            files.len() == k,
            forall|j: int| 0 <= j < k ==> files@[j]@ == sorted@[j]@,
        decreases sorted.len() - k,
    {
        files.push(crate::text::string_of(sorted[k].as_slice()));
        k += 1;
    }
    assert(files.deep_view() == sorted.deep_view()) by {
        assert forall|j: int| 0 <= j < files.len() implies files.deep_view()[j]
            == sorted.deep_view()[j] by {}
    }
    files
}

} // verus!
