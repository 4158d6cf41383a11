//! The process resolver: from an executable name to the identifier of the
//! first process in a snapshot that goes by it.

use vstd::prelude::*;
use crate::processiter::{records_of, ProcessIterator, ProcessRecordView};
use crate::text::{
    ascii_lower,
    lemma_same_ignoring_ascii_case_is_equivalence,
    same_ignoring_ascii_case,
    without_trailing_nul,
};
use crate::winapi::PROCESSENTRY32W;

verus! {

/// The identifier of the first record that goes by the queried name, or
/// `None` where no record does.
pub open spec fn resolve(records: Seq<ProcessRecordView>, query: Seq<char>) -> Option<u32>
    decreases records.len(),
{
    if records.len() == 0 {
        None
    } else if records[0].is_named(query) {
        Some(records[0].identifier)
    } else {
        resolve(records.drop_first(), query)
    }
}

/// Resolves `app_name` against a process snapshot: the identifier of the
/// first entry, in the snapshot's order, that goes by that name. A snapshot
/// that could not be taken (`None`) resolves nothing, as does one in which no
/// entry goes by the name; the two are not told apart.
pub fn find_process_id_by_name(snapshot: Option<Vec<PROCESSENTRY32W>>, app_name: &str) -> (found:
    Option<u32>)
    ensures
        found == match snapshot {
            Some(table) => resolve(records_of(table@), app_name@),
            None => None,
        },
{
    let mut processes = match ProcessIterator::new(snapshot) {
        Ok(processes) => processes,
        Err(_) => {
            return None;
        },
    };
    loop
        invariant
            snapshot matches Some(table) && resolve(
                records_of(processes.remaining()),
                app_name@,
            ) == resolve(records_of(table@), app_name@),
        decreases processes.remaining().len(),
    {
        let ghost before = processes.remaining();
        match processes.next() {
            Some(record) => {
                assert(records_of(before).drop_first() =~= records_of(processes.remaining()));
                if record.matches(app_name) {
                    return Some(record.identifier);
                }
            },
            None => {
                return None;
            },
        }
    }
}

/// Resolution finds the first match and nothing else. Where some record
/// goes by the name, the result is the identifier of the earliest such
/// record; where none does, the result is `None`.
pub proof fn lemma_resolve_first_match(records: Seq<ProcessRecordView>, query: Seq<char>)
    ensures
        match resolve(records, query) {
            Some(id) => exists|i: int|
                {
                    &&& 0 <= i < records.len()
                    &&& #[trigger] records[i].is_named(query)
                    &&& records[i].identifier == id
                    &&& forall|j: int| 0 <= j < i ==> !(#[trigger] records[j]).is_named(query)
                },
            None => forall|i: int|
                0 <= i < records.len() ==> !(#[trigger] records[i]).is_named(query),
        },
    decreases records.len(),
{
    if records.len() > 0 && !records[0].is_named(query) {
        let rest = records.drop_first();
        lemma_resolve_first_match(rest, query);
        match resolve(rest, query) {
            Some(id) => {
                let i = choose|i: int|
                    {
                        &&& 0 <= i < rest.len()
                        &&& #[trigger] rest[i].is_named(query)
                        &&& rest[i].identifier == id
                        &&& forall|j: int| 0 <= j < i ==> !(#[trigger] rest[j]).is_named(query)
                    };
                assert(records[i + 1] == rest[i]);
                assert forall|j: int| 0 <= j < i + 1 implies !(#[trigger] records[j]).is_named(
                    query,
                ) by {
                    if j > 0 {
                        assert(records[j] == rest[j - 1]);
                    }
                }
            },
            None => {
                assert forall|i: int| 0 <= i < records.len() implies !(
                #[trigger] records[i]).is_named(query) by {
                    if i > 0 {
                        assert(records[i] == rest[i - 1]);
                    }
                }
            },
        }
    }
}

/// A record that goes by the name, with no earlier record that does, is the
/// one resolved.
pub proof fn lemma_resolve_returns_earliest(
    records: Seq<ProcessRecordView>,
    query: Seq<char>,
    i: int,
)
    requires
        0 <= i < records.len(),
        records[i].is_named(query),
        forall|j: int| 0 <= j < i ==> !(#[trigger] records[j]).is_named(query),
    ensures
        resolve(records, query) == Some(records[i].identifier),
    decreases records.len(),
{
    if i > 0 {
        let rest = records.drop_first();
        assert forall|j: int| 0 <= j < i - 1 implies !(#[trigger] rest[j]).is_named(query) by {
            assert(rest[j] == records[j + 1]);
        }
        lemma_resolve_returns_earliest(rest, query, i - 1);
    }
}

/// Where no record goes by the name, nothing is resolved.
pub proof fn lemma_resolve_not_found(records: Seq<ProcessRecordView>, query: Seq<char>)
    requires
        forall|i: int| 0 <= i < records.len() ==> !(#[trigger] records[i]).is_named(query),
    ensures
        resolve(records, query) is None,
{
    lemma_resolve_first_match(records, query);
}

/// Resolution does not depend on the ASCII case of the query: two queries
/// that are the same up to ASCII case resolve alike.
pub proof fn lemma_resolve_ignores_ascii_case(
    records: Seq<ProcessRecordView>,
    query: Seq<char>,
    other: Seq<char>,
)
    requires
        same_ignoring_ascii_case(query, other),
    ensures
        resolve(records, query) == resolve(records, other),
    decreases records.len(),
{
    if records.len() > 0 {
        lemma_is_named_ignores_ascii_case(records[0], query, other);
        lemma_resolve_ignores_ascii_case(records.drop_first(), query, other);
    }
}

/// A record goes by two queries alike where these are the same up to ASCII
/// case.
pub proof fn lemma_is_named_ignores_ascii_case(
    record: ProcessRecordView,
    query: Seq<char>,
    other: Seq<char>,
)
    requires
        same_ignoring_ascii_case(query, other),
    ensures
        record.is_named(query) == record.is_named(other),
{
    let name = without_trailing_nul(record.executable_name);
    lemma_same_ignoring_ascii_case_is_equivalence(name, query, other);
    lemma_same_ignoring_ascii_case_is_equivalence(query, other, query);
    lemma_same_ignoring_ascii_case_is_equivalence(name, other, query);
}

/// Two records whose names, less their NUL padding, are the same up to
/// ASCII case go by the same queries.
pub proof fn lemma_is_named_ignores_ascii_case_of_name(
    record: ProcessRecordView,
    other: ProcessRecordView,
    query: Seq<char>,
)
    requires
        same_ignoring_ascii_case(
            without_trailing_nul(record.executable_name),
            without_trailing_nul(other.executable_name),
        ),
    ensures
        record.is_named(query) == other.is_named(query),
{
    let name = without_trailing_nul(record.executable_name);
    let other_name = without_trailing_nul(other.executable_name);
    lemma_same_ignoring_ascii_case_is_equivalence(name, other_name, query);
    lemma_same_ignoring_ascii_case_is_equivalence(name, other_name, name);
    lemma_same_ignoring_ascii_case_is_equivalence(other_name, name, query);
}

/// Matching is on the whole name: a record that goes by a query has, once
/// its NUL padding is removed, exactly as many characters as the query, and
/// agrees with it at every position up to ASCII case. A query that is
/// shorter or longer than the name, such as a proper prefix or a substring
/// of it, therefore never matches.
pub proof fn lemma_is_named_whole_name(record: ProcessRecordView, query: Seq<char>)
    ensures
        record.is_named(query) ==> without_trailing_nul(record.executable_name).len()
            == query.len(),
        record.is_named(query) ==> forall|i: int|
            0 <= i < query.len() ==> ascii_lower(
                #[trigger] without_trailing_nul(record.executable_name)[i],
            ) == ascii_lower(query[i]),
        without_trailing_nul(record.executable_name).len() != query.len() ==> !record.is_named(
            query,
        ),
{
}

} // verus!
