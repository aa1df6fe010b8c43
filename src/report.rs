use vstd::prelude::*;
use crate::error::AddError;

verus! {

/// The failures among `outcomes`, in order: each failing dependency's name
/// with its error.
pub open spec fn failures_of(outcomes: Seq<(String, Result<(), AddError>)>) -> Seq<(Seq<char>, AddError)>
    decreases outcomes.len(),
{
    if outcomes.len() == 0 {
        Seq::empty()
    } else {
        let rest = failures_of(outcomes.drop_last());
        match outcomes.last().1 {
            Ok(()) => rest,
            Err(e) => rest.push((outcomes.last().0@, e)),
        }
    }
}

/// The names of the dependencies among `outcomes` that were added, in order.
pub open spec fn added_of(outcomes: Seq<(String, Result<(), AddError>)>) -> Seq<Seq<char>>
    decreases outcomes.len(),
{
    if outcomes.len() == 0 {
        Seq::empty()
    } else {
        let rest = added_of(outcomes.drop_last());
        match outcomes.last().1 {
            Ok(()) => rest.push(outcomes.last().0@),
            Err(_) => rest,
        }
    }
}

/// The text of each reported failure's name, with its error.
pub open spec fn failure_texts(f: Seq<(String, AddError)>) -> Seq<(Seq<char>, AddError)> {
    f.map_values(|p: (String, AddError)| (p.0@, p.1))
}

/// The text of each name.
pub open spec fn name_texts(v: Seq<String>) -> Seq<Seq<char>> {
    v.map_values(|s: String| s@)
}

/// What one invocation did with the dependencies it was asked to add.
pub struct BatchReport {
    pub added: Vec<String>,
    pub failures: Vec<(String, AddError)>,
}

impl BatchReport {
    /// The report on the outcomes of adding each requested dependency, in the
    /// order they were processed.
    pub fn summarize(outcomes: &Vec<(String, Result<(), AddError>)>) -> (r: BatchReport)
        ensures
            failure_texts(r.failures@) == failures_of(outcomes@),
            name_texts(r.added@) == added_of(outcomes@),
    {
        let mut added: Vec<String> = Vec::new();
        let mut failures: Vec<(String, AddError)> = Vec::new();
        let mut i: usize = 0;
        while i < outcomes.len()
            invariant
                0 <= i <= outcomes@.len(),
                failure_texts(failures@) == failures_of(outcomes@.subrange(0, i as int)),
                name_texts(added@) == added_of(outcomes@.subrange(0, i as int)),
            decreases outcomes.len() - i,
        {
            let ghost prefix = outcomes@.subrange(0, i as int + 1);
            assert(prefix.drop_last() =~= outcomes@.subrange(0, i as int));
            let ghost old_failures = failures@;
            let ghost old_added = added@;
            let name = outcomes[i].0.clone();
            match outcomes[i].1 {
                Ok(()) => {
                    added.push(name);
                    assert(name_texts(added@) =~= name_texts(old_added).push(name@));
                },
                Err(e) => {
                    failures.push((name, e));
                    assert(failure_texts(failures@) =~= failure_texts(old_failures).push((name@, e)));
                },
            }
            i = i + 1;
        }
        assert(outcomes@.subrange(0, i as int) =~= outcomes@);
        BatchReport { added, failures }
    }

    /// The process's exit status: zero when every dependency was added, one
    /// when any failed.
    pub fn exit_code(&self) -> (r: i32)
        ensures
            self.failures@.len() == 0 ==> r == 0,
            self.failures@.len() > 0 ==> r == 1,
    {
        if self.failures.len() == 0 {
            0
        } else {
            1
        }
    }
}

/// Some outcome is the failure `f`.
pub open spec fn failed_in(outcomes: Seq<(String, Result<(), AddError>)>, f: (Seq<char>, AddError)) -> bool {
    exists|i: int|
        0 <= i < outcomes.len() && outcomes[i].0@ == f.0 && #[trigger] outcomes[i].1 == Err::<
            (),
            AddError,
        >(f.1)
}

/// Some outcome is the addition of `name`.
pub open spec fn added_in(outcomes: Seq<(String, Result<(), AddError>)>, name: Seq<char>) -> bool {
    exists|i: int|
        0 <= i < outcomes.len() && (#[trigger] outcomes[i]).0@ == name && outcomes[i].1 is Ok
}

/// A batch reports each failing dependency once, by name and with its error,
/// and each other dependency as added: the failures and the additions together
/// account for every requested dependency.
pub proof fn lemma_batch_accounts_for_all(outcomes: Seq<(String, Result<(), AddError>)>)
    ensures
        failures_of(outcomes).len() + added_of(outcomes).len() == outcomes.len(),
        forall|i: int|
            0 <= i < outcomes.len() ==> match #[trigger] outcomes[i].1 {
                Err(e) => failures_of(outcomes).contains((outcomes[i].0@, e)),
                Ok(()) => added_of(outcomes).contains(outcomes[i].0@),
            },
        forall|j: int|
            0 <= j < failures_of(outcomes).len() ==> failed_in(
                outcomes,
                #[trigger] failures_of(outcomes)[j],
            ),
        forall|j: int|
            0 <= j < added_of(outcomes).len() ==> added_in(outcomes, #[trigger] added_of(outcomes)[j]),
    decreases outcomes.len(),
{
    if outcomes.len() > 0 {
        let rest = outcomes.drop_last();
        lemma_batch_accounts_for_all(rest);
        let n = outcomes.len() - 1;
        assert forall|i: int| 0 <= i < outcomes.len() implies match #[trigger] outcomes[i].1 {
            Err(e) => failures_of(outcomes).contains((outcomes[i].0@, e)),
            Ok(()) => added_of(outcomes).contains(outcomes[i].0@),
        } by {
            if i < n {
                assert(outcomes[i] == rest[i]);
                match rest[i].1 {
                    Err(e) => {
                        let j = choose|j: int| 0 <= j < failures_of(rest).len() && failures_of(rest)[j] == (rest[i].0@, e);
                        assert(failures_of(outcomes)[j] == failures_of(rest)[j]);
                    },
                    Ok(()) => {
                        let j = choose|j: int| 0 <= j < added_of(rest).len() && added_of(rest)[j] == rest[i].0@;
                        assert(added_of(outcomes)[j] == added_of(rest)[j]);
                    },
                }
            } else {
                match outcomes[i].1 {
                    Err(e) => {
                        assert(failures_of(outcomes)[failures_of(rest).len() as int] == (outcomes[i].0@, e));
                    },
                    Ok(()) => {
                        assert(added_of(outcomes)[added_of(rest).len() as int] == outcomes[i].0@);
                    },
                }
            }
        }
        assert forall|j: int| 0 <= j < failures_of(outcomes).len() implies failed_in(
            outcomes,
            #[trigger] failures_of(outcomes)[j],
        ) by {
            if j < failures_of(rest).len() {
                assert(failed_in(rest, failures_of(rest)[j]));
                let i = choose|i: int|
                    0 <= i < rest.len() && rest[i].0@ == failures_of(rest)[j].0
                        && #[trigger] rest[i].1 == Err::<(), AddError>(failures_of(rest)[j].1);
                assert(outcomes[i] == rest[i]);
                assert(failures_of(outcomes)[j] == failures_of(rest)[j]);
            } else {
                assert(outcomes[n].1 == Err::<(), AddError>(failures_of(outcomes)[j].1));
            }
        }
        assert forall|j: int| 0 <= j < added_of(outcomes).len() implies added_in(
            outcomes,
            #[trigger] added_of(outcomes)[j],
        ) by {
            if j < added_of(rest).len() {
                assert(added_in(rest, added_of(rest)[j]));
                let i = choose|i: int|
                    0 <= i < rest.len() && (#[trigger] rest[i]).0@ == added_of(rest)[j]
                        && rest[i].1 is Ok;
                assert(outcomes[i] == rest[i]);
                assert(added_of(outcomes)[j] == added_of(rest)[j]);
            } else {
                match outcomes[n].1 {
                    Ok(()) => {
                        assert(added_of(outcomes)[j] == outcomes[n].0@);
                    },
                    Err(_) => {},
                }
            }
        }
    }
}

} // verus!
